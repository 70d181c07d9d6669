use vstd::prelude::*;

verus! {

/// Version bookkeeping kept with a canister's state.
#[derive(Clone)]
pub struct VersionDetails {
    pub version_number: u64,
    pub version: String,
}

impl Default for VersionDetails {
    /// Version number 0 with an empty version name.
    fn default() -> (d: VersionDetails)
        ensures
            d.version_number == 0,
            d.version@ == Seq::<char>::empty(),
    {
        VersionDetails { version_number: 0, version: String::new() }
    }
}

} // verus!

use vstd::prelude::*;

verus! {

/// The identity of a user or a canister, held as the raw bytes of its
/// principal.
pub struct PrincipalId {
    pub bytes: Vec<u8>,
}

impl View for PrincipalId {
    type V = Seq<u8>;

    open spec fn view(&self) -> Seq<u8> {
        self.bytes@
    }
}

impl PrincipalId {
    /// A principal made of the given bytes.
    pub fn from_slice(bytes: &[u8]) -> (p: PrincipalId)
        ensures
            p@ == bytes@,
    {
        let mut v: Vec<u8> = Vec::new();
        for i in 0..bytes.len()
            invariant
                v@ == bytes@.subrange(0, i as int),
        {
            v.push(bytes[i]);
            assert(v@ == bytes@.subrange(0, i + 1));
        }
        assert(v@ == bytes@);
        PrincipalId { bytes: v }
    }

    /// A second principal equal to this one.
    pub fn duplicate(&self) -> (p: PrincipalId)
        ensures
            p@ == self@,
    {
        PrincipalId::from_slice(self.bytes.as_slice())
    }

    /// Whether two principals are the same principal.
    pub fn same_as(&self, other: &PrincipalId) -> (same: bool)
        ensures
            same == (self@ == other@),
    {
        if self.bytes.len() != other.bytes.len() {
            return false;
        }
        let n = self.bytes.len();
        for i in 0..n
            invariant
                n == self@.len(),
                n == other@.len(),
                forall|j: int| 0 <= j < i ==> self@[j] == other@[j],
        {
            if self.bytes[i] != other.bytes[i] {
                return false;
            }
        }
        assert(self@ =~= other@);
        true
    }
}

/// Whether an optional principal names the given principal.
pub fn is_principal(candidate: &Option<PrincipalId>, p: &PrincipalId) -> (r: bool)
    ensures
        r == (candidate is Some && candidate->0@ == p@),
{
    match candidate {
        Some(c) => c.same_as(p),
        None => false,
    }
}

/// The bytes of each principal of a list.
pub open spec fn principal_views(list: Seq<PrincipalId>) -> Seq<Seq<u8>> {
    list.map_values(|p: PrincipalId| p@)
}

/// A set of principals, each held once.
pub struct PrincipalSet {
    members: Vec<PrincipalId>,
}

impl View for PrincipalSet {
    type V = Set<Seq<u8>>;

    closed spec fn view(&self) -> Set<Seq<u8>> {
        principal_views(self.members@).to_set()
    }
}

impl PrincipalSet {
    /// No principal occurs twice.
    #[verifier::type_invariant]
    closed spec fn each_once(self) -> bool {
        principal_views(self.members@).no_duplicates()
    }

    /// The empty set.
    pub fn new() -> (s: PrincipalSet)
        ensures
            s@ == Set::<Seq<u8>>::empty(),
    {
        let s = PrincipalSet { members: Vec::new() };
        assert(principal_views(s.members@) =~= Seq::<Seq<u8>>::empty());
        assert(s@ =~= Set::<Seq<u8>>::empty());
        s
    }

    /// The number of principals in the set.
    pub fn len(&self) -> (n: usize)
        ensures
            n == self@.len(),
    {
        proof {
            use_type_invariant(self);
            principal_views(self.members@).unique_seq_to_set();
        }
        self.members.len()
    }

    /// Whether `p` is in the set.
    pub fn contains(&self, p: &PrincipalId) -> (found: bool)
        ensures
            found == self@.contains(p@),
    {
        let ghost views = principal_views(self.members@);
        for i in 0..self.members.len()
            invariant
                views == principal_views(self.members@),
                forall|j: int| 0 <= j < i ==> views[j] != p@,
        {
            if self.members[i].same_as(p) {
                assert(views.contains(p@)) by {
                    assert(views[i as int] == p@);
                }
                return true;
            }
        }
        assert(!views.contains(p@));
        false
    }

    /// Adds `p`; true when it was not in the set yet.
    pub fn insert(&mut self, p: PrincipalId) -> (added: bool)
        ensures
            added == !old(self)@.contains(p@),
            final(self)@ == old(self)@.insert(p@),
    {
        if self.contains(&p) {
            assert(self@.insert(p@) =~= self@);
            return false;
        }
        let ghost before = principal_views(self.members@);
        let ghost old_view = self@;
        proof {
            use_type_invariant(&*self);
        }
        let mut members: Vec<PrincipalId> = Vec::new();
        std::mem::swap(&mut members, &mut self.members);
        members.push(p);
        proof {
            assert(principal_views(members@) =~= before.push(p@));
            before.lemma_push_to_set_commute(p@);
            assert(!before.contains(p@));
        }
        self.members = members;
        true
    }
}

} // verus!

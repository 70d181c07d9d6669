use vstd::prelude::*;
use crate::principal::{PrincipalId, principal_views};

verus! {

/// Cycles below which (or at which) a subnet orchestrator is topped up, and
/// the amount it is topped up with.
pub const SUBNET_ORCHESTRATOR_CANISTER_CYCLES_THRESHOLD: u128 = 1_000_000_000_000_000;

/// The version the platform orchestrator runs, and when (nanoseconds since
/// the epoch) it was last upgraded.
pub struct PlatformOrchestratorVersion {
    pub version: String,
    pub last_update_on: u64,
}

/// The state of the platform orchestrator.
pub struct PlatformOrchestratorData {
    /// The subnet orchestrators registered with the platform, each once.
    pub all_subnet_orchestrator_canisters_list: Vec<PrincipalId>,
    pub version_detail: PlatformOrchestratorVersion,
}

/// The registered subnet orchestrators.
pub fn get_all_subnet_orchestrators(canister_data: &PlatformOrchestratorData) -> (list: Vec<PrincipalId>)
    ensures
        principal_views(list@) == principal_views(canister_data.all_subnet_orchestrator_canisters_list@),
{
    let source = &canister_data.all_subnet_orchestrator_canisters_list;
    let mut list: Vec<PrincipalId> = Vec::new();
    for i in 0..source.len()
        invariant
            list.len() == i,
            forall|j: int| 0 <= j < i ==> #[trigger] list@[j]@ == source@[j]@,
    {
        list.push(source[i].duplicate());
    }
    assert(principal_views(list@) =~= principal_views(source@));
    list
}

/// Records that the platform orchestrator now runs `version`, upgraded at
/// `now`.
pub fn update_version_from_args(canister_data: &mut PlatformOrchestratorData, version: String, now: u64)
    ensures
        final(canister_data).version_detail.version == version,
        final(canister_data).version_detail.last_update_on == now,
        final(canister_data).all_subnet_orchestrator_canisters_list == old(canister_data).all_subnet_orchestrator_canisters_list,
{
    canister_data.version_detail.version = version;
    canister_data.version_detail.last_update_on = now;
}

/// A subnet orchestrator known to be registered with the platform.
pub struct RegisteredSubnetOrchestrator {
    canister_id: PrincipalId,
}

/// Why a canister is refused as a subnet orchestrator.
pub open spec fn not_registered_message() -> Seq<char> {
    "Canister Id is not found in platform orchestrator"@
}

/// Whether `canister_id` is registered in `canister_data`.
pub open spec fn is_registered(canister_data: PlatformOrchestratorData, canister_id: Seq<u8>) -> bool {
    principal_views(canister_data.all_subnet_orchestrator_canisters_list@).contains(canister_id)
}

/// The cycles to deposit into an orchestrator that holds `current_cycles`:
/// none above the threshold, else the threshold's worth.
pub open spec fn top_up(current_cycles: u128) -> Option<u128> {
    if current_cycles > SUBNET_ORCHESTRATOR_CANISTER_CYCLES_THRESHOLD {
        None
    } else {
        Some(SUBNET_ORCHESTRATOR_CANISTER_CYCLES_THRESHOLD)
    }
}

/// An orchestrator is topped up exactly when it holds no more than the
/// threshold, and then with the threshold's worth; the more it holds, the
/// less it is ever given.
pub proof fn lemma_top_up_below_threshold_only(current_cycles: u128, more_cycles: u128)
    ensures
        top_up(current_cycles) is None <==> current_cycles > SUBNET_ORCHESTRATOR_CANISTER_CYCLES_THRESHOLD,
        current_cycles <= SUBNET_ORCHESTRATOR_CANISTER_CYCLES_THRESHOLD ==> top_up(current_cycles) == Some(SUBNET_ORCHESTRATOR_CANISTER_CYCLES_THRESHOLD),
        current_cycles <= more_cycles && top_up(current_cycles) is None ==> top_up(more_cycles) is None,
{
}

impl RegisteredSubnetOrchestrator {
    /// The principal of the orchestrator.
    pub closed spec fn principal(&self) -> Seq<u8> {
        self.canister_id@
    }

    /// The orchestrator `canister_id`, if it is registered with the
    /// platform; an error otherwise.
    pub fn new(canister_data: &PlatformOrchestratorData, canister_id: PrincipalId) -> (result: Result<RegisteredSubnetOrchestrator, String>)
        ensures
            result is Ok <==> is_registered(*canister_data, canister_id@),
            result matches Ok(o) ==> o.principal() == canister_id@,
            result matches Err(message) ==> message@ == not_registered_message(),
    {
        let list = &canister_data.all_subnet_orchestrator_canisters_list;
        let ghost view = principal_views(list@);
        for i in 0..list.len()
            invariant
                view == principal_views(list@),
                view == principal_views(canister_data.all_subnet_orchestrator_canisters_list@),
                forall|j: int| 0 <= j < i ==> view[j] != canister_id@,
        {
            if list[i].same_as(&canister_id) {
                assert(view[i as int] == canister_id@);
                assert(view.contains(canister_id@));
                return Ok(RegisteredSubnetOrchestrator { canister_id });
            }
        }
        assert(!view.contains(canister_id@));
        Err("Canister Id is not found in platform orchestrator".to_owned())
    }

    /// The principal of the orchestrator.
    pub fn get_canister_id(&self) -> (id: PrincipalId)
        ensures
            id@ == self.principal(),
    {
        self.canister_id.duplicate()
    }

    /// The cycles to deposit into this orchestrator, given the cycles it
    /// holds: none when it holds more than the threshold, else the
    /// threshold's worth.
    pub fn cycles_to_deposit(&self, current_cycles: u128) -> (deposit: Option<u128>)
        ensures
            deposit == top_up(current_cycles),
            current_cycles > SUBNET_ORCHESTRATOR_CANISTER_CYCLES_THRESHOLD ==> deposit is None,
            current_cycles <= SUBNET_ORCHESTRATOR_CANISTER_CYCLES_THRESHOLD ==> deposit
                == Some(SUBNET_ORCHESTRATOR_CANISTER_CYCLES_THRESHOLD),
    {
        if current_cycles > SUBNET_ORCHESTRATOR_CANISTER_CYCLES_THRESHOLD {
            None
        } else {
            Some(SUBNET_ORCHESTRATOR_CANISTER_CYCLES_THRESHOLD)
        }
    }
}

} // verus!

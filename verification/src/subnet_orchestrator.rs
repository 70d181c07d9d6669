use vstd::prelude::*;
use crate::canister_data::CanisterData;
use crate::known_principal::KnownPrincipalType;
use crate::principal::PrincipalId;

verus! {

/// The subnet orchestrator that a user canister reports to: the user index
/// recorded among its known principals.
pub struct SubnetOrchestrator {
    canister_id: PrincipalId,
}

/// Why a user canister cannot reach its subnet orchestrator.
pub open spec fn subnet_orchestrator_not_found_message() -> Seq<char> {
    "Subnet Orchestrator canister not found"@
}

impl SubnetOrchestrator {
    /// The principal of the orchestrator.
    pub closed spec fn principal(&self) -> Seq<u8> {
        self.canister_id@
    }

    /// The subnet orchestrator recorded in `canister_data` as its user
    /// index; an error when none is recorded.
    pub fn new(canister_data: &CanisterData) -> (result: Result<SubnetOrchestrator, String>)
        ensures
            result is Ok <==> canister_data.known_principal_ids.roles().contains_key(
                KnownPrincipalType::CanisterIdUserIndex,
            ),
            result matches Ok(o) ==> o.principal() == canister_data.known_principal_ids.roles()[KnownPrincipalType::CanisterIdUserIndex],
            result matches Err(message) ==> message@ == subnet_orchestrator_not_found_message(),
    {
        match canister_data.known_principal_ids.get(KnownPrincipalType::CanisterIdUserIndex) {
            Some(id) => Ok(SubnetOrchestrator { canister_id: id.duplicate() }),
            None => Err("Subnet Orchestrator canister not found".to_owned()),
        }
    }

    /// The principal of the orchestrator, to call it.
    pub fn canister_id(&self) -> (id: &PrincipalId)
        ensures
            id@ == self.principal(),
    {
        &self.canister_id
    }

    /// What asking the orchestrator for an empty canister yields, given its
    /// reply: the canister it allotted, the error it answered, or the
    /// message of a call that failed.
    pub fn empty_canister_from_reply(reply: Result<Result<PrincipalId, String>, String>) -> (result: Result<PrincipalId, String>)
        ensures
            result == match reply {
                Ok(answer) => answer,
                Err(message) => Err(message),
            },
    {
        match reply {
            Ok(answer) => answer,
            Err(message) => Err(message),
        }
    }
}

} // verus!

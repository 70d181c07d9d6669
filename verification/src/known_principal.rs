use vstd::prelude::*;
use std::collections::BTreeMap;
use crate::principal::PrincipalId;

verus! {

/// The roles under which a canister records the principals it works with.
#[derive(Clone, Copy, Debug, PartialEq, Eq, Structural)]
pub enum KnownPrincipalType {
    UserIdGlobalSuperAdmin,
    CanisterIdPlatformOrchestrator,
    CanisterIdPostCache,
    CanisterIdUserIndex,
}

/// The number under which a role is recorded.
pub open spec fn role_number(role: KnownPrincipalType) -> u64 {
    match role {
        KnownPrincipalType::UserIdGlobalSuperAdmin => 0,
        KnownPrincipalType::CanisterIdPlatformOrchestrator => 1,
        KnownPrincipalType::CanisterIdPostCache => 2,
        KnownPrincipalType::CanisterIdUserIndex => 3,
    }
}

impl KnownPrincipalType {
    /// The number under which this role is recorded.
    pub fn number(&self) -> (n: u64)
        ensures
            n == role_number(*self),
    {
        match self {
            KnownPrincipalType::UserIdGlobalSuperAdmin => 0,
            KnownPrincipalType::CanisterIdPlatformOrchestrator => 1,
            KnownPrincipalType::CanisterIdPostCache => 2,
            KnownPrincipalType::CanisterIdUserIndex => 3,
        }
    }
}

/// The principal recorded for each role, keyed by the role's number.
pub struct KnownPrincipalMap {
    by_role: BTreeMap<u64, PrincipalId>,
}

impl KnownPrincipalMap {
    /// The principal recorded for each role.
    pub closed spec fn roles(&self) -> Map<KnownPrincipalType, Seq<u8>> {
        Map::new(
            |r: KnownPrincipalType| self.by_role@.contains_key(role_number(r)),
            |r: KnownPrincipalType| self.by_role@[role_number(r)]@,
        )
    }

    /// A map that records no role.
    pub fn new() -> (m: KnownPrincipalMap)
        ensures
            m.roles() == Map::<KnownPrincipalType, Seq<u8>>::empty(),
    {
        let m = KnownPrincipalMap { by_role: BTreeMap::new() };
        assert(m.roles() =~= Map::<KnownPrincipalType, Seq<u8>>::empty());
        m
    }

    /// The principal recorded for `role`, if any.
    pub fn get(&self, role: KnownPrincipalType) -> (p: Option<&PrincipalId>)
        ensures
            p is Some == self.roles().contains_key(role),
            p matches Some(q) ==> q@ == self.roles()[role],
    {
        self.by_role.get(&role.number())
    }

    /// Records `principal` for `role`, replacing what was recorded for it.
    pub fn insert(&mut self, role: KnownPrincipalType, principal: PrincipalId)
        ensures
            final(self).roles() == old(self).roles().insert(role, principal@),
    {
        let ghost before = self.roles();
        self.by_role.insert(role.number(), principal);
        proof {
            assert forall|r: KnownPrincipalType| #[trigger] role_number(r) == role_number(role) implies r == role by {}
            assert(self.roles() =~= before.insert(role, principal@));
        }
    }
}

/// What is recorded for a role is read back: after recording `principal`
/// for `role`, the map gives that principal for `role` and what it gave
/// before for every other role.
pub proof fn lemma_recorded_role_is_read_back(
    before: KnownPrincipalMap,
    after: KnownPrincipalMap,
    role: KnownPrincipalType,
    principal: Seq<u8>,
)
    requires
        after.roles() == before.roles().insert(role, principal),
    ensures
        after.roles().contains_key(role),
        after.roles()[role] == principal,
        forall|r: KnownPrincipalType|
            r != role ==> (#[trigger] after.roles().contains_key(r) == before.roles().contains_key(r))
                && (before.roles().contains_key(r) ==> after.roles()[r] == before.roles()[r]),
{
}

} // verus!

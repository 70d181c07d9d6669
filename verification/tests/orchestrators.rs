use candid::Principal;
use hot_or_not_backend::canister_data::CanisterData;
use hot_or_not_backend::known_principal::{KnownPrincipalMap, KnownPrincipalType};
use hot_or_not_backend::platform_orchestrator::{
    get_all_subnet_orchestrators, update_version_from_args, PlatformOrchestratorData,
    PlatformOrchestratorVersion, RegisteredSubnetOrchestrator,
    SUBNET_ORCHESTRATOR_CANISTER_CYCLES_THRESHOLD,
};
use hot_or_not_backend::principal::{is_principal, PrincipalId};
use hot_or_not_backend::stable_memory::{heap_data_len, HEAP_DATA_OFFSET};
use hot_or_not_backend::subnet_orchestrator::SubnetOrchestrator;
use hot_or_not_backend::version_details::VersionDetails;

fn principal(text: &str) -> PrincipalId {
    PrincipalId::from_slice(Principal::from_text(text).unwrap().as_slice())
}

fn platform(list: Vec<PrincipalId>) -> PlatformOrchestratorData {
    PlatformOrchestratorData {
        all_subnet_orchestrator_canisters_list: list,
        version_detail: PlatformOrchestratorVersion { version: "v1".to_string(), last_update_on: 0 },
    }
}

#[test]
fn subnet_orchestrator_is_the_known_user_index() {
    let mut canister_data = CanisterData::default();
    assert_eq!(
        SubnetOrchestrator::new(&canister_data).err(),
        Some("Subnet Orchestrator canister not found".to_string())
    );
    let user_index = principal("rrkah-fqaaa-aaaaa-aaaaq-cai");
    canister_data
        .known_principal_ids
        .insert(KnownPrincipalType::CanisterIdPostCache, principal("2vxsx-fae"));
    canister_data
        .known_principal_ids
        .insert(KnownPrincipalType::CanisterIdUserIndex, user_index.duplicate());
    let orchestrator = SubnetOrchestrator::new(&canister_data).unwrap();
    assert_eq!(orchestrator.canister_id().bytes, user_index.bytes);
}

#[test]
fn empty_canister_reply_is_flattened() {
    let canister = principal("2vxsx-fae");
    let got = SubnetOrchestrator::empty_canister_from_reply(Ok(Ok(canister.duplicate())));
    assert_eq!(got.unwrap().bytes, canister.bytes);
    let refused = SubnetOrchestrator::empty_canister_from_reply(Ok(Err("no canister".to_string())));
    assert_eq!(refused.err(), Some("no canister".to_string()));
    let failed = SubnetOrchestrator::empty_canister_from_reply(Err("rejected".to_string()));
    assert_eq!(failed.err(), Some("rejected".to_string()));
}

#[test]
fn known_principal_insert_replaces() {
    let mut known = KnownPrincipalMap::new();
    assert!(known.get(KnownPrincipalType::CanisterIdUserIndex).is_none());
    known.insert(KnownPrincipalType::CanisterIdUserIndex, principal("2vxsx-fae"));
    known.insert(KnownPrincipalType::CanisterIdUserIndex, principal("rrkah-fqaaa-aaaaa-aaaaq-cai"));
    assert_eq!(
        known.get(KnownPrincipalType::CanisterIdUserIndex).unwrap().bytes,
        principal("rrkah-fqaaa-aaaaa-aaaaq-cai").bytes
    );
    assert!(known.get(KnownPrincipalType::CanisterIdPostCache).is_none());
}

#[test]
fn only_registered_orchestrators_are_accepted() {
    let a = principal("2vxsx-fae");
    let b = principal("rrkah-fqaaa-aaaaa-aaaaq-cai");
    let data = platform(vec![a.duplicate()]);
    let registered = RegisteredSubnetOrchestrator::new(&data, a.duplicate()).unwrap();
    assert_eq!(registered.get_canister_id().bytes, a.bytes);
    assert_eq!(
        RegisteredSubnetOrchestrator::new(&data, b).err(),
        Some("Canister Id is not found in platform orchestrator".to_string())
    );
}

#[test]
fn orchestrator_is_topped_up_at_or_below_the_threshold() {
    let data = platform(vec![principal("2vxsx-fae")]);
    let registered = RegisteredSubnetOrchestrator::new(&data, principal("2vxsx-fae")).unwrap();
    let t = SUBNET_ORCHESTRATOR_CANISTER_CYCLES_THRESHOLD;
    assert_eq!(registered.cycles_to_deposit(t + 1), None);
    assert_eq!(registered.cycles_to_deposit(t), Some(t));
    assert_eq!(registered.cycles_to_deposit(0), Some(t));
}

#[test]
fn all_subnet_orchestrators_are_listed() {
    let data = platform(vec![principal("2vxsx-fae"), principal("rrkah-fqaaa-aaaaa-aaaaq-cai")]);
    let list = get_all_subnet_orchestrators(&data);
    assert_eq!(list.len(), 2);
    assert_eq!(list[1].bytes, principal("rrkah-fqaaa-aaaaa-aaaaq-cai").bytes);
}

#[test]
fn version_is_recorded_on_upgrade() {
    let mut data = platform(vec![]);
    update_version_from_args(&mut data, "v2".to_string(), 123);
    assert_eq!(data.version_detail.version, "v2");
    assert_eq!(data.version_detail.last_update_on, 123);
    let details = VersionDetails::default();
    assert_eq!(details.version_number, 0);
    assert_eq!(details.version, "");
}

#[test]
fn heap_data_length_is_little_endian() {
    assert_eq!(heap_data_len(&[0x78, 0x56, 0x34, 0x12]), 0x12345678);
    assert_eq!(heap_data_len(&[0xff, 0xff, 0xff, 0xff]), u32::MAX);
    assert_eq!(heap_data_len(&[7, 0, 0, 0]), 7);
    assert_eq!(HEAP_DATA_OFFSET, 4);
}

#[test]
fn principals_compare_by_bytes() {
    let a = principal("2vxsx-fae");
    assert!(a.same_as(&a.duplicate()));
    assert!(!a.same_as(&principal("rrkah-fqaaa-aaaaa-aaaaq-cai")));
    assert!(is_principal(&Some(a.duplicate()), &a));
    assert!(!is_principal(&None, &a));
}

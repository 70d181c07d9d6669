use candid::Principal;
use hot_or_not_backend::canister_data::{
    get_principals_that_follow_this_profile_paginated_impl, CanisterData,
};
use hot_or_not_backend::follow::{FollowEntryDetail, FollowList};
use hot_or_not_backend::principal::PrincipalId;

fn principal_of(id: u64) -> PrincipalId {
    PrincipalId::from_slice(Principal::self_authenticating(id.to_ne_bytes()).as_slice())
}

fn detail_of(id: u64) -> FollowEntryDetail {
    FollowEntryDetail { principal_id: principal_of(id), canister_id: principal_of(id) }
}

fn ids_and_principals(page: &[(u64, FollowEntryDetail)]) -> Vec<(u64, Vec<u8>, Vec<u8>)> {
    page.iter()
        .map(|(id, d)| (*id, d.principal_id.bytes.clone(), d.canister_id.bytes.clone()))
        .collect()
}

fn expected(ids: Vec<u64>) -> Vec<(u64, Vec<u8>, Vec<u8>)> {
    ids.into_iter()
        .map(|id| (id, principal_of(id).bytes, principal_of(id).bytes))
        .collect()
}

#[test]
fn test_get_principals_that_follow_this_profile_paginated_impl() {
    let mut canister_data = CanisterData::default();
    let mut last_index_received: Option<u64> = None;

    canister_data.profile.principal_id = Some(principal_of(1000));

    let result = get_principals_that_follow_this_profile_paginated_impl(&canister_data, last_index_received);
    assert_eq!(result.len(), 0);

    (0..25).for_each(|id: u64| {
        canister_data.follow_data.follower.add(detail_of(id));
    });

    let result = get_principals_that_follow_this_profile_paginated_impl(&canister_data, last_index_received);
    assert_eq!(result.len(), 10);
    assert_eq!(ids_and_principals(&result), expected((15..=24).rev().collect()));

    last_index_received = Some(15);
    let result = get_principals_that_follow_this_profile_paginated_impl(&canister_data, last_index_received);
    assert_eq!(result.len(), 10);
    assert_eq!(ids_and_principals(&result), expected((6..=15).rev().collect()));

    last_index_received = Some(5);
    let result = get_principals_that_follow_this_profile_paginated_impl(&canister_data, last_index_received);
    assert_eq!(result.len(), 6);
    assert_eq!(ids_and_principals(&result), expected((0..=5).rev().collect()));

    last_index_received = Some(0);
    let result = get_principals_that_follow_this_profile_paginated_impl(&canister_data, last_index_received);
    assert_eq!(result.len(), 1);
    assert_eq!(ids_and_principals(&result), expected((0..1).rev().collect()));

    last_index_received = Some(100);
    let result = get_principals_that_follow_this_profile_paginated_impl(&canister_data, last_index_received);
    assert_eq!(result.len(), 10);
    assert_eq!(ids_and_principals(&result), expected((15..=24).rev().collect()));
}

#[test]
fn follow_list_add_numbers_entries_from_zero() {
    let mut list = FollowList::new();
    assert_eq!(list.add(detail_of(7)), Some(0));
    assert_eq!(list.add(detail_of(8)), Some(1));
    assert_eq!(list.add(detail_of(9)), Some(2));
    assert_eq!(list.sorted_index.len(), 3);
    assert_eq!(list.sorted_index.get(&1).unwrap().principal_id.bytes, principal_of(8).bytes);
}

#[test]
fn follow_list_add_continues_after_highest_id() {
    let mut list = FollowList::new();
    list.sorted_index.insert(41, detail_of(1));
    list.sorted_index.insert(3, detail_of(2));
    assert_eq!(list.add(detail_of(3)), Some(42));
}

#[test]
fn follow_list_add_refuses_when_ids_are_exhausted() {
    let mut list = FollowList::new();
    list.sorted_index.insert(u64::MAX, detail_of(1));
    assert_eq!(list.add(detail_of(2)), None);
    assert_eq!(list.sorted_index.len(), 1);
}

#[test]
fn page_skips_gaps_in_ids() {
    let mut list = FollowList::new();
    for id in [2u64, 4, 9, 30, 31] {
        list.sorted_index.insert(id, detail_of(id));
    }
    let page = list.newest_page(Some(29));
    assert_eq!(page.iter().map(|(id, _)| *id).collect::<Vec<u64>>(), vec![9, 4, 2]);
    let page = list.newest_page(Some(1));
    assert!(page.is_empty());
    let page = list.newest_page(None);
    assert_eq!(page.iter().map(|(id, _)| *id).collect::<Vec<u64>>(), vec![31, 30, 9, 4, 2]);
}

#[test]
fn consecutive_pages_overlap_on_the_cursor() {
    let mut list = FollowList::new();
    for id in 0..30u64 {
        list.add(detail_of(id));
    }
    let first = list.newest_page(None);
    let last_id = first.last().unwrap().0;
    let second = list.newest_page(Some(last_id));
    assert_eq!(first.last().unwrap().0, second.first().unwrap().0);
    assert_eq!(second.iter().map(|(id, _)| *id).collect::<Vec<u64>>(), (11..=20).rev().collect::<Vec<u64>>());
}

#[test]
fn newest_follower_heads_the_first_page() {
    let mut list = FollowList::new();
    for id in 0..12u64 {
        list.add(detail_of(id));
    }
    let id = list.add(detail_of(99)).unwrap();
    let page = list.newest_page(None);
    assert_eq!(page[0].0, id);
    assert_eq!(page[0].1.principal_id.bytes, principal_of(99).bytes);
}


#[test]
fn a_cursor_above_every_id_gives_the_first_page() {
    let mut list = FollowList::new();
    for id in 0..14u64 {
        list.add(detail_of(id));
    }
    let first: Vec<u64> = list.newest_page(None).iter().map(|(id, _)| *id).collect();
    let high: Vec<u64> = list.newest_page(Some(13)).iter().map(|(id, _)| *id).collect();
    let higher: Vec<u64> = list.newest_page(Some(u64::MAX)).iter().map(|(id, _)| *id).collect();
    assert_eq!(first, high);
    assert_eq!(first, higher);
}

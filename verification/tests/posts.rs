use candid::Principal;
use hot_or_not_backend::add_post::{add_post_v2, CYCLES_REQUESTED_PER_POST};
use hot_or_not_backend::canister_data::{
    add_post_to_memory, hot_or_not_tabulation_schedule,
    update_home_feed_and_hot_or_not_feed_score_and_get_post_index_item_to_send, CanisterData,
    SlotTabulation, HOT_OR_NOT_SLOT_COUNT,
};
use hot_or_not_backend::frontend::{get_individual_post_details_by_id, user_profile_details_for_frontend, BettingStatus};
use hot_or_not_backend::known_principal::KnownPrincipalType;
use hot_or_not_backend::post::{
    abs_diff, FeedScore, Post, PostDetailsFromFrontend, PostStatus, NANOS_PER_HOUR,
};
use hot_or_not_backend::post_cache::{
    check_and_update_scores_and_share_with_post_cache_if_difference_beyond_threshold,
    update_scores_and_share_with_post_cache_if_difference_beyond_threshold, PostCacheFeed,
};
use hot_or_not_backend::principal::PrincipalId;

const SECOND: u64 = 1_000_000_000;

fn principal(text: &str) -> PrincipalId {
    PrincipalId::from_slice(Principal::from_text(text).unwrap().as_slice())
}

fn alice_canister() -> PrincipalId {
    principal("rrkah-fqaaa-aaaaa-aaaaq-cai")
}

fn post_cache() -> PrincipalId {
    principal("ryjl3-tyaaa-aaaaa-aaaba-cai")
}

fn details(consent: bool) -> PostDetailsFromFrontend {
    PostDetailsFromFrontend {
        is_nsfw: false,
        description: "This is a new post".to_string(),
        hashtags: vec!["#fun".to_string(), "#post".to_string()],
        video_uid: "abcd1234".to_string(),
        creator_consent_for_inclusion_in_hot_or_not: consent,
    }
}

#[test]
fn test_update_home_feed_and_hot_or_not_feed_score_and_get_post_index_item_to_send() {
    let mut canister_data = CanisterData::default();
    let post_creation_time: u64 = 1_700_000_000 * SECOND;

    let response = update_home_feed_and_hot_or_not_feed_score_and_get_post_index_item_to_send(
        &mut canister_data,
        0,
        post_creation_time,
        &alice_canister(),
    );
    assert!(response.0.is_none() && response.1.is_none());

    canister_data.all_created_posts.insert(0, Post::new(0, &details(true), post_creation_time));

    let response = update_home_feed_and_hot_or_not_feed_score_and_get_post_index_item_to_send(
        &mut canister_data,
        0,
        post_creation_time,
        &alice_canister(),
    );
    assert!(response.0.is_some());
    assert!(response.1.is_some());

    let response = update_home_feed_and_hot_or_not_feed_score_and_get_post_index_item_to_send(
        &mut canister_data,
        0,
        post_creation_time + 120 * SECOND,
        &alice_canister(),
    );
    assert!(response.0.is_none() && response.1.is_none());
}

#[test]
fn shared_item_carries_the_post_and_publisher() {
    let mut canister_data = CanisterData::default();
    canister_data.all_created_posts.insert(0, Post::new(0, &details(false), 77));
    let (home, hot) = update_home_feed_and_hot_or_not_feed_score_and_get_post_index_item_to_send(
        &mut canister_data,
        0,
        99,
        &alice_canister(),
    );
    let home = home.unwrap();
    assert_eq!(home.post_id, 0);
    assert_eq!(home.score, 1000);
    assert_eq!(home.publisher_canister_id.bytes, alice_canister().bytes);
    assert!(!home.is_nsfw);
    assert_eq!(home.status, PostStatus::Uploaded);
    assert_eq!(home.created_at, Some(77));
    assert!(hot.is_none());
    let post = canister_data.all_created_posts.get(&0).unwrap();
    assert_eq!(
        post.home_feed_score,
        FeedScore { current_score: 1000, last_synchronized_score: 1000, last_synchronized_at: 99 }
    );
    assert!(post.hot_or_not_details.is_none());
}

#[test]
fn feed_scores_weigh_likes_watching_shares_bets_and_age() {
    let mut post = Post::new(0, &details(true), 0);
    assert_eq!(post.home_feed_score_at(0), 1000);
    assert_eq!(post.home_feed_score_at(3 * NANOS_PER_HOUR), 850);
    assert_eq!(post.home_feed_score_at(25 * NANOS_PER_HOUR), 0);
    post.likes.insert(alice_canister());
    post.likes.insert(post_cache());
    post.view_stats.total_view_count = 40;
    post.view_stats.average_watch_percentage = 50;
    post.share_count = 2;
    // likes 10000*2/40 = 500, watch 500, shares 100000*2/40 = 5000, age 1000
    assert_eq!(post.home_feed_score_at(0), 7000);
    post.hot_or_not_details.as_mut().unwrap().aggregate_stats.total_number_of_hot_bets = 3;
    post.hot_or_not_details.as_mut().unwrap().aggregate_stats.total_number_of_not_bets = 1;
    // bets 10000*4/40 = 1000
    assert_eq!(post.hot_or_not_feed_score_at(0), 8000);
    assert_eq!(post.home_feed_score_at(0), 7000);
}

#[test]
fn score_within_threshold_is_kept_but_not_shared() {
    let mut canister_data = CanisterData::default();
    canister_data.all_created_posts.insert(0, Post::new(0, &details(true), 1));
    update_home_feed_and_hot_or_not_feed_score_and_get_post_index_item_to_send(
        &mut canister_data, 0, 5, &alice_canister(),
    );
    canister_data.all_created_posts.get_mut(&0).unwrap().view_stats.average_watch_percentage = 1;
    let (home, hot) = update_home_feed_and_hot_or_not_feed_score_and_get_post_index_item_to_send(
        &mut canister_data, 0, 6, &alice_canister(),
    );
    assert!(home.is_none() && hot.is_none());
    let post = canister_data.all_created_posts.get(&0).unwrap();
    assert_eq!(
        post.home_feed_score,
        FeedScore { current_score: 1010, last_synchronized_score: 1000, last_synchronized_at: 5 }
    );
    assert_eq!(post.hot_or_not_details.unwrap().hot_or_not_feed_score.current_score, 1010);
}

#[test]
fn repeated_synchronisation_shares_nothing() {
    let mut canister_data = CanisterData::default();
    canister_data.all_created_posts.insert(0, Post::new(0, &details(true), 1));
    let first = update_home_feed_and_hot_or_not_feed_score_and_get_post_index_item_to_send(
        &mut canister_data, 0, 10, &alice_canister(),
    );
    assert!(first.0.is_some() && first.1.is_some());
    let second = update_home_feed_and_hot_or_not_feed_score_and_get_post_index_item_to_send(
        &mut canister_data, 0, 5000, &alice_canister(),
    );
    assert!(second.0.is_none() && second.1.is_none());
}

#[test]
fn scores_fall_with_age_and_are_shared_again() {
    assert_eq!(abs_diff(3, 20), 17);
    assert_eq!(abs_diff(20, 3), 17);
    let mut canister_data = CanisterData::default();
    canister_data.all_created_posts.insert(0, Post::new(0, &details(false), 0));
    update_home_feed_and_hot_or_not_feed_score_and_get_post_index_item_to_send(
        &mut canister_data, 0, 0, &alice_canister(),
    );
    let (home, _) = update_home_feed_and_hot_or_not_feed_score_and_get_post_index_item_to_send(
        &mut canister_data, 0, NANOS_PER_HOUR, &alice_canister(),
    );
    assert_eq!(home.unwrap().score, 950);
}

#[test]
fn add_post_to_memory_numbers_posts() {
    let mut canister_data = CanisterData::default();
    assert_eq!(add_post_to_memory(&mut canister_data, &details(true), 10), 0);
    assert_eq!(add_post_to_memory(&mut canister_data, &details(false), 20), 1);
    let post = canister_data.all_created_posts.get(&1).unwrap();
    assert_eq!(post.id, 1);
    assert_eq!(post.created_at, 20);
    assert_eq!(post.description, "This is a new post");
    assert_eq!(post.hashtags, vec!["#fun".to_string(), "#post".to_string()]);
    assert_eq!(post.video_uid, "abcd1234");
    assert_eq!(post.status, PostStatus::Uploaded);
    assert!(post.hot_or_not_details.is_none());
    assert_eq!(post.likes.len(), 0);
    assert!(canister_data.all_created_posts.get(&0).unwrap().hot_or_not_details.is_some());
}

#[test]
fn only_the_profile_owner_adds_posts() {
    let mut canister_data = CanisterData::default();
    canister_data
        .known_principal_ids
        .insert(KnownPrincipalType::CanisterIdPostCache, post_cache());
    let owner = principal("2vxsx-fae");
    let stranger = alice_canister();
    let refused = add_post_v2(&mut canister_data, &owner, &details(true), 1, &alice_canister());
    assert_eq!(
        refused.err(),
        Some("Only the user whose profile details are stored in this canister can create a post.".to_string())
    );
    canister_data.profile.principal_id = Some(owner.duplicate());
    assert!(add_post_v2(&mut canister_data, &stranger, &details(true), 1, &alice_canister()).is_err());
    assert!(canister_data.all_created_posts.is_empty());
    assert_eq!(add_post_v2(&mut canister_data, &owner, &details(true), 1, &alice_canister()).unwrap().post_id, 0);
    assert_eq!(add_post_v2(&mut canister_data, &owner, &details(true), 2, &alice_canister()).unwrap().post_id, 1);
}

#[test]
fn a_new_post_is_shared_scheduled_and_asks_for_cycles() {
    let mut canister_data = CanisterData::default();
    canister_data
        .known_principal_ids
        .insert(KnownPrincipalType::CanisterIdPostCache, post_cache());
    let owner = principal("2vxsx-fae");
    canister_data.profile.principal_id = Some(owner.duplicate());
    let created = add_post_v2(&mut canister_data, &owner, &details(true), 7, &alice_canister()).unwrap();
    let feeds: Vec<PostCacheFeed> = created.post_cache_notifications.iter().map(|n| n.feed).collect();
    assert_eq!(feeds, vec![PostCacheFeed::HomeFeed, PostCacheFeed::HotOrNotFeed, PostCacheFeed::YralFeed]);
    assert!(created.post_cache_notifications.iter().all(|n| n.item.score == 1000 && n.item.post_id == 0));
    assert!(created.post_cache_notifications.iter().all(|n| n.post_cache_canister_id.bytes == post_cache().bytes));
    assert_eq!(created.tabulation_timers.len(), 48);
    assert_eq!(created.tabulation_timers[47], SlotTabulation { slot_number: 48, delay_seconds: 48 * 3600 });
    assert_eq!(created.cycles_to_request, CYCLES_REQUESTED_PER_POST);
    let post = canister_data.all_created_posts.get(&0).unwrap();
    assert_eq!(
        post.home_feed_score,
        FeedScore { current_score: 1000, last_synchronized_score: 1000, last_synchronized_at: 7 }
    );
    let created = add_post_v2(&mut canister_data, &owner, &details(false), 8, &alice_canister()).unwrap();
    assert_eq!(created.post_cache_notifications.len(), 1);
}

#[test]
fn tabulation_runs_hourly_for_two_days() {
    let schedule = hot_or_not_tabulation_schedule();
    assert_eq!(schedule.len(), HOT_OR_NOT_SLOT_COUNT as usize);
    assert_eq!(schedule[0], SlotTabulation { slot_number: 1, delay_seconds: 3600 });
    assert_eq!(schedule[47], SlotTabulation { slot_number: 48, delay_seconds: 48 * 3600 });
}

#[test]
fn post_cache_receives_home_then_hot_or_not_then_yral() {
    let mut canister_data = CanisterData::default();
    canister_data
        .known_principal_ids
        .insert(KnownPrincipalType::CanisterIdPostCache, post_cache());
    let mut post = Post::new(0, &details(true), 1);
    post.hot_or_not_details.as_mut().unwrap().aggregate_stats.total_number_of_hot_bets = 1;
    canister_data.all_created_posts.insert(0, post);
    let notes = update_scores_and_share_with_post_cache_if_difference_beyond_threshold(
        &mut canister_data, 0, 2, &alice_canister(),
    );
    let feeds: Vec<PostCacheFeed> = notes.iter().map(|n| n.feed).collect();
    assert_eq!(feeds, vec![PostCacheFeed::HomeFeed, PostCacheFeed::HotOrNotFeed, PostCacheFeed::YralFeed]);
    assert_eq!(notes[0].item.score, 1000);
    assert_eq!(notes[1].item.score, 2000);
    assert_eq!(notes[2].item.score, 2000);
    assert!(notes.iter().all(|n| n.post_cache_canister_id.bytes == post_cache().bytes));
    assert_eq!(
        notes[0].feed.method_name(),
        "receive_top_home_feed_posts_from_publishing_canister"
    );
    assert_eq!(
        notes[2].feed.method_name(),
        "receive_top_yral_feed_posts_from_publishing_canister"
    );
}

#[test]
fn nothing_to_share_needs_no_post_cache() {
    let mut canister_data = CanisterData::default();
    let notes = update_scores_and_share_with_post_cache_if_difference_beyond_threshold(
        &mut canister_data, 3, 2, &alice_canister(),
    );
    assert!(notes.is_empty());
}

#[test]
fn post_details_show_the_creator_profile() {
    let mut canister_data = CanisterData::default();
    let owner = principal("2vxsx-fae");
    canister_data.profile.principal_id = Some(owner.duplicate());
    canister_data.profile.display_name = Some("alice".to_string());
    canister_data.my_token_balance.lifetime_earnings = 42;
    assert!(canister_data.principals_that_follow_me.insert(alice_canister()));
    assert!(!canister_data.principals_that_follow_me.insert(alice_canister()));
    add_post_to_memory(&mut canister_data, &details(false), 9);
    canister_data.all_created_posts.get_mut(&0).unwrap().likes.insert(alice_canister());
    let profile = user_profile_details_for_frontend(&canister_data);
    assert_eq!(profile.followers_count, 1);
    assert_eq!(profile.following_count, 0);
    assert_eq!(profile.lifetime_earnings, 42);
    assert_eq!(profile.display_name, Some("alice".to_string()));
    let post = get_individual_post_details_by_id(&canister_data, 0, &alice_canister(), 9);
    assert_eq!(post.id, 0);
    assert_eq!(post.created_by.principal_id.bytes, owner.bytes);
    assert_eq!(post.video_uid, "abcd1234");
    assert_eq!(post.created_at, 9);
    assert_eq!(post.like_count, 1);
    assert!(post.liked_by_me);
    assert_eq!(post.hot_or_not_betting_status, None);
    assert!(!get_individual_post_details_by_id(&canister_data, 0, &owner, 9).liked_by_me);
}

#[test]
fn synchronisation_keeps_the_post_ids() {
    let mut canister_data = CanisterData::default();
    add_post_to_memory(&mut canister_data, &details(true), 1);
    add_post_to_memory(&mut canister_data, &details(false), 2);
    update_home_feed_and_hot_or_not_feed_score_and_get_post_index_item_to_send(
        &mut canister_data, 1, 3, &alice_canister(),
    );
    update_home_feed_and_hot_or_not_feed_score_and_get_post_index_item_to_send(
        &mut canister_data, 7, 3, &alice_canister(),
    );
    let ids: Vec<u64> = canister_data.all_created_posts.keys().copied().collect();
    assert_eq!(ids, vec![0, 1]);
    assert_eq!(add_post_to_memory(&mut canister_data, &details(false), 4), 2);
}

#[test]
fn betting_is_open_for_the_hourly_slots_then_closed() {
    let mut canister_data = CanisterData::default();
    canister_data.profile.principal_id = Some(principal("2vxsx-fae"));
    add_post_to_memory(&mut canister_data, &details(true), 0);
    let at = |now: u64| {
        get_individual_post_details_by_id(&canister_data, 0, &alice_canister(), now).hot_or_not_betting_status
    };
    assert_eq!(at(0), Some(BettingStatus::BettingOpen { started_at: 0, ongoing_slot: 1 }));
    assert_eq!(at(NANOS_PER_HOUR + 5), Some(BettingStatus::BettingOpen { started_at: 0, ongoing_slot: 2 }));
    assert_eq!(at(48 * NANOS_PER_HOUR - 1), Some(BettingStatus::BettingOpen { started_at: 0, ongoing_slot: 48 }));
    assert_eq!(at(48 * NANOS_PER_HOUR), Some(BettingStatus::BettingClosed));
}

#[test]
fn a_batch_shares_each_post_in_turn() {
    let mut canister_data = CanisterData::default();
    canister_data
        .known_principal_ids
        .insert(KnownPrincipalType::CanisterIdPostCache, post_cache());
    add_post_to_memory(&mut canister_data, &details(false), 0);
    add_post_to_memory(&mut canister_data, &details(true), 0);
    let notes = check_and_update_scores_and_share_with_post_cache_if_difference_beyond_threshold(
        &mut canister_data, &vec![1, 9, 0, 1], 5, &alice_canister(),
    );
    let sent: Vec<(u64, PostCacheFeed)> = notes.iter().map(|n| (n.item.post_id, n.feed)).collect();
    assert_eq!(
        sent,
        vec![
            (1, PostCacheFeed::HomeFeed),
            (1, PostCacheFeed::HotOrNotFeed),
            (1, PostCacheFeed::YralFeed),
            (0, PostCacheFeed::HomeFeed),
        ]
    );
    assert_eq!(canister_data.all_created_posts.len(), 2);
}

#[test]
fn a_batch_with_nothing_to_share_needs_no_post_cache() {
    let mut canister_data = CanisterData::default();
    let notes = check_and_update_scores_and_share_with_post_cache_if_difference_beyond_threshold(
        &mut canister_data, &vec![4, 5], 5, &alice_canister(),
    );
    assert!(notes.is_empty());
}

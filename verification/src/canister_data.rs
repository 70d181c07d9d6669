use vstd::prelude::*;
use std::collections::BTreeMap;
use crate::follow::{
    FollowData, FollowEntryDetail, FollowEntryId, FollowList, MAX_FOLLOW_ENTRIES_PER_PAGE,
    is_newest_page, page_bound, page_view,
};
use crate::known_principal::{KnownPrincipalMap, KnownPrincipalType};
use crate::post::{
    IndexItemView, Post, PostDetailsFromFrontend, PostScoreIndexItemV1, home_feed_item, hot_or_not_feed_item,
    age_in_hours, home_feed_score, hot_or_not_feed_score, is_new_post, opt_item_view, recomputed_post, shares_post,
    views_base,
};
use crate::principal::{PrincipalId, PrincipalSet};
use crate::version_details::VersionDetails;

verus! {

/// Counters of the bets that a user's posts have received.
#[derive(Clone, Copy, Debug, PartialEq, Eq, Structural)]
pub struct UserProfileGlobalStats {
    pub hot_bets_received: u64,
    pub not_bets_received: u64,
}

/// A user and the canister that holds the user's profile.
pub struct UserCanisterDetails {
    pub profile_owner: PrincipalId,
    pub user_canister_id: PrincipalId,
}

/// The profile of the user whom this canister serves.
pub struct UserProfile {
    pub principal_id: Option<PrincipalId>,
    pub display_name: Option<String>,
    pub unique_user_name: Option<String>,
    pub profile_picture_url: Option<String>,
    pub profile_stats: UserProfileGlobalStats,
    pub referrer_details: Option<UserCanisterDetails>,
}

/// The user's token balance.
#[derive(Clone, Copy, Debug, PartialEq, Eq, Structural)]
pub struct TokenBalance {
    pub lifetime_earnings: u64,
}

/// The state of the canister that serves one user.
pub struct CanisterData {
    /// The user's posts, keyed by post id.
    pub all_created_posts: BTreeMap<u64, Post>,
    pub follow_data: FollowData,
    pub known_principal_ids: KnownPrincipalMap,
    pub my_token_balance: TokenBalance,
    pub principals_i_follow: PrincipalSet,
    pub principals_that_follow_me: PrincipalSet,
    pub profile: UserProfile,
    pub version_details: VersionDetails,
}

impl Default for CanisterData {
    /// A canister with no post, no follower, no known principal, a zero
    /// balance and an empty profile.
    fn default() -> (d: CanisterData)
        ensures
            d.all_created_posts@ == Map::<u64, Post>::empty(),
            d.follow_data.follower@ == Map::<u64, (Seq<u8>, Seq<u8>)>::empty(),
            d.follow_data.following@ == Map::<u64, (Seq<u8>, Seq<u8>)>::empty(),
            d.known_principal_ids.roles() == Map::<KnownPrincipalType, Seq<u8>>::empty(),
            d.my_token_balance.lifetime_earnings == 0,
            d.principals_i_follow@ == Set::<Seq<u8>>::empty(),
            d.principals_that_follow_me@ == Set::<Seq<u8>>::empty(),
            d.profile.principal_id is None,
            d.profile.display_name is None,
            d.profile.unique_user_name is None,
            d.profile.profile_picture_url is None,
            d.profile.profile_stats == (UserProfileGlobalStats { hot_bets_received: 0, not_bets_received: 0 }),
            d.profile.referrer_details is None,
            d.version_details.version_number == 0,
            d.version_details.version@ == Seq::<char>::empty(),
    {
        CanisterData {
            all_created_posts: BTreeMap::new(),
            follow_data: FollowData { follower: FollowList::new(), following: FollowList::new() },
            known_principal_ids: KnownPrincipalMap::new(),
            my_token_balance: TokenBalance { lifetime_earnings: 0 },
            principals_i_follow: PrincipalSet::new(),
            principals_that_follow_me: PrincipalSet::new(),
            profile: UserProfile {
                principal_id: None,
                display_name: None,
                unique_user_name: None,
                profile_picture_url: None,
                profile_stats: UserProfileGlobalStats { hot_bets_received: 0, not_bets_received: 0 },
                referrer_details: None,
            },
            version_details: VersionDetails::default(),
        }
    }
}

/// Whether the posts of a map are numbered densely: its keys are exactly
/// the ids below its size.
pub open spec fn posts_are_numbered(posts: Map<u64, Post>) -> bool {
    &&& posts.dom().finite()
    &&& forall|k: u64| #[trigger] posts.contains_key(k) <==> k < posts.len()
}

/// Whether `after` is `before` with a new post made of `details` at `now`
/// stored under `id`, the number of posts `before` holds, and nothing else
/// changed.
pub open spec fn post_added(before: CanisterData, after: CanisterData, id: u64, details: PostDetailsFromFrontend, now: u64) -> bool {
    &&& id == before.all_created_posts@.len()
    &&& after.all_created_posts@.contains_key(id)
    &&& is_new_post(after.all_created_posts@[id], id, details, now)
    &&& after.all_created_posts@.remove(id) == before.all_created_posts@.remove(id)
    &&& after == (CanisterData { all_created_posts: after.all_created_posts, ..before })
}

/// Whether `after` is `before` with the scores of post `post_id` recomputed
/// at `now` (nothing changes for an unknown post).
pub open spec fn scores_synchronised(before: CanisterData, after: CanisterData, post_id: u64, now: u64) -> bool {
    &&& after == (CanisterData { all_created_posts: after.all_created_posts, ..before })
    &&& after.all_created_posts@ == post_recomputed(before.all_created_posts@, post_id, now)
}

/// The home-feed and hot-or-not items that recomputing the scores of post
/// `post_id` at `now` shares, published by `publisher`.
pub open spec fn shared_items(data: CanisterData, post_id: u64, publisher: Seq<u8>, now: u64) -> (
    Option<IndexItemView>,
    Option<IndexItemView>,
) {
    post_items(data.all_created_posts@, post_id, publisher, now)
}

/// The home-feed and hot-or-not items that recomputing the scores of post
/// `post_id` of `posts` at `now` shares, published by `publisher`.
pub open spec fn post_items(posts: Map<u64, Post>, post_id: u64, publisher: Seq<u8>, now: u64) -> (
    Option<IndexItemView>,
    Option<IndexItemView>,
) {
    if posts.contains_key(post_id) {
        let post = posts[post_id];
        (
            home_feed_item(post, home_feed_score(post, now), publisher),
            hot_or_not_feed_item(post, hot_or_not_feed_score(post, now), publisher),
        )
    } else {
        (None, None)
    }
}

/// `posts` with the scores of post `post_id` recomputed at `now` (unchanged
/// for an unknown post).
pub open spec fn post_recomputed(posts: Map<u64, Post>, post_id: u64, now: u64) -> Map<u64, Post> {
    if posts.contains_key(post_id) {
        posts.insert(post_id, recomputed_post(posts[post_id], now))
    } else {
        posts
    }
}

/// The next page of the profile's followers: highest entry id first,
/// starting at `last_index_received` (or at the newest follower when there
/// is no cursor), at most `MAX_FOLLOW_ENTRIES_PER_PAGE` entries.
pub fn get_principals_that_follow_this_profile_paginated_impl(
    canister_data: &CanisterData,
    last_index_received: Option<u64>,
) -> (page: Vec<(FollowEntryId, FollowEntryDetail)>)
    ensures
        is_newest_page(
            canister_data.follow_data.follower@,
            page_bound(last_index_received),
            MAX_FOLLOW_ENTRIES_PER_PAGE as nat,
            page_view(page@),
        ),
{
    canister_data.follow_data.follower.newest_page(last_index_received)
}

/// Stores a new post made of `post_details` at `current_system_time` under
/// the next post id, the number of posts stored so far, and returns that id.
pub fn add_post_to_memory(
    canister_data: &mut CanisterData,
    post_details: &PostDetailsFromFrontend,
    current_system_time: u64,
) -> (new_post_id: u64)
    ensures
        post_added(*old(canister_data), *final(canister_data), new_post_id, *post_details, current_system_time),
        posts_are_numbered(old(canister_data).all_created_posts@) ==> {
            &&& !old(canister_data).all_created_posts@.contains_key(new_post_id)
            &&& posts_are_numbered(final(canister_data).all_created_posts@)
        },
{
    let count = canister_data.all_created_posts.len();
    let new_post_id = count as u64;
    let new_post = Post::new(new_post_id, post_details, current_system_time);
    let ghost before = canister_data.all_created_posts@;
    canister_data.all_created_posts.insert(new_post_id, new_post);
    proof {
        let after = canister_data.all_created_posts@;
        assert(after.remove(new_post_id) =~= before.remove(new_post_id));
        if posts_are_numbered(before) {
            assert(!before.contains_key(new_post_id));
            assert(after.len() == before.len() + 1);
            assert forall|k: u64| #[trigger] after.contains_key(k) <==> k < after.len() by {
                if k == new_post_id {
                } else {
                    assert(after.contains_key(k) == before.contains_key(k));
                }
            }
        }
    }
    new_post_id
}

/// Recomputes the feed scores of post `post_id` at `current_time` and
/// returns the index items to share with the post cache, published by
/// `canisters_own_principal_id`: one for each feed whose score moved beyond
/// its threshold since it was last shared. An unknown post changes nothing
/// and shares nothing.
pub fn update_home_feed_and_hot_or_not_feed_score_and_get_post_index_item_to_send(
    canister_data: &mut CanisterData,
    post_id: u64,
    current_time: u64,
    canisters_own_principal_id: &PrincipalId,
) -> (items: (Option<PostScoreIndexItemV1>, Option<PostScoreIndexItemV1>))
    ensures
        scores_synchronised(*old(canister_data), *final(canister_data), post_id, current_time),
        opt_item_view(items.0) == shared_items(*old(canister_data), post_id, canisters_own_principal_id@, current_time).0,
        opt_item_view(items.1) == shared_items(*old(canister_data), post_id, canisters_own_principal_id@, current_time).1,
        old(canister_data).all_created_posts@.contains_key(post_id) ==> {
            let post = old(canister_data).all_created_posts@[post_id];
            &&& items.0 matches Some(i) ==> shares_post(i, post, home_feed_score(post, current_time), canisters_own_principal_id@)
            &&& items.1 matches Some(i) ==> shares_post(i, post, hot_or_not_feed_score(post, current_time), canisters_own_principal_id@)
        },
{
    let ghost before = canister_data.all_created_posts@;
    match canister_data.all_created_posts.remove(&post_id) {
        None => {
            assert(canister_data.all_created_posts@ =~= before);
            (None, None)
        },
        Some(mut post) => {
            let home_feed_score_now = post.home_feed_score_at(current_time);
            let hot_or_not_feed_score_now = post.hot_or_not_feed_score_at(current_time);
            let items = post.synchronise_scores(
                current_time,
                home_feed_score_now,
                hot_or_not_feed_score_now,
                canisters_own_principal_id,
            );
            canister_data.all_created_posts.insert(post_id, post);
            proof {
                assert(canister_data.all_created_posts@ =~= before.insert(
                    post_id,
                    recomputed_post(before[post_id], current_time),
                ));
            }
            items
        },
    }
}

/// Recomputing again within the same hour shares nothing: once post
/// `post_id`'s scores are recomputed at `now`, recomputing them at `later`,
/// when the post is as many whole hours old, yields no index item.
pub proof fn lemma_repeated_synchronisation_shares_nothing(
    before: CanisterData,
    after: CanisterData,
    post_id: u64,
    now: u64,
    later: u64,
    publisher: Seq<u8>,
)
    requires
        scores_synchronised(before, after, post_id, now),
        before.all_created_posts@.contains_key(post_id) ==> age_in_hours(before.all_created_posts@[post_id], later)
            == age_in_hours(before.all_created_posts@[post_id], now),
    ensures
        shared_items(after, post_id, publisher, later) == (None::<IndexItemView>, None::<IndexItemView>),
{
    if before.all_created_posts@.contains_key(post_id) {
        let post = before.all_created_posts@[post_id];
        let synced = after.all_created_posts@[post_id];
        assert(views_base(synced) == views_base(post));
        assert(age_in_hours(synced, later) == age_in_hours(post, later));
        assert(home_feed_score(synced, later) == home_feed_score(post, now));
        assert(hot_or_not_feed_score(synced, later) == hot_or_not_feed_score(post, now));
    }
}

/// Recomputing scores keeps the set of post ids, so posts stay numbered
/// densely.
pub proof fn lemma_synchronisation_keeps_post_ids(before: CanisterData, after: CanisterData, post_id: u64, now: u64)
    requires
        scores_synchronised(before, after, post_id, now),
    ensures
        after.all_created_posts@.dom() == before.all_created_posts@.dom(),
        posts_are_numbered(before.all_created_posts@) ==> posts_are_numbered(after.all_created_posts@),
{
    assert(after.all_created_posts@.dom() =~= before.all_created_posts@.dom());
}

/// Why a request to add a post is refused when the caller does not own the
/// profile.
pub open spec fn not_profile_owner_message() -> Seq<char> {
    "Only the user whose profile details are stored in this canister can create a post."@
}

/// Whether `caller` is the user whose profile has principal `owner`.
pub open spec fn is_owner(owner: Option<PrincipalId>, caller: Seq<u8>) -> bool {
    owner is Some && owner->0@ == caller
}

/// The number of hot-or-not slots whose outcome is tabulated after a post
/// is created, one per hour.
pub const HOT_OR_NOT_SLOT_COUNT: u8 = 48;

/// The length of a hot-or-not slot, in seconds.
pub const HOT_OR_NOT_SLOT_SECONDS: u64 = 3600;

/// A timer that tabulates the outcome of one hot-or-not slot of a post.
#[derive(Clone, Copy, Debug, PartialEq, Eq, Structural)]
pub struct SlotTabulation {
    pub slot_number: u8,
    pub delay_seconds: u64,
}

/// The timers to set when a post is created: one for each slot from 1 to
/// `HOT_OR_NOT_SLOT_COUNT`, slot `n` tabulated `n` hours later.
pub fn hot_or_not_tabulation_schedule() -> (schedule: Vec<SlotTabulation>)
    ensures
        schedule.len() == HOT_OR_NOT_SLOT_COUNT,
        forall|i: int|
            0 <= i < schedule.len() ==> #[trigger] schedule[i] == (SlotTabulation {
                slot_number: (i + 1) as u8,
                delay_seconds: ((i + 1) * HOT_OR_NOT_SLOT_SECONDS) as u64,
            }),
{
    let mut schedule: Vec<SlotTabulation> = Vec::new();
    let mut slot: u8 = 1;
    while slot <= HOT_OR_NOT_SLOT_COUNT
        invariant
            1 <= slot <= HOT_OR_NOT_SLOT_COUNT + 1,
            schedule.len() == slot - 1,
            forall|i: int|
                0 <= i < schedule.len() ==> #[trigger] schedule[i] == (SlotTabulation {
                    slot_number: (i + 1) as u8,
                    delay_seconds: ((i + 1) * HOT_OR_NOT_SLOT_SECONDS) as u64,
                }),
        decreases HOT_OR_NOT_SLOT_COUNT + 1 - slot,
    {
        let delay_seconds: u64 = slot as u64 * HOT_OR_NOT_SLOT_SECONDS;
        schedule.push(SlotTabulation { slot_number: slot, delay_seconds });
        slot = slot + 1;
    }
    schedule
}

} // verus!

use vstd::prelude::*;
use crate::canister_data::{
    add_post_to_memory, hot_or_not_tabulation_schedule, is_owner, not_profile_owner_message,
    CanisterData, SlotTabulation, HOT_OR_NOT_SLOT_COUNT, HOT_OR_NOT_SLOT_SECONDS,
};
use crate::known_principal::KnownPrincipalType;
use crate::post::{
    home_feed_item, home_feed_score, hot_or_not_feed_item, hot_or_not_feed_score, is_new_post,
    no_bets, recomputed_post, views_base, age_in_hours, likes_component, shares_component, bets_component, zero_feed_score, HotOrNotDetails, IndexItemView, Post,
    PostDetailsFromFrontend,
};
use crate::post_cache::{
    notification_plan, notifications_view, update_scores_and_share_with_post_cache_if_difference_beyond_threshold,
    PostCacheNotification,
};
use crate::principal::{PrincipalId, is_principal};

verus! {

/// The cycles a user canister asks its subnet orchestrator for after each
/// new post, to pay for the computing the post brings.
pub const CYCLES_REQUESTED_PER_POST: u128 = 100_000_000_000;

/// What creating a post leads to beyond storing it: the messages to the
/// post cache that share its scores, the timers that tabulate its
/// hot-or-not slots, and the cycles to ask the subnet orchestrator for.
pub struct PostCreated {
    pub post_id: u64,
    pub post_cache_notifications: Vec<PostCacheNotification>,
    pub tabulation_timers: Vec<SlotTabulation>,
    pub cycles_to_request: u128,
}

/// `post` with the scores it had when `details` made it.
pub open spec fn as_created(post: Post, details: PostDetailsFromFrontend) -> Post {
    Post {
        home_feed_score: zero_feed_score(),
        hot_or_not_details: if details.creator_consent_for_inclusion_in_hot_or_not {
            Some(HotOrNotDetails { hot_or_not_feed_score: zero_feed_score(), aggregate_stats: no_bets() })
        } else {
            None
        },
        ..post
    }
}

/// Whether `post` is the post that `details` make, under `id`, at `now`,
/// with its scores recomputed at `now`.
pub open spec fn is_published_post(post: Post, id: u64, details: PostDetailsFromFrontend, now: u64) -> bool {
    &&& is_new_post(as_created(post, details), id, details, now)
    &&& post == recomputed_post(as_created(post, details), now)
}

/// The items that publishing the new post `post` shares, published by
/// `publisher` at `now`.
pub open spec fn publication_items(post: Post, publisher: Seq<u8>, now: u64) -> (Option<IndexItemView>, Option<IndexItemView>) {
    (
        home_feed_item(post, home_feed_score(post, now), publisher),
        hot_or_not_feed_item(post, hot_or_not_feed_score(post, now), publisher),
    )
}

/// A post is shared as soon as it is made: a new post scores 1000 in each
/// feed, beyond the thresholds, so its home-feed item is shared, and its
/// hot-or-not item too when its creator consented to hot-or-not.
pub proof fn lemma_new_post_is_shared(post: Post, id: u64, details: PostDetailsFromFrontend, now: u64, publisher: Seq<u8>)
    requires
        is_new_post(post, id, details, now),
    ensures
        home_feed_score(post, now) == 1000,
        hot_or_not_feed_score(post, now) == 1000,
        publication_items(post, publisher, now).0 is Some,
        details.creator_consent_for_inclusion_in_hot_or_not <==> publication_items(post, publisher, now).1 is Some,
{
    assert(views_base(post) == 10);
    assert(age_in_hours(post, now) == 0);
    assert(likes_component(post) == 0);
    assert(shares_component(post) == 0);
    assert(bets_component(post) == 0);
}

/// Adds a post on behalf of `caller`: only the user whose profile this
/// canister stores may do so; anyone else is refused and nothing changes.
/// For that user the post made of `post_details` is stored at `now` under
/// the next post id, its scores are recomputed at once, and the result
/// carries what the endpoint does next: the post-cache messages that share
/// those scores (published by `canisters_own_principal_id`), one timer per
/// hot-or-not slot, and the cycles to ask the subnet orchestrator for. A new
/// post's home-feed score always moves beyond its threshold, so the post
/// cache must be known.
pub fn add_post_v2(
    canister_data: &mut CanisterData,
    caller: &PrincipalId,
    post_details: &PostDetailsFromFrontend,
    now: u64,
    canisters_own_principal_id: &PrincipalId,
) -> (result: Result<PostCreated, String>)
    requires
        is_owner(old(canister_data).profile.principal_id, caller@)
            ==> old(canister_data).known_principal_ids.roles().contains_key(KnownPrincipalType::CanisterIdPostCache),
    ensures
        is_owner(old(canister_data).profile.principal_id, caller@) <==> result is Ok,
        result matches Err(message) ==> {
            &&& message@ == not_profile_owner_message()
            &&& *final(canister_data) == *old(canister_data)
        },
        result matches Ok(created) ==> {
            let id = created.post_id;
            let post = final(canister_data).all_created_posts@[id];
            let items = publication_items(as_created(post, *post_details), canisters_own_principal_id@, now);
            &&& id == old(canister_data).all_created_posts@.len()
            &&& final(canister_data).all_created_posts@.contains_key(id)
            &&& is_published_post(post, id, *post_details, now)
            &&& final(canister_data).all_created_posts@.remove(id) == old(canister_data).all_created_posts@.remove(id)
            &&& *final(canister_data) == (CanisterData {
                all_created_posts: final(canister_data).all_created_posts,
                ..*old(canister_data)
            })
            &&& notifications_view(created.post_cache_notifications@) == notification_plan(items.0, items.1)
            &&& forall|i: int|
                0 <= i < created.post_cache_notifications.len() ==> #[trigger] created.post_cache_notifications[i].post_cache_canister_id@
                    == old(canister_data).known_principal_ids.roles()[KnownPrincipalType::CanisterIdPostCache]
            &&& created.tabulation_timers.len() == HOT_OR_NOT_SLOT_COUNT
            &&& forall|i: int|
                0 <= i < created.tabulation_timers.len() ==> #[trigger] created.tabulation_timers[i] == (SlotTabulation {
                    slot_number: (i + 1) as u8,
                    delay_seconds: ((i + 1) * HOT_OR_NOT_SLOT_SECONDS) as u64,
                })
            &&& created.cycles_to_request == CYCLES_REQUESTED_PER_POST
        },
{
    if !is_principal(&canister_data.profile.principal_id, caller) {
        return Err(
            "Only the user whose profile details are stored in this canister can create a post.".to_owned(),
        );
    }
    let post_id = add_post_to_memory(canister_data, post_details, now);
    let ghost stored = *canister_data;
    let post_cache_notifications = update_scores_and_share_with_post_cache_if_difference_beyond_threshold(
        canister_data,
        post_id,
        now,
        canisters_own_principal_id,
    );
    proof {
        let created = stored.all_created_posts@[post_id];
        let post = canister_data.all_created_posts@[post_id];
        assert(post == recomputed_post(created, now));
        assert(as_created(post, *post_details) == created);
    }
    Ok(PostCreated {
        post_id,
        post_cache_notifications,
        tabulation_timers: hot_or_not_tabulation_schedule(),
        cycles_to_request: CYCLES_REQUESTED_PER_POST,
    })
}

} // verus!

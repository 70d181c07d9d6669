use vstd::prelude::*;
use crate::canister_data::{
    CanisterData, post_items, post_recomputed, scores_synchronised, shared_items,
    update_home_feed_and_hot_or_not_feed_score_and_get_post_index_item_to_send,
};
use crate::known_principal::{KnownPrincipalMap, KnownPrincipalType};
use crate::post::{IndexItemView, Post, PostScoreIndexItemV1, opt_item_view};
use crate::principal::PrincipalId;

verus! {

/// The feeds of the post cache that a publishing canister feeds.
#[derive(Clone, Copy, Debug, PartialEq, Eq, Structural)]
pub enum PostCacheFeed {
    HomeFeed,
    HotOrNotFeed,
    YralFeed,
}

/// The method of the post cache that receives a feed's top posts.
pub open spec fn feed_method(feed: PostCacheFeed) -> Seq<char> {
    match feed {
        PostCacheFeed::HomeFeed => "receive_top_home_feed_posts_from_publishing_canister"@,
        PostCacheFeed::HotOrNotFeed => "receive_top_hot_or_not_feed_posts_from_publishing_canister"@,
        PostCacheFeed::YralFeed => "receive_top_yral_feed_posts_from_publishing_canister"@,
    }
}

impl PostCacheFeed {
    /// The name of the post cache method that receives this feed's posts.
    pub fn method_name(&self) -> (name: &'static str)
        ensures
            name@ == feed_method(*self),
    {
        match self {
            PostCacheFeed::HomeFeed => "receive_top_home_feed_posts_from_publishing_canister",
            PostCacheFeed::HotOrNotFeed => "receive_top_hot_or_not_feed_posts_from_publishing_canister",
            PostCacheFeed::YralFeed => "receive_top_yral_feed_posts_from_publishing_canister",
        }
    }
}

/// A one-way message to the post cache that hands it an index item for one
/// of its feeds.
pub struct PostCacheNotification {
    pub post_cache_canister_id: PrincipalId,
    pub feed: PostCacheFeed,
    pub item: PostScoreIndexItemV1,
}

/// The feeds and items to send, in order: the home-feed item to the home
/// feed, then the hot-or-not item to the hot-or-not feed and to the yral
/// feed.
pub open spec fn notification_plan(
    home_item: Option<IndexItemView>,
    hot_or_not_item: Option<IndexItemView>,
) -> Seq<(PostCacheFeed, IndexItemView)> {
    let home = match home_item {
        Some(i) => seq![(PostCacheFeed::HomeFeed, i)],
        None => Seq::empty(),
    };
    let hot = match hot_or_not_item {
        Some(i) => seq![(PostCacheFeed::HotOrNotFeed, i), (PostCacheFeed::YralFeed, i)],
        None => Seq::empty(),
    };
    home + hot
}

/// The feed and item of each notification.
pub open spec fn notifications_view(notes: Seq<PostCacheNotification>) -> Seq<(PostCacheFeed, IndexItemView)> {
    notes.map_values(|n: PostCacheNotification| (n.feed, n.item@))
}

impl PostScoreIndexItemV1 {
    /// A second item equal to this one.
    pub fn duplicate(&self) -> (item: PostScoreIndexItemV1)
        ensures
            item@ == self@,
    {
        PostScoreIndexItemV1 {
            post_id: self.post_id,
            score: self.score,
            publisher_canister_id: self.publisher_canister_id.duplicate(),
            is_nsfw: self.is_nsfw,
            status: self.status,
            created_at: self.created_at,
        }
    }
}

/// Whether recomputing the scores of post `post_id` shares any item.
pub open spec fn shares_anything(
    data: CanisterData,
    post_id: u64,
    publisher: Seq<u8>,
    now: u64,
) -> bool {
    let items = shared_items(data, post_id, publisher, now);
    items.0 is Some || items.1 is Some
}

/// The notifications that hand `home_item` to the home feed and
/// `hot_or_not_item` to the hot-or-not and yral feeds of the post cache
/// recorded in `known`.
fn notifications_for(
    known: &KnownPrincipalMap,
    home_item: Option<PostScoreIndexItemV1>,
    hot_or_not_item: Option<PostScoreIndexItemV1>,
) -> (notifications: Vec<PostCacheNotification>)
    requires
        home_item is Some || hot_or_not_item is Some ==> known.roles().contains_key(KnownPrincipalType::CanisterIdPostCache),
    ensures
        notifications_view(notifications@) == notification_plan(opt_item_view(home_item), opt_item_view(hot_or_not_item)),
        forall|i: int|
            0 <= i < notifications.len() ==> #[trigger] notifications[i].post_cache_canister_id@
                == known.roles()[KnownPrincipalType::CanisterIdPostCache],
{
    let mut notifications: Vec<PostCacheNotification> = Vec::new();
    if home_item.is_none() && hot_or_not_item.is_none() {
        return notifications;
    }
    let post_cache = known.get(KnownPrincipalType::CanisterIdPostCache).unwrap().duplicate();
    match home_item {
        Some(item) => {
            notifications.push(PostCacheNotification {
                post_cache_canister_id: post_cache.duplicate(),
                feed: PostCacheFeed::HomeFeed,
                item,
            });
        },
        None => {},
    }
    match hot_or_not_item {
        Some(item) => {
            notifications.push(PostCacheNotification {
                post_cache_canister_id: post_cache.duplicate(),
                feed: PostCacheFeed::HotOrNotFeed,
                item: item.duplicate(),
            });
            notifications.push(PostCacheNotification {
                post_cache_canister_id: post_cache,
                feed: PostCacheFeed::YralFeed,
                item,
            });
        },
        None => {},
    }
    notifications
}

/// Recomputes the scores of post `post_id` at `current_time` (see
/// `update_home_feed_and_hot_or_not_feed_score_and_get_post_index_item_to_send`)
/// and returns the notifications to send to the post cache recorded among
/// the known principals: the home-feed item to its home feed, then the
/// hot-or-not item to its hot-or-not feed and to its yral feed. The post
/// cache must be known whenever something is to be shared.
pub fn update_scores_and_share_with_post_cache_if_difference_beyond_threshold(
    canister_data: &mut CanisterData,
    post_id: u64,
    current_time: u64,
    canisters_own_principal_id: &PrincipalId,
) -> (notifications: Vec<PostCacheNotification>)
    requires
        shares_anything(*old(canister_data), post_id, canisters_own_principal_id@, current_time)
            ==> old(canister_data).known_principal_ids.roles().contains_key(KnownPrincipalType::CanisterIdPostCache),
    ensures
        scores_synchronised(*old(canister_data), *final(canister_data), post_id, current_time),
        ({
            let items = shared_items(*old(canister_data), post_id, canisters_own_principal_id@, current_time);
            notifications_view(notifications@) == notification_plan(items.0, items.1)
        }),
        forall|i: int|
            0 <= i < notifications.len() ==> #[trigger] notifications[i].post_cache_canister_id@
                == old(canister_data).known_principal_ids.roles()[KnownPrincipalType::CanisterIdPostCache],
{
    let (home_item, hot_or_not_item) = update_home_feed_and_hot_or_not_feed_score_and_get_post_index_item_to_send(
        canister_data,
        post_id,
        current_time,
        canisters_own_principal_id,
    );
    notifications_for(&canister_data.known_principal_ids, home_item, hot_or_not_item)
}

/// The posts once the scores of the posts `post_ids` are recomputed at
/// `now`, one after another.
pub open spec fn posts_after_batch(posts: Map<u64, Post>, post_ids: Seq<u64>, now: u64) -> Map<u64, Post>
    decreases post_ids.len(),
{
    if post_ids.len() == 0 {
        posts
    } else {
        post_recomputed(posts_after_batch(posts, post_ids.drop_last(), now), post_ids.last(), now)
    }
}

/// The feeds and items to send while the scores of the posts `post_ids` are
/// recomputed at `now`, one after another: for each post in turn, what
/// recomputing its scores shares.
pub open spec fn batch_plan(posts: Map<u64, Post>, post_ids: Seq<u64>, publisher: Seq<u8>, now: u64) -> Seq<
    (PostCacheFeed, IndexItemView),
>
    decreases post_ids.len(),
{
    if post_ids.len() == 0 {
        Seq::empty()
    } else {
        let items = post_items(posts_after_batch(posts, post_ids.drop_last(), now), post_ids.last(), publisher, now);
        batch_plan(posts, post_ids.drop_last(), publisher, now) + notification_plan(items.0, items.1)
    }
}

/// A batch goes through every post it lists: listing one more post
/// recomputes that post after all the others, and sends what recomputing
/// it shares after everything the others sent.
pub proof fn lemma_batch_takes_one_more_post(posts: Map<u64, Post>, post_ids: Seq<u64>, post_id: u64, publisher: Seq<u8>, now: u64)
    ensures
        posts_after_batch(posts, post_ids.push(post_id), now)
            == post_recomputed(posts_after_batch(posts, post_ids, now), post_id, now),
        batch_plan(posts, post_ids.push(post_id), publisher, now) == batch_plan(posts, post_ids, publisher, now)
            + notification_plan(
                post_items(posts_after_batch(posts, post_ids, now), post_id, publisher, now).0,
                post_items(posts_after_batch(posts, post_ids, now), post_id, publisher, now).1,
            ),
{
    assert(post_ids.push(post_id).drop_last() =~= post_ids);
}

/// An empty batch changes nothing and sends nothing.
pub proof fn lemma_empty_batch_does_nothing(posts: Map<u64, Post>, publisher: Seq<u8>, now: u64)
    ensures
        posts_after_batch(posts, Seq::empty(), now) == posts,
        batch_plan(posts, Seq::empty(), publisher, now) == Seq::<(PostCacheFeed, IndexItemView)>::empty(),
{
}

/// A batch of one post does what recomputing that post alone does.
pub proof fn lemma_single_batch_is_one_update(posts: Map<u64, Post>, post_id: u64, publisher: Seq<u8>, now: u64)
    ensures
        posts_after_batch(posts, seq![post_id], now) == post_recomputed(posts, post_id, now),
        batch_plan(posts, seq![post_id], publisher, now) == notification_plan(
            post_items(posts, post_id, publisher, now).0,
            post_items(posts, post_id, publisher, now).1,
        ),
{
    assert(seq![post_id].drop_last() =~= Seq::<u64>::empty());
    assert(posts_after_batch(posts, seq![post_id].drop_last(), now) == posts);
    assert(seq![post_id].last() == post_id);
    assert(batch_plan(posts, Seq::<u64>::empty(), publisher, now) + notification_plan(
        post_items(posts, post_id, publisher, now).0,
        post_items(posts, post_id, publisher, now).1,
    ) =~= notification_plan(post_items(posts, post_id, publisher, now).0, post_items(posts, post_id, publisher, now).1));
}

/// What a shorter run of the batch sends is never more than the whole run.
proof fn lemma_batch_plan_grows(posts: Map<u64, Post>, post_ids: Seq<u64>, publisher: Seq<u8>, now: u64, n: int)
    requires
        0 <= n <= post_ids.len(),
    ensures
        batch_plan(posts, post_ids.take(n), publisher, now).len() <= batch_plan(posts, post_ids, publisher, now).len(),
    decreases post_ids.len(),
{
    if n < post_ids.len() {
        let shorter = post_ids.drop_last();
        assert(post_ids.take(n) =~= shorter.take(n));
        lemma_batch_plan_grows(posts, shorter, publisher, now, n);
    } else {
        assert(post_ids.take(n) =~= post_ids);
    }
}

/// Recomputes the scores of each post of `post_ids` in turn at
/// `current_time` and returns all the notifications to send to the post
/// cache, in that order (see
/// `update_scores_and_share_with_post_cache_if_difference_beyond_threshold`).
/// The post cache must be known whenever something is to be shared.
pub fn check_and_update_scores_and_share_with_post_cache_if_difference_beyond_threshold(
    canister_data: &mut CanisterData,
    post_ids: &Vec<u64>,
    current_time: u64,
    canisters_own_principal_id: &PrincipalId,
) -> (notifications: Vec<PostCacheNotification>)
    requires
        old(canister_data).known_principal_ids.roles().contains_key(KnownPrincipalType::CanisterIdPostCache)
            || batch_plan(old(canister_data).all_created_posts@, post_ids@, canisters_own_principal_id@, current_time).len() == 0,
    ensures
        *final(canister_data) == (CanisterData { all_created_posts: final(canister_data).all_created_posts, ..*old(canister_data) }),
        final(canister_data).all_created_posts@ == posts_after_batch(old(canister_data).all_created_posts@, post_ids@, current_time),
        notifications_view(notifications@)
            == batch_plan(old(canister_data).all_created_posts@, post_ids@, canisters_own_principal_id@, current_time),
        forall|i: int|
            0 <= i < notifications.len() ==> #[trigger] notifications[i].post_cache_canister_id@
                == old(canister_data).known_principal_ids.roles()[KnownPrincipalType::CanisterIdPostCache],
{
    let ghost start = *canister_data;
    let ghost posts = start.all_created_posts@;
    let ghost publisher = canisters_own_principal_id@;
    let mut notifications: Vec<PostCacheNotification> = Vec::new();
    let n = post_ids.len();
    proof {
        assert(post_ids@.take(0) =~= Seq::<u64>::empty());
        assert(notifications_view(notifications@) =~= Seq::<(PostCacheFeed, IndexItemView)>::empty());
    }
    for i in 0..n
        invariant
            n == post_ids.len(),
            posts == start.all_created_posts@,
            publisher == canisters_own_principal_id@,
            start.known_principal_ids.roles().contains_key(KnownPrincipalType::CanisterIdPostCache)
                || batch_plan(posts, post_ids@, publisher, current_time).len() == 0,
            *canister_data == (CanisterData { all_created_posts: canister_data.all_created_posts, ..start }),
            canister_data.all_created_posts@ == posts_after_batch(posts, post_ids@.take(i as int), current_time),
            notifications_view(notifications@) == batch_plan(posts, post_ids@.take(i as int), publisher, current_time),
            forall|j: int|
                0 <= j < notifications.len() ==> #[trigger] notifications[j].post_cache_canister_id@
                    == start.known_principal_ids.roles()[KnownPrincipalType::CanisterIdPostCache],
    {
        let ghost done = post_ids@.take(i as int);
        let ghost next = post_ids@.take(i + 1);
        proof {
            assert(next.drop_last() =~= done);
            assert(next.last() == post_ids@[i as int]);
            lemma_batch_plan_grows(posts, post_ids@, publisher, current_time, i + 1);
        }
        let ghost before_step = notifications@;
        let mut step = update_scores_and_share_with_post_cache_if_difference_beyond_threshold(
            canister_data,
            post_ids[i],
            current_time,
            canisters_own_principal_id,
        );
        let ghost step_notes = step@;
        notifications.append(&mut step);
        proof {
            assert(notifications_view(notifications@) =~= notifications_view(before_step)
                + notifications_view(step_notes));
            assert forall|j: int|
                0 <= j < notifications.len() implies #[trigger] notifications[j].post_cache_canister_id@
                    == start.known_principal_ids.roles()[KnownPrincipalType::CanisterIdPostCache] by {
                if j >= before_step.len() {
                    assert(notifications[j] == step_notes[j - before_step.len()]);
                } else {
                    assert(notifications[j] == before_step[j]);
                }
            }
        }
    }
    proof {
        assert(post_ids@.take(n as int) =~= post_ids@);
    }
    notifications
}

} // verus!

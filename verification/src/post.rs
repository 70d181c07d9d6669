use vstd::prelude::*;
use crate::principal::{PrincipalId, PrincipalSet};

verus! {

/// Home-feed score change beyond which a post's score is shared again.
pub const HOME_FEED_DIFFERENCE_TO_INITIATE_SYNCHRONISATION: u64 = 10;

/// Hot-or-not-feed score change beyond which a post's score is shared again.
pub const HOT_OR_NOT_FEED_DIFFERENCE_TO_INITIATE_SYNCHRONISATION: u64 = 10;

/// Where a post stands in its life cycle.
#[derive(Clone, Copy, Debug, PartialEq, Eq, Structural)]
pub enum PostStatus {
    Uploaded,
    Transcoding,
    CheckingExplicitness,
    BannedForExplicitness,
    ReadyToView,
    BannedDueToUserReporting,
    Deleted,
}

/// A feed score: its present value and the value (and time, in nanoseconds
/// since the epoch) it last had when it was shared with the post cache.
#[derive(Clone, Copy, Debug, PartialEq, Eq, Structural)]
pub struct FeedScore {
    pub current_score: u64,
    pub last_synchronized_score: u64,
    pub last_synchronized_at: u64,
}

/// The bets that a hot-or-not post has received.
#[derive(Clone, Copy, Debug, PartialEq, Eq, Structural)]
pub struct BetAggregateStats {
    pub total_number_of_hot_bets: u64,
    pub total_number_of_not_bets: u64,
    pub total_amount_bet: u64,
}

/// What a post that takes part in hot-or-not betting carries for it.
#[derive(Clone, Copy, Debug, PartialEq, Eq, Structural)]
pub struct HotOrNotDetails {
    pub hot_or_not_feed_score: FeedScore,
    pub aggregate_stats: BetAggregateStats,
}

/// How often, and how far, a post has been watched.
#[derive(Clone, Copy, Debug, PartialEq, Eq, Structural)]
pub struct PostViewStatistics {
    pub total_view_count: u64,
    pub threshold_view_count: u64,
    pub average_watch_percentage: u8,
}

/// What a creator submits for a new post.
pub struct PostDetailsFromFrontend {
    pub is_nsfw: bool,
    pub description: String,
    pub hashtags: Vec<String>,
    pub video_uid: String,
    pub creator_consent_for_inclusion_in_hot_or_not: bool,
}

/// A post with its feed scores. Times are nanoseconds since the epoch.
pub struct Post {
    pub id: u64,
    pub description: String,
    pub hashtags: Vec<String>,
    pub video_uid: String,
    pub status: PostStatus,
    pub created_at: u64,
    pub is_nsfw: bool,
    pub home_feed_score: FeedScore,
    pub hot_or_not_details: Option<HotOrNotDetails>,
    /// The users who liked the post.
    pub likes: PrincipalSet,
    pub share_count: u64,
    pub view_stats: PostViewStatistics,
}

/// A post's entry for the post cache's ranked feeds.
pub struct PostScoreIndexItemV1 {
    pub post_id: u64,
    pub score: u64,
    pub publisher_canister_id: PrincipalId,
    pub is_nsfw: bool,
    pub status: PostStatus,
    pub created_at: Option<u64>,
}

/// The fields of an index item, the publisher taken by its bytes.
pub type IndexItemView = (u64, u64, Seq<u8>, bool, PostStatus, Option<u64>);

impl View for PostScoreIndexItemV1 {
    type V = IndexItemView;

    open spec fn view(&self) -> IndexItemView {
        (self.post_id, self.score, self.publisher_canister_id@, self.is_nsfw, self.status, self.created_at)
    }
}

/// A copy of a list of strings.
pub fn copy_strings(v: &Vec<String>) -> (c: Vec<String>)
    ensures
        c@ == v@,
{
    let mut c: Vec<String> = Vec::new();
    for i in 0..v.len()
        invariant
            c@ == v@.subrange(0, i as int),
    {
        c.push(v[i].clone());
        assert(c@ =~= v@.subrange(0, i + 1));
    }
    assert(v@.subrange(0, v.len() as int) =~= v@);
    c
}

/// Whether `post` is the post that `details` make, under `id`, at `now`:
/// it starts uploaded, with zero feed scores, and takes part in hot-or-not
/// exactly when its creator consented.
pub open spec fn is_new_post(post: Post, id: u64, details: PostDetailsFromFrontend, now: u64) -> bool {
    &&& post.id == id
    &&& post.description@ == details.description@
    &&& post.hashtags@ == details.hashtags@
    &&& post.video_uid@ == details.video_uid@
    &&& post.status == PostStatus::Uploaded
    &&& post.created_at == now
    &&& post.is_nsfw == details.is_nsfw
    &&& post.home_feed_score == zero_feed_score()
    &&& post.hot_or_not_details == if details.creator_consent_for_inclusion_in_hot_or_not {
        Some(HotOrNotDetails { hot_or_not_feed_score: zero_feed_score(), aggregate_stats: no_bets() })
    } else {
        None
    }
    &&& post.likes@ == Set::<Seq<u8>>::empty()
    &&& post.share_count == 0
    &&& post.view_stats == (PostViewStatistics { total_view_count: 0, threshold_view_count: 0, average_watch_percentage: 0 })
}

/// No bet at all.
pub open spec fn no_bets() -> BetAggregateStats {
    BetAggregateStats { total_number_of_hot_bets: 0, total_number_of_not_bets: 0, total_amount_bet: 0 }
}

/// A score that is zero and was last shared at the epoch.
pub open spec fn zero_feed_score() -> FeedScore {
    FeedScore { current_score: 0, last_synchronized_score: 0, last_synchronized_at: 0 }
}

/// How far apart two scores are.
pub open spec fn score_difference(a: u64, b: u64) -> nat {
    if a >= b {
        (a - b) as nat
    } else {
        (b - a) as nat
    }
}

/// Whether a score that is now `now_score` has moved more than `threshold`
/// from the value last shared.
pub open spec fn needs_sync(score: FeedScore, now_score: u64, threshold: u64) -> bool {
    score_difference(now_score, score.last_synchronized_score) > threshold
}

/// The score once its present value is `now_score`: when it has moved more
/// than `threshold` since it was last shared, it counts as shared at `now`.
pub open spec fn resynced(score: FeedScore, now_score: u64, threshold: u64, now: u64) -> FeedScore {
    if needs_sync(score, now_score, threshold) {
        FeedScore { current_score: now_score, last_synchronized_score: now_score, last_synchronized_at: now }
    } else {
        FeedScore { current_score: now_score, ..score }
    }
}

/// The post once its scores are recomputed as `home_score` and
/// `hot_or_not_score` at `now`.
pub open spec fn synchronised_post(post: Post, now: u64, home_score: u64, hot_or_not_score: u64) -> Post {
    Post {
        home_feed_score: resynced(post.home_feed_score, home_score, HOME_FEED_DIFFERENCE_TO_INITIATE_SYNCHRONISATION, now),
        hot_or_not_details: match post.hot_or_not_details {
            Some(d) => Some(HotOrNotDetails {
                hot_or_not_feed_score: resynced(
                    d.hot_or_not_feed_score,
                    hot_or_not_score,
                    HOT_OR_NOT_FEED_DIFFERENCE_TO_INITIATE_SYNCHRONISATION,
                    now,
                ),
                ..d
            }),
            None => None,
        },
        ..post
    }
}

/// The view count below which a post's per-view components count as if it
/// had been viewed this often.
pub const FEED_SCORE_MIN_VIEWS: u64 = 10;

/// Nanoseconds in an hour.
pub const NANOS_PER_HOUR: u64 = 3_600_000_000_000;

/// The view count that a post's per-view components divide by.
pub open spec fn views_base(post: Post) -> nat {
    if post.view_stats.total_view_count > FEED_SCORE_MIN_VIEWS {
        post.view_stats.total_view_count as nat
    } else {
        FEED_SCORE_MIN_VIEWS as nat
    }
}

/// The weight of a post's likes, per view.
pub open spec fn likes_component(post: Post) -> nat {
    (10000 * post.likes@.len()) / views_base(post)
}

/// The weight of how far a post is watched on average.
pub open spec fn watch_component(post: Post) -> nat {
    10 * (post.view_stats.average_watch_percentage as nat)
}

/// The weight of a post's shares, per view.
pub open spec fn shares_component(post: Post) -> nat {
    (100000 * (post.share_count as nat)) / views_base(post)
}

/// The weight of the bets a hot-or-not post received, per view.
pub open spec fn bets_component(post: Post) -> nat {
    match post.hot_or_not_details {
        Some(d) => (10000 * (d.aggregate_stats.total_number_of_hot_bets as nat
            + d.aggregate_stats.total_number_of_not_bets as nat)) / views_base(post),
        None => 0,
    }
}

/// Whole hours since the post was created (none before its creation time).
pub open spec fn age_in_hours(post: Post, now: u64) -> nat {
    if now >= post.created_at {
        ((now - post.created_at) as nat) / (NANOS_PER_HOUR as nat)
    } else {
        0
    }
}

/// The freshness of a post: 1000 when new, 50 less for each whole hour of
/// age, never below 0.
pub open spec fn age_component(post: Post, now: u64) -> nat {
    if 50 * age_in_hours(post, now) >= 1000 {
        0
    } else {
        (1000 - 50 * age_in_hours(post, now)) as nat
    }
}

/// A count held in a `u64`, saturating at its largest value.
pub open spec fn capped(x: nat) -> u64 {
    if x > u64::MAX {
        u64::MAX
    } else {
        x as u64
    }
}

/// A post's home-feed score at `now`.
pub open spec fn home_feed_score(post: Post, now: u64) -> u64 {
    capped(likes_component(post) + watch_component(post) + shares_component(post) + age_component(post, now))
}

/// A post's hot-or-not-feed score at `now`.
pub open spec fn hot_or_not_feed_score(post: Post, now: u64) -> u64 {
    capped(
        likes_component(post) + watch_component(post) + shares_component(post) + bets_component(post)
            + age_component(post, now),
    )
}

/// The post once its scores are recomputed at `now`.
pub open spec fn recomputed_post(post: Post, now: u64) -> Post {
    synchronised_post(post, now, home_feed_score(post, now), hot_or_not_feed_score(post, now))
}

/// A quotient is at most its dividend.
proof fn lemma_quotient_at_most(x: nat, d: nat)
    requires
        d >= 1,
    ensures
        x / d <= x,
{
    assert(x / d <= x) by (nonlinear_arith)
        requires
            d >= 1,
    ;
}

/// The index item that shares `score` for `post` as published by `publisher`.
pub open spec fn index_item(post: Post, score: u64, publisher: Seq<u8>) -> IndexItemView {
    (post.id, score, publisher, post.is_nsfw, post.status, Some(post.created_at))
}

/// Whether index item `item` shares `score` for `post`, published by
/// `publisher`: it names the post, carries its safety flag, status and
/// creation time, and the score.
pub open spec fn shares_post(item: PostScoreIndexItemV1, post: Post, score: u64, publisher: Seq<u8>) -> bool {
    &&& item.post_id == post.id
    &&& item.score == score
    &&& item.publisher_canister_id@ == publisher
    &&& item.is_nsfw == post.is_nsfw
    &&& item.status == post.status
    &&& item.created_at == Some(post.created_at)
}

/// An item shared for a post describes that post: its id, the score
/// shared, the publisher, and the post's own safety flag, status and
/// creation time.
pub proof fn lemma_shared_item_describes_the_post(post: Post, home_score: u64, hot_or_not_score: u64, publisher: Seq<u8>)
    ensures
        home_feed_item(post, home_score, publisher) matches Some(i) ==> i == (
            post.id,
            home_score,
            publisher,
            post.is_nsfw,
            post.status,
            Some(post.created_at),
        ),
        hot_or_not_feed_item(post, hot_or_not_score, publisher) matches Some(i) ==> i == (
            post.id,
            hot_or_not_score,
            publisher,
            post.is_nsfw,
            post.status,
            Some(post.created_at),
        ),
{
}

/// The home-feed item to share for `post` once its home-feed score is
/// `home_score`, if the score moved beyond its threshold.
pub open spec fn home_feed_item(post: Post, home_score: u64, publisher: Seq<u8>) -> Option<IndexItemView> {
    if needs_sync(post.home_feed_score, home_score, HOME_FEED_DIFFERENCE_TO_INITIATE_SYNCHRONISATION) {
        Some(index_item(post, home_score, publisher))
    } else {
        None
    }
}

/// The hot-or-not item to share for `post` once its hot-or-not score is
/// `hot_or_not_score`, if the post takes part in hot-or-not and the score
/// moved beyond its threshold.
pub open spec fn hot_or_not_feed_item(post: Post, hot_or_not_score: u64, publisher: Seq<u8>) -> Option<IndexItemView> {
    match post.hot_or_not_details {
        Some(d) => if needs_sync(
            d.hot_or_not_feed_score,
            hot_or_not_score,
            HOT_OR_NOT_FEED_DIFFERENCE_TO_INITIATE_SYNCHRONISATION,
        ) {
            Some(index_item(post, hot_or_not_score, publisher))
        } else {
            None
        },
        None => None,
    }
}

/// The view of an optional index item.
pub open spec fn opt_item_view(item: Option<PostScoreIndexItemV1>) -> Option<IndexItemView> {
    match item {
        Some(i) => Some(i@),
        None => None,
    }
}

/// How far apart two scores are.
pub fn abs_diff(a: u64, b: u64) -> (d: u64)
    ensures
        d == score_difference(a, b),
{
    if a >= b {
        a - b
    } else {
        b - a
    }
}

impl Post {
    /// The view count that the post's per-view components divide by.
    fn views_base(&self) -> (base: u128)
        ensures
            base == views_base(*self),
            base >= 1,
    {
        if self.view_stats.total_view_count > FEED_SCORE_MIN_VIEWS {
            self.view_stats.total_view_count as u128
        } else {
            FEED_SCORE_MIN_VIEWS as u128
        }
    }

    /// The weight of the post's likes, shares, average watch and age at
    /// `now`, which both feed scores share.
    fn common_components(&self, now: u64) -> (sum: u128)
        ensures
            sum == likes_component(*self) + watch_component(*self) + shares_component(*self) + age_component(*self, now),
            sum <= 0x1_0000_0000_0000_0000_0000_0000,
    {
        let base = self.views_base();
        let likes = self.likes.len() as u128;
        let likes_part = (10000 * likes) / base;
        let watch_part = 10 * (self.view_stats.average_watch_percentage as u128);
        let shares_part = (100000 * (self.share_count as u128)) / base;
        let hours: u128 = if now >= self.created_at {
            ((now - self.created_at) / NANOS_PER_HOUR) as u128
        } else {
            0
        };
        let age_part: u128 = if 50 * hours >= 1000 { 0 } else { 1000 - 50 * hours };
        proof {
            lemma_quotient_at_most((10000 * likes) as nat, base as nat);
            lemma_quotient_at_most((100000 * (self.share_count as u128)) as nat, base as nat);
            assert(hours == age_in_hours(*self, now));
        }
        likes_part + watch_part + shares_part + age_part
    }

    /// The post's home-feed score at `now`.
    pub fn home_feed_score_at(&self, now: u64) -> (score: u64)
        ensures
            score == home_feed_score(*self, now),
    {
        let sum = self.common_components(now);
        if sum > u64::MAX as u128 {
            u64::MAX
        } else {
            sum as u64
        }
    }

    /// The post's hot-or-not-feed score at `now`.
    pub fn hot_or_not_feed_score_at(&self, now: u64) -> (score: u64)
        ensures
            score == hot_or_not_feed_score(*self, now),
    {
        let base = self.views_base();
        let bets_part: u128 = match &self.hot_or_not_details {
            Some(d) => {
                let bets = d.aggregate_stats.total_number_of_hot_bets as u128
                    + d.aggregate_stats.total_number_of_not_bets as u128;
                proof {
                    lemma_quotient_at_most((10000 * bets) as nat, base as nat);
                }
                (10000 * bets) / base
            },
            None => 0,
        };
        let sum = self.common_components(now) + bets_part;
        if sum > u64::MAX as u128 {
            u64::MAX
        } else {
            sum as u64
        }
    }

    /// The post that `details` make, under `id`, created at `now`.
    pub fn new(id: u64, details: &PostDetailsFromFrontend, now: u64) -> (post: Post)
        ensures
            is_new_post(post, id, *details, now),
    {
        let zero = FeedScore { current_score: 0, last_synchronized_score: 0, last_synchronized_at: 0 };
        Post {
            id,
            description: details.description.clone(),
            hashtags: copy_strings(&details.hashtags),
            video_uid: details.video_uid.clone(),
            status: PostStatus::Uploaded,
            created_at: now,
            is_nsfw: details.is_nsfw,
            home_feed_score: zero,
            hot_or_not_details: if details.creator_consent_for_inclusion_in_hot_or_not {
                Some(HotOrNotDetails {
                    hot_or_not_feed_score: zero,
                    aggregate_stats: BetAggregateStats {
                        total_number_of_hot_bets: 0,
                        total_number_of_not_bets: 0,
                        total_amount_bet: 0,
                    },
                })
            } else {
                None
            },
            likes: PrincipalSet::new(),
            share_count: 0,
            view_stats: PostViewStatistics { total_view_count: 0, threshold_view_count: 0, average_watch_percentage: 0 },
        }
    }

    /// The index item that shares `score` for this post.
    fn index_item_with(&self, score: u64, publisher: &PrincipalId) -> (item: PostScoreIndexItemV1)
        ensures
            item@ == index_item(*self, score, publisher@),
            shares_post(item, *self, score, publisher@),
    {
        PostScoreIndexItemV1 {
            post_id: self.id,
            score,
            publisher_canister_id: publisher.duplicate(),
            is_nsfw: self.is_nsfw,
            status: self.status,
            created_at: Some(self.created_at),
        }
    }

    /// Takes `home_score` and `hot_or_not_score` as the post's present feed
    /// scores at `now` and returns the index items to share: one for each
    /// feed whose score moved beyond its threshold since it was last
    /// shared (the hot-or-not one only for a post that takes part in
    /// hot-or-not). A score that is shared counts as shared at `now`.
    pub fn synchronise_scores(
        &mut self,
        now: u64,
        home_score: u64,
        hot_or_not_score: u64,
        publisher: &PrincipalId,
    ) -> (items: (Option<PostScoreIndexItemV1>, Option<PostScoreIndexItemV1>))
        ensures
            *final(self) == synchronised_post(*old(self), now, home_score, hot_or_not_score),
            opt_item_view(items.0) == home_feed_item(*old(self), home_score, publisher@),
            opt_item_view(items.1) == hot_or_not_feed_item(*old(self), hot_or_not_score, publisher@),
            items.0 matches Some(i) ==> shares_post(i, *old(self), home_score, publisher@),
            items.1 matches Some(i) ==> shares_post(i, *old(self), hot_or_not_score, publisher@),
    {
        let mut home_item: Option<PostScoreIndexItemV1> = None;
        let mut hot_or_not_item: Option<PostScoreIndexItemV1> = None;

        self.home_feed_score.current_score = home_score;
        if abs_diff(home_score, self.home_feed_score.last_synchronized_score)
            > HOME_FEED_DIFFERENCE_TO_INITIATE_SYNCHRONISATION {
            home_item = Some(self.index_item_with(home_score, publisher));
            self.home_feed_score.last_synchronized_score = home_score;
            self.home_feed_score.last_synchronized_at = now;
        }

        match self.hot_or_not_details {
            Some(details) => {
                let mut score = details.hot_or_not_feed_score;
                score.current_score = hot_or_not_score;
                if abs_diff(hot_or_not_score, score.last_synchronized_score)
                    > HOT_OR_NOT_FEED_DIFFERENCE_TO_INITIATE_SYNCHRONISATION {
                    hot_or_not_item = Some(self.index_item_with(hot_or_not_score, publisher));
                    score.last_synchronized_score = hot_or_not_score;
                    score.last_synchronized_at = now;
                }
                self.hot_or_not_details = Some(HotOrNotDetails { hot_or_not_feed_score: score, ..details });
            },
            None => {},
        }

        (home_item, hot_or_not_item)
    }
}

} // verus!

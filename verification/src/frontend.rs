use vstd::prelude::*;
use crate::canister_data::{CanisterData, UserCanisterDetails, UserProfileGlobalStats};
use crate::canister_data::HOT_OR_NOT_SLOT_COUNT;
use crate::post::{NANOS_PER_HOUR, Post, PostStatus, age_in_hours, copy_strings};
use crate::principal::PrincipalId;

verus! {

/// The profile of a post's creator as a frontend shows it.
pub struct UserProfileDetailsForFrontend {
    pub display_name: Option<String>,
    pub followers_count: u64,
    pub following_count: u64,
    pub principal_id: PrincipalId,
    pub profile_picture_url: Option<String>,
    pub profile_stats: UserProfileGlobalStats,
    pub unique_user_name: Option<String>,
    pub lifetime_earnings: u64,
    pub referrer_details: Option<UserCanisterDetails>,
}

/// A post as a frontend shows it, with its creator's profile.
pub struct PostDetailsForFrontend {
    pub id: u64,
    pub created_by: UserProfileDetailsForFrontend,
    pub description: String,
    pub hashtags: Vec<String>,
    pub video_uid: String,
    pub status: PostStatus,
    pub created_at: u64,
    pub home_feed_score: u64,
    pub is_nsfw: bool,
    pub like_count: u64,
    pub liked_by_me: bool,
    pub total_view_count: u64,
    pub share_count: u64,
    pub hot_or_not_betting_status: Option<BettingStatus>,
}

/// Whether a hot-or-not post takes bets: it does during the hourly slots
/// after its creation, in slot 1 for its first hour up to slot
/// `HOT_OR_NOT_SLOT_COUNT`, and no longer after them.
#[derive(Clone, Copy, Debug, PartialEq, Eq, Structural)]
pub enum BettingStatus {
    BettingOpen { started_at: u64, ongoing_slot: u8 },
    BettingClosed,
}

/// The betting status of `post` at `now`: none for a post that does not take
/// part in hot-or-not.
pub open spec fn betting_status(post: Post, now: u64) -> Option<BettingStatus> {
    match post.hot_or_not_details {
        None => None,
        Some(_) => if age_in_hours(post, now) < HOT_OR_NOT_SLOT_COUNT {
            Some(BettingStatus::BettingOpen {
                started_at: post.created_at,
                ongoing_slot: (age_in_hours(post, now) + 1) as u8,
            })
        } else {
            Some(BettingStatus::BettingClosed)
        },
    }
}

/// Betting follows the hourly slots: during the `h`-th whole hour after a
/// hot-or-not post was created (counting from 0), slot `h + 1` is open, for
/// each of the `HOT_OR_NOT_SLOT_COUNT` slots; from then on betting is
/// closed; a post outside hot-or-not has no betting status.
pub proof fn lemma_slots_follow_the_hours(post: Post, now: u64, h: nat)
    ensures
        post.hot_or_not_details is Some && h < HOT_OR_NOT_SLOT_COUNT && post.created_at + h * NANOS_PER_HOUR <= now
            && now < post.created_at + (h + 1) * NANOS_PER_HOUR ==> betting_status(post, now) == Some(
            BettingStatus::BettingOpen { started_at: post.created_at, ongoing_slot: (h + 1) as u8 },
        ),
        post.hot_or_not_details is Some && post.created_at + HOT_OR_NOT_SLOT_COUNT * NANOS_PER_HOUR <= now
            ==> betting_status(post, now) == Some(BettingStatus::BettingClosed),
        post.hot_or_not_details is None ==> betting_status(post, now) is None,
{
    if post.created_at + h * NANOS_PER_HOUR <= now && now < post.created_at + (h + 1) * NANOS_PER_HOUR {
        let d = (now - post.created_at) as nat;
        assert(d / (NANOS_PER_HOUR as nat) == h) by (nonlinear_arith)
            requires
                h * 3_600_000_000_000 <= d,
                d < (h + 1) * 3_600_000_000_000,
                NANOS_PER_HOUR == 3_600_000_000_000,
        {
        }
    }
    if post.created_at + HOT_OR_NOT_SLOT_COUNT * NANOS_PER_HOUR <= now {
        let d = (now - post.created_at) as nat;
        assert(d / (NANOS_PER_HOUR as nat) >= 48) by (nonlinear_arith)
            requires
                48 * 3_600_000_000_000 <= d,
                NANOS_PER_HOUR == 3_600_000_000_000,
        {
        }
    }
}

/// The betting status of `post` at `now`.
pub fn betting_status_at(post: &Post, now: u64) -> (status: Option<BettingStatus>)
    ensures
        status == betting_status(*post, now),
{
    match post.hot_or_not_details {
        None => None,
        Some(_) => {
            let hours: u64 = if now >= post.created_at {
                (now - post.created_at) / NANOS_PER_HOUR
            } else {
                0
            };
            if hours < HOT_OR_NOT_SLOT_COUNT as u64 {
                Some(BettingStatus::BettingOpen { started_at: post.created_at, ongoing_slot: (hours + 1) as u8 })
            } else {
                Some(BettingStatus::BettingClosed)
            }
        },
    }
}

/// The two principals of optional referrer details.
pub open spec fn referrer_view(r: Option<UserCanisterDetails>) -> Option<(Seq<u8>, Seq<u8>)> {
    match r {
        Some(d) => Some((d.profile_owner@, d.user_canister_id@)),
        None => None,
    }
}

/// A copy of an optional string.
pub fn copy_opt_string(s: &Option<String>) -> (c: Option<String>)
    ensures
        c == *s,
{
    match s {
        Some(t) => Some(t.clone()),
        None => None,
    }
}

/// A copy of optional referrer details.
pub fn copy_referrer(r: &Option<UserCanisterDetails>) -> (c: Option<UserCanisterDetails>)
    ensures
        referrer_view(c) == referrer_view(*r),
{
    match r {
        Some(d) => Some(UserCanisterDetails {
            profile_owner: d.profile_owner.duplicate(),
            user_canister_id: d.user_canister_id.duplicate(),
        }),
        None => None,
    }
}

/// Whether `details` show the profile that `data` stores, with its follower
/// and followee counts and lifetime earnings.
pub open spec fn shows_profile(details: UserProfileDetailsForFrontend, data: CanisterData) -> bool {
    &&& data.profile.principal_id is Some
    &&& details.principal_id@ == data.profile.principal_id->0@
    &&& details.display_name == data.profile.display_name
    &&& details.unique_user_name == data.profile.unique_user_name
    &&& details.profile_picture_url == data.profile.profile_picture_url
    &&& details.profile_stats == data.profile.profile_stats
    &&& referrer_view(details.referrer_details) == referrer_view(data.profile.referrer_details)
    &&& details.followers_count == data.principals_that_follow_me@.len()
    &&& details.following_count == data.principals_i_follow@.len()
    &&& details.lifetime_earnings == data.my_token_balance.lifetime_earnings
}

/// The profile that this canister stores, as a frontend shows it. The
/// profile must have its owner's principal.
pub fn user_profile_details_for_frontend(canister_data: &CanisterData) -> (details: UserProfileDetailsForFrontend)
    requires
        canister_data.profile.principal_id is Some,
    ensures
        shows_profile(details, *canister_data),
{
    let profile = &canister_data.profile;
    let principal_id = profile.principal_id.as_ref().unwrap().duplicate();
    UserProfileDetailsForFrontend {
        display_name: copy_opt_string(&profile.display_name),
        followers_count: canister_data.principals_that_follow_me.len() as u64,
        following_count: canister_data.principals_i_follow.len() as u64,
        principal_id,
        profile_picture_url: copy_opt_string(&profile.profile_picture_url),
        profile_stats: profile.profile_stats,
        unique_user_name: copy_opt_string(&profile.unique_user_name),
        lifetime_earnings: canister_data.my_token_balance.lifetime_earnings,
        referrer_details: copy_referrer(&profile.referrer_details),
    }
}

/// The post `post_id` as a frontend shows it to `caller` at `now`, created
/// by the profile that this canister stores. The post must exist and the profile
/// must have its owner's principal.
pub fn get_individual_post_details_by_id(
    canister_data: &CanisterData,
    post_id: u64,
    caller: &PrincipalId,
    now: u64,
) -> (details: PostDetailsForFrontend)
    requires
        canister_data.all_created_posts@.contains_key(post_id),
        canister_data.profile.principal_id is Some,
    ensures
        ({
            let post = canister_data.all_created_posts@[post_id];
            &&& details.id == post.id
            &&& shows_profile(details.created_by, *canister_data)
            &&& details.description == post.description
            &&& details.hashtags@ == post.hashtags@
            &&& details.video_uid == post.video_uid
            &&& details.status == post.status
            &&& details.created_at == post.created_at
            &&& details.home_feed_score == post.home_feed_score.current_score
            &&& details.is_nsfw == post.is_nsfw
            &&& details.like_count == post.likes@.len()
            &&& details.liked_by_me == post.likes@.contains(caller@)
            &&& details.total_view_count == post.view_stats.total_view_count
            &&& details.share_count == post.share_count
            &&& details.hot_or_not_betting_status == betting_status(post, now)
        }),
{
    let created_by = user_profile_details_for_frontend(canister_data);
    let post = canister_data.all_created_posts.get(&post_id).unwrap();
    PostDetailsForFrontend {
        id: post.id,
        created_by,
        description: post.description.clone(),
        hashtags: copy_strings(&post.hashtags),
        video_uid: post.video_uid.clone(),
        status: post.status,
        created_at: post.created_at,
        home_feed_score: post.home_feed_score.current_score,
        is_nsfw: post.is_nsfw,
        like_count: post.likes.len() as u64,
        liked_by_me: post.likes.contains(caller),
        total_view_count: post.view_stats.total_view_count,
        share_count: post.share_count,
        hot_or_not_betting_status: betting_status_at(post, now),
    }
}

} // verus!

# hot_or_not_backend

The state and decision logic of the hot-or-not canisters, verified with Verus.

- `src/` is the verified library: follower pagination (`follow`), posts and
  their feed scores and their synchronisation (`post`, `canister_data`,
  `post_cache`), post creation (`add_post`),
  the frontend view of posts and profiles (`frontend`), known principals,
  subnet and platform orchestrator bookkeeping, and the framing of the heap
  state in stable memory.
- `app/` holds the canister endpoints: they read the caller, the clock and
  stable memory, call other canisters, set timers, and convert between the
  library's types and their candid/serde forms.
- `tests/` exercises the library on concrete values.

Some of what the library models is a reconstruction of behaviour whose code
lies outside this crate: the feed-score formula of
a post (`post::home_feed_score`, `post::hot_or_not_feed_score`), the score
thresholds (`HOME_FEED_DIFFERENCE_TO_INITIATE_SYNCHRONISATION`,
`HOT_OR_NOT_FEED_DIFFERENCE_TO_INITIATE_SYNCHRONISATION`) and
`SUBNET_ORCHESTRATOR_CANISTER_CYCLES_THRESHOLD`, what a new post starts
with (`Post::new`), how `FollowList::add` numbers entries (it does not
refuse a follower who is already listed), the roles of `KnownPrincipalType`
and the states of `PostStatus`, the name of the subnet orchestrator's
`request_cycles` method, and the betting status of a post, of which only
its hourly slots are modelled. The hot-or-not bets themselves are not held;
`app/hot_or_not_bet.rs` only queues the slots whose outcome is due.

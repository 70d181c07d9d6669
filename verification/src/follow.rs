use vstd::prelude::*;
use std::collections::BTreeMap;
use vstd::std_specs::btree::increasing_seq;
use vstd::std_specs::iter::IteratorSpec;
use vstd::std_specs::cmp::OrdSpec;
use vstd::laws_cmp::obeys_cmp;
use crate::principal::PrincipalId;

verus! {

/// Number of entries a page of followers holds at most.
pub const MAX_FOLLOW_ENTRIES_PER_PAGE: usize = 10;

/// The identifier under which a follow entry is indexed.
pub type FollowEntryId = u64;

/// One follower (or followee): the user and the canister that holds the
/// user's profile.
pub struct FollowEntryDetail {
    pub principal_id: PrincipalId,
    pub canister_id: PrincipalId,
}

impl View for FollowEntryDetail {
    type V = (Seq<u8>, Seq<u8>);

    open spec fn view(&self) -> (Seq<u8>, Seq<u8>) {
        (self.principal_id@, self.canister_id@)
    }
}

impl FollowEntryDetail {
    /// A second entry equal to this one.
    pub fn duplicate(&self) -> (d: FollowEntryDetail)
        ensures
            d@ == self@,
    {
        FollowEntryDetail {
            principal_id: self.principal_id.duplicate(),
            canister_id: self.canister_id.duplicate(),
        }
    }
}

/// A list of follow entries, indexed by increasing entry id.
pub struct FollowList {
    pub sorted_index: BTreeMap<FollowEntryId, FollowEntryDetail>,
}

/// The followers of a profile and the profiles it follows.
pub struct FollowData {
    pub follower: FollowList,
    pub following: FollowList,
}

/// The entries of an index, each entry taken by its view.
pub open spec fn index_view(index: Map<u64, FollowEntryDetail>) -> Map<u64, (Seq<u8>, Seq<u8>)> {
    index.map_values(|d: FollowEntryDetail| d@)
}

impl View for FollowList {
    type V = Map<u64, (Seq<u8>, Seq<u8>)>;

    open spec fn view(&self) -> Map<u64, (Seq<u8>, Seq<u8>)> {
        index_view(self.sorted_index@)
    }
}

/// The greatest id a page may hold: the cursor that the caller gave, or,
/// with none, no bound at all.
pub open spec fn page_bound(last_index_received: Option<u64>) -> u64 {
    match last_index_received {
        Some(i) => i,
        None => u64::MAX,
    }
}

/// `page` lists, highest id first, the entries of `index` whose ids are at
/// most `bound`: all of them when there are fewer than `limit`, else the
/// `limit` ones with the highest ids.
pub open spec fn is_newest_page<V>(index: Map<u64, V>, bound: u64, limit: nat, page: Seq<(u64, V)>) -> bool {
    &&& page.len() <= limit
    &&& forall|i: int|
        #![trigger page[i]]
        0 <= i < page.len() ==> {
            &&& index.contains_key(page[i].0)
            &&& page[i].0 <= bound
            &&& index[page[i].0] == page[i].1
        }
    &&& forall|i: int, j: int| 0 <= i < j < page.len() ==> page[i].0 > page[j].0
    &&& forall|k: u64|
        #![trigger index.contains_key(k)]
        index.contains_key(k) && k <= bound && (page.len() < limit || k >= page.last().0)
            ==> exists|i: int| 0 <= i < page.len() && page[i].0 == k
}

/// The entries of a page, each taken by its view.
pub open spec fn page_view(page: Seq<(u64, FollowEntryDetail)>) -> Seq<(u64, (Seq<u8>, Seq<u8>))> {
    page.map_values(|e: (u64, FollowEntryDetail)| (e.0, e.1@))
}

/// An increasing sequence of ids has each id below the next.
proof fn lemma_increasing_ids(keys: Seq<u64>)
    requires
        increasing_seq(keys),
    ensures
        forall|i: int, j: int| 0 <= i < j < keys.len() ==> keys[i] < keys[j],
{
    assert forall|i: int, j: int| 0 <= i < j < keys.len() implies keys[i] < keys[j] by {
        assert(obeys_cmp::<u64>());
        assert(keys[i].cmp_spec(&keys[j]) is Less);
    }
}

/// The ids of `index` in increasing order.
fn sorted_ids(index: &BTreeMap<u64, FollowEntryDetail>) -> (ids: Vec<u64>)
    ensures
        forall|i: int, j: int| 0 <= i < j < ids.len() ==> ids[i] < ids[j],
        forall|i: int| 0 <= i < ids.len() ==> index@.contains_key(#[trigger] ids[i]),
        forall|k: u64| index@.contains_key(k) ==> ids@.contains(k),
{
    let entry_iter = index.iter();
    let ghost entries = entry_iter.remaining();
    let ghost keys = entries.map_values(|kv: (&u64, &FollowEntryDetail)| *kv.0);
    assert(increasing_seq(keys));
    let mut ids: Vec<u64> = Vec::new();
    for kv in it: entry_iter
        invariant
            it.seq() == entries,
            keys == entries.map_values(|kv: (&u64, &FollowEntryDetail)| *kv.0),
            ids@ == keys.take(it.index()),
    {
        assert(kv == entries[it.index()]);
        ids.push(*kv.0);
        assert(keys.take(it.index() + 1) =~= ids@);
    }
    assert(keys.take(keys.len() as int) =~= keys);
    proof {
        lemma_increasing_ids(keys);
    }
    assert forall|k: u64| index@.contains_key(k) implies ids@.contains(k) by {
        let i = choose|i: int| 0 <= i < entries.len() && entries[i] == (&k, &index@[k]);
        assert(ids@[i] == k);
    }
    ids
}

impl FollowList {
    /// The page of entries that a caller who last received the entry with
    /// id `last_index_received` asks for next: highest id first, starting
    /// at that id (or at the newest entry when there is no cursor), at most
    /// `MAX_FOLLOW_ENTRIES_PER_PAGE` of them.
    pub fn newest_page(&self, last_index_received: Option<u64>) -> (page: Vec<(FollowEntryId, FollowEntryDetail)>)
        ensures
            is_newest_page(
                self@,
                page_bound(last_index_received),
                MAX_FOLLOW_ENTRIES_PER_PAGE as nat,
                page_view(page@),
            ),
    {
        let ids = sorted_ids(&self.sorted_index);
        let n = ids.len();
        let last_key: u64 = if n == 0 { 0 } else { ids[n - 1] };
        let bound: u64 = match last_index_received {
            Some(i) => i,
            None => last_key,
        };
        let ghost index = self@;
        let mut page: Vec<(FollowEntryId, FollowEntryDetail)> = Vec::new();
        let mut i: usize = n;
        while i > 0 && page.len() < MAX_FOLLOW_ENTRIES_PER_PAGE
            invariant
                n == ids.len(),
                i <= n,
                index == self@,
                forall|a: int, b: int| 0 <= a < b < ids.len() ==> ids[a] < ids[b],
                forall|a: int| 0 <= a < ids.len() ==> self.sorted_index@.contains_key(#[trigger] ids[a]),
                page.len() <= MAX_FOLLOW_ENTRIES_PER_PAGE,
                forall|p: int|
                    #![trigger page@[p]]
                    0 <= p < page.len() ==> {
                        &&& index.contains_key(page@[p].0)
                        &&& page@[p].0 <= bound
                        &&& index[page@[p].0] == page@[p].1@
                        &&& exists|j: int| i <= j < n && ids[j] == page@[p].0
                    },
                forall|a: int, b: int| 0 <= a < b < page.len() ==> page@[a].0 > page@[b].0,
                forall|j: int| i <= j < n && ids[j] <= bound ==> exists|p: int| 0 <= p < page.len() && page@[p].0 == ids[j],
            decreases i,
        {
            i = i - 1;
            let k = ids[i];
            if k <= bound {
                match self.sorted_index.get(&k) {
                    Some(d) => {
                        let ghost before = page@;
                        page.push((k, d.duplicate()));
                        assert forall|p: int| 0 <= p < page.len() - 1 implies page@[p].0 > k by {
                            assert(page@[p] == before[p]);
                            let j = choose|j: int| i + 1 <= j < n && ids[j] == before[p].0;
                        }
                        assert forall|j: int| i <= j < n && ids[j] <= bound implies exists|p: int|
                            0 <= p < page.len() && page@[p].0 == ids[j] by {
                            if j == i {
                                assert(page@[page.len() - 1].0 == ids[j]);
                            } else {
                                let p = choose|p: int| 0 <= p < before.len() && before[p].0 == ids[j];
                                assert(page@[p] == before[p]);
                            }
                        }
                    },
                    None => {
                        assert(false);
                    },
                }
            }
        }
        let ghost spec_bound = page_bound(last_index_received);
        assert forall|k: u64| index.contains_key(k) implies (k <= bound <==> k <= spec_bound) by {
            assert(ids@.contains(k));
            let j = choose|j: int| 0 <= j < n && ids[j] == k;
            if j < n - 1 {
                assert(ids[j] < ids[n - 1]);
            }
        }
        let ghost pv = page_view(page@);
        assert forall|k: u64|
            index.contains_key(k) && k <= spec_bound && (pv.len() < MAX_FOLLOW_ENTRIES_PER_PAGE || k >= pv.last().0)
            implies exists|p: int| 0 <= p < pv.len() && pv[p].0 == k by {
            assert(ids@.contains(k));
            let j = choose|j: int| 0 <= j < n && ids[j] == k;
            if j < i {
                let l = page.len() - 1;
                let jl = choose|jl: int| i <= jl < n && ids[jl] == page@[l].0;
                assert(ids[j] < ids[jl]);
            }
            let p = choose|p: int| 0 <= p < page.len() && page@[p].0 == ids[j];
            assert(pv[p].0 == k);
        }
        page
    }
}

/// The id that the next added entry receives: one past the highest id in
/// use, or 0 for an empty index; none when the highest id is `u64::MAX`.
pub open spec fn next_entry_id(index: Map<u64, (Seq<u8>, Seq<u8>)>) -> Option<u64> {
    if index.dom().is_empty() {
        Some(0)
    } else if exists|k: u64| index.contains_key(k) && k == u64::MAX {
        None
    } else {
        let top = choose|k: u64| index.contains_key(k) && forall|j: u64| index.contains_key(j) ==> j <= k;
        Some((top + 1) as u64)
    }
}

impl FollowList {
    /// An empty list.
    pub fn new() -> (list: FollowList)
        ensures
            list@ == Map::<u64, (Seq<u8>, Seq<u8>)>::empty(),
    {
        let list = FollowList { sorted_index: BTreeMap::new() };
        assert(list@ =~= Map::<u64, (Seq<u8>, Seq<u8>)>::empty());
        list
    }

    /// Appends an entry under the next id (one past the highest id in use)
    /// and returns that id; when the highest id in use is `u64::MAX` the
    /// list stays as it is and the result is `None`.
    pub fn add(&mut self, detail: FollowEntryDetail) -> (id: Option<FollowEntryId>)
        ensures
            id == next_entry_id(old(self)@),
            id matches Some(i) ==> !old(self)@.contains_key(i) && final(self)@ == old(self)@.insert(i, detail@),
            id is None ==> final(self)@ == old(self)@,
    {
        let ids = sorted_ids(&self.sorted_index);
        let n = ids.len();
        let ghost index = self@;
        if n == 0 {
            assert(index.dom() =~= Set::<u64>::empty()) by {
                assert forall|k: u64| !index.contains_key(k) by {
                    if index.contains_key(k) {
                        assert(ids@.contains(k));
                    }
                }
            }
            self.sorted_index.insert(0, detail);
            assert(self@ =~= index.insert(0, detail@));
            return Some(0);
        }
        let top = ids[n - 1];
        assert(index.contains_key(top));
        assert forall|j: u64| index.contains_key(j) implies j <= top by {
            assert(ids@.contains(j));
            let a = choose|a: int| 0 <= a < n && ids[a] == j;
            if a < n - 1 {
                assert(ids[a] < ids[n - 1]);
            }
        }
        assert(!index.dom().is_empty()) by {
            assert(index.dom().contains(top));
        }
        if top == u64::MAX {
            return None;
        }
        let id = top + 1;
        assert(!exists|k: u64| index.contains_key(k) && k == u64::MAX);
        let ghost chosen = choose|k: u64| index.contains_key(k) && forall|j: u64| index.contains_key(j) ==> j <= k;
        assert(chosen == top) by {
            assert(chosen <= top);
            assert(top <= chosen);
        }
        assert(!index.contains_key(id));
        self.sorted_index.insert(id, detail);
        assert(self@ =~= index.insert(id, detail@));
        Some(id)
    }
}

/// Paging on: when a caller asks for the page that starts at the last id of
/// a page it received, that page starts with that same entry, so walking
/// the pages this way skips no entry.
pub proof fn lemma_next_page_starts_at_cursor<V>(
    index: Map<u64, V>,
    bound: u64,
    page: Seq<(u64, V)>,
    next: Seq<(u64, V)>,
)
    requires
        is_newest_page(index, bound, MAX_FOLLOW_ENTRIES_PER_PAGE as nat, page),
        page.len() > 0,
        is_newest_page(index, page.last().0, MAX_FOLLOW_ENTRIES_PER_PAGE as nat, next),
    ensures
        next.len() > 0,
        next[0] == page.last(),
{
    let k = page.last().0;
    assert(index.contains_key(k) && index[k] == page.last().1) by {
        assert(page[page.len() - 1] == page.last());
    }
    let i = choose|i: int| 0 <= i < next.len() && next[i].0 == k;
    if i > 0 {
        assert(next[0].0 > next[i].0);
        assert(next[0].0 <= k);
    }
}

/// A finite, non-empty set of ids has a highest id.
proof fn lemma_highest_id_exists(ids: Set<u64>)
    requires
        ids.finite(),
        !ids.is_empty(),
    ensures
        exists|m: u64| ids.contains(m) && forall|j: u64| ids.contains(j) ==> j <= m,
    decreases ids.len(),
{
    let x = ids.choose();
    let rest = ids.remove(x);
    if rest.is_empty() {
        assert forall|j: u64| ids.contains(j) implies j <= x by {
            if j != x {
                assert(rest.contains(j));
            }
        }
    } else {
        lemma_highest_id_exists(rest);
        let m = choose|m: u64| rest.contains(m) && forall|j: u64| rest.contains(j) ==> j <= m;
        if x > m {
            assert forall|j: u64| ids.contains(j) implies j <= x by {
                if j != x {
                    assert(rest.contains(j));
                }
            }
        } else {
            assert forall|j: u64| ids.contains(j) implies j <= m by {
                if j != x {
                    assert(rest.contains(j));
                }
            }
        }
    }
}

/// An entry that is added to a list receives an id above every id in use,
/// so it is the newest entry of the list.
pub proof fn lemma_added_entry_is_newest(index: Map<u64, (Seq<u8>, Seq<u8>)>, id: u64)
    requires
        index.dom().finite(),
        next_entry_id(index) == Some(id),
    ensures
        forall|k: u64| index.contains_key(k) ==> k < id,
{
    if !index.dom().is_empty() {
        lemma_highest_id_exists(index.dom());
    }
}

/// The newest follower comes first: once an entry is added, the first page
/// (asked for without a cursor) starts with it.
pub proof fn lemma_added_entry_heads_first_page(
    before: Map<u64, (Seq<u8>, Seq<u8>)>,
    id: u64,
    detail: (Seq<u8>, Seq<u8>),
    page: Seq<(u64, (Seq<u8>, Seq<u8>))>,
)
    requires
        before.dom().finite(),
        next_entry_id(before) == Some(id),
        is_newest_page(before.insert(id, detail), page_bound(None), MAX_FOLLOW_ENTRIES_PER_PAGE as nat, page),
    ensures
        page.len() > 0,
        page[0] == (id, detail),
{
    let after = before.insert(id, detail);
    lemma_added_entry_is_newest(before, id);
    assert(after.contains_key(id));
    let i = choose|i: int| 0 <= i < page.len() && page[i].0 == id;
    if i > 0 {
        assert(page[0].0 > page[i].0);
        assert(after.contains_key(page[0].0));
        if page[0].0 != id {
            assert(before.contains_key(page[0].0));
        }
    }
}

/// Two pages that both answer the same request agree on their first `n`
/// entries.
proof fn lemma_pages_agree_up_to<V>(index: Map<u64, V>, bound: u64, limit: nat, p: Seq<(u64, V)>, q: Seq<(u64, V)>, n: int)
    requires
        is_newest_page(index, bound, limit, p),
        is_newest_page(index, bound, limit, q),
        0 <= n <= p.len(),
        n <= q.len(),
    ensures
        forall|j: int| 0 <= j < n ==> p[j] == q[j],
    decreases n,
{
    if n > 0 {
        lemma_pages_agree_up_to(index, bound, limit, p, q, n - 1);
        let i = n - 1;
        if p[i].0 > q[i].0 {
            assert(q.last() == q[q.len() - 1]);
            if i < q.len() - 1 {
                assert(q[i].0 > q[q.len() - 1].0);
            }
            let k = choose|k: int| 0 <= k < q.len() && q[k].0 == p[i].0;
            if k >= i {
                if k > i {
                    assert(q[i].0 > q[k].0);
                }
            } else {
                assert(p[k] == q[k]);
                assert(p[k].0 > p[i].0);
            }
        } else if q[i].0 > p[i].0 {
            assert(p.last() == p[p.len() - 1]);
            if i < p.len() - 1 {
                assert(p[i].0 > p[p.len() - 1].0);
            }
            let k = choose|k: int| 0 <= k < p.len() && p[k].0 == q[i].0;
            if k >= i {
                if k > i {
                    assert(p[i].0 > p[k].0);
                }
            } else {
                assert(p[k] == q[k]);
                assert(q[k].0 > q[i].0);
            }
        }
        assert(p[i].0 == q[i].0);
        assert(p[i].1 == index[p[i].0]);
        assert(q[i].1 == index[q[i].0]);
    }
}

/// A page has one length: a shorter page that agrees with a longer one on
/// its entries would have left out an entry the longer one holds.
proof fn lemma_pages_have_one_length<V>(index: Map<u64, V>, bound: u64, limit: nat, p: Seq<(u64, V)>, q: Seq<(u64, V)>)
    requires
        is_newest_page(index, bound, limit, p),
        is_newest_page(index, bound, limit, q),
    ensures
        p.len() >= q.len(),
{
    if p.len() < q.len() {
        let n = p.len() as int;
        lemma_pages_agree_up_to(index, bound, limit, p, q, n);
        let key = q[n].0;
        assert(index.contains_key(key) && key <= bound);
        let k = choose|k: int| 0 <= k < p.len() && p[k].0 == key;
        assert(p[k] == q[k]);
        assert(q[k].0 > q[n].0);
    }
}

/// Paging gives one answer: two pages that answer the same request are the
/// same page.
pub proof fn lemma_newest_page_is_unique<V>(index: Map<u64, V>, bound: u64, limit: nat, p: Seq<(u64, V)>, q: Seq<(u64, V)>)
    requires
        is_newest_page(index, bound, limit, p),
        is_newest_page(index, bound, limit, q),
    ensures
        p == q,
{
    lemma_pages_have_one_length(index, bound, limit, p, q);
    lemma_pages_have_one_length(index, bound, limit, q, p);
    lemma_pages_agree_up_to(index, bound, limit, p, q, p.len() as int);
    assert(p =~= q);
}

/// A cursor at or above every id in use gives the same page as no cursor.
pub proof fn lemma_high_cursor_is_no_cursor<V>(
    index: Map<u64, V>,
    cursor: u64,
    page: Seq<(u64, V)>,
    first_page: Seq<(u64, V)>,
)
    requires
        forall|k: u64| index.contains_key(k) ==> k <= cursor,
        is_newest_page(index, page_bound(Some(cursor)), MAX_FOLLOW_ENTRIES_PER_PAGE as nat, page),
        is_newest_page(index, page_bound(None), MAX_FOLLOW_ENTRIES_PER_PAGE as nat, first_page),
    ensures
        page == first_page,
{
    assert(is_newest_page(index, page_bound(None), MAX_FOLLOW_ENTRIES_PER_PAGE as nat, page));
    lemma_newest_page_is_unique(index, page_bound(None), MAX_FOLLOW_ENTRIES_PER_PAGE as nat, page, first_page);
}

} // verus!

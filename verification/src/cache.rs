//! The caches beside the chain: fee samples of the most recent blocks, bounded
//! by a limit, and the pool of registered filters, bounded by their age.
use vstd::prelude::*;

verus! {

/// What is kept of one block for the fee history.
#[derive(Clone, Copy, Debug, PartialEq, Eq)]
pub struct FeeHistoryItem {
    pub base_fee: u64,
    pub gas_used: u64,
    pub gas_limit: u64,
}

/// The fee sample of the block of this number.
#[derive(Clone, Copy, Debug, PartialEq, Eq)]
pub struct FeeHistoryEntry {
    pub number: u64,
    pub item: FeeHistoryItem,
}

/// Whether the entries hold a sample of this block.
pub open spec fn holds(entries: Seq<FeeHistoryEntry>, number: u64) -> bool {
    exists|i: int| 0 <= i < entries.len() && (#[trigger] entries[i]).number == number
}

/// The place of the sample of this block.
pub open spec fn place(entries: Seq<FeeHistoryEntry>, number: u64) -> int {
    choose|i: int| 0 <= i < entries.len() && (#[trigger] entries[i]).number == number
}

/// No block has two samples.
pub open spec fn distinct(entries: Seq<FeeHistoryEntry>) -> bool {
    forall|i: int, j: int|
        0 <= i < j < entries.len() ==> (#[trigger] entries[i]).number != (#[trigger] entries[j]).number
}

/// The entries after one insertion under a limit: a sample of a block that has
/// one takes its place; else the sample is added at the end, and where the
/// limit is reached the first entry leaves. A limit of 0 keeps nothing.
pub open spec fn after_insert(entries: Seq<FeeHistoryEntry>, limit: int, e: FeeHistoryEntry) -> Seq<
    FeeHistoryEntry,
> {
    if holds(entries, e.number) {
        entries.update(place(entries, e.number), e)
    } else if limit <= 0 {
        entries
    } else if entries.len() < limit {
        entries.push(e)
    } else {
        entries.subrange(1, entries.len() as int).push(e)
    }
}

/// Fee samples in the order of their arrival, at most `limit` of them.
#[derive(Debug)]
pub struct FeeHistoryCache {
    limit: usize,
    entries: Vec<FeeHistoryEntry>,
}

impl FeeHistoryCache {
    /// The entries, oldest first.
    pub closed spec fn entries(&self) -> Seq<FeeHistoryEntry> {
        self.entries@
    }

    /// The most entries the cache keeps.
    pub closed spec fn limit(&self) -> int {
        self.limit as int
    }

    /// At most `limit` entries, no block twice.
    pub open spec fn wf(&self) -> bool {
        self.entries().len() <= self.limit() && distinct(self.entries())
    }

    /// An empty cache of this limit.
    pub fn new(limit: usize) -> (cache: FeeHistoryCache)
        ensures
            cache.wf(),
            cache.limit() == limit,
            cache.entries() == Seq::<FeeHistoryEntry>::empty(),
    {
        FeeHistoryCache { limit, entries: Vec::new() }
    }

    fn find(&self, number: u64) -> (at: Option<usize>)
        requires
            self.wf(),
        ensures
            at is Some == holds(self.entries(), number),
            at is Some ==> at->Some_0 == place(self.entries(), number) && at->Some_0
                < self.entries().len(),
    {
        let mut i: usize = 0;
        while i < self.entries.len()
            invariant
                self.wf(),
                i <= self.entries@.len(),
                forall|j: int| 0 <= j < i ==> (#[trigger] self.entries@[j]).number != number,
            decreases self.entries@.len() - i,
        {
            if self.entries[i].number == number {
                proof {
                    let j = place(self.entries(), number);
                    assert(self.entries()[i as int].number == number);
                    assert(0 <= j < self.entries().len() && self.entries()[j].number == number);
                }
                return Some(i);
            }
            i += 1;
        }
        None
    }

    /// How many entries the cache holds.
    pub fn len(&self) -> (n: usize)
        ensures
            n == self.entries().len(),
    {
        self.entries.len()
    }

    /// The sample of the block of this number, if the cache holds one.
    pub fn get(&self, number: u64) -> (found: Option<FeeHistoryItem>)
        requires
            self.wf(),
        ensures
            found is Some == holds(self.entries(), number),
            found is Some ==> found->Some_0 == self.entries()[place(self.entries(), number)].item,
    {
        match self.find(number) {
            Some(i) => Some(self.entries[i].item),
            None => None,
        }
    }

    /// Puts in the sample of a block; see `after_insert`.
    pub fn insert(&mut self, number: u64, item: FeeHistoryItem)
        requires
            old(self).wf(),
        ensures
            final(self).wf(),
            final(self).limit() == old(self).limit(),
            final(self).entries() == after_insert(
                old(self).entries(),
                old(self).limit(),
                FeeHistoryEntry { number, item },
            ),
    {
        let e = FeeHistoryEntry { number, item };
        match self.find(number) {
            Some(i) => {
                self.entries.set(i, e);
            },
            None => {
                if self.limit == 0 {
                    return;
                }
                if self.entries.len() >= self.limit {
                    self.entries.remove(0);
                    assert(self.entries@ =~= old(self).entries@.subrange(
                        1,
                        old(self).entries@.len() as int,
                    ));
                }
                self.entries.push(e);
            },
        }
        proof {
            let before = old(self).entries();
            let now = self.entries();
            assert(now =~= after_insert(before, old(self).limit(), e));
            lemma_insert_keeps_distinct(before, old(self).limit(), e);
        }
    }
}

/// An insertion keeps the entries distinct and within the limit.
pub proof fn lemma_insert_keeps_distinct(entries: Seq<FeeHistoryEntry>, limit: int, e: FeeHistoryEntry)
    requires
        distinct(entries),
        entries.len() <= limit,
    ensures
        distinct(after_insert(entries, limit, e)),
        after_insert(entries, limit, e).len() <= limit,
{
    let t = after_insert(entries, limit, e);
    if holds(entries, e.number) {
        let at = place(entries, e.number);
        assert forall|i: int, j: int| 0 <= i < j < t.len() implies (#[trigger] t[i]).number != (
        #[trigger] t[j]).number by {
            assert(t[i].number == entries[i].number);
            assert(t[j].number == entries[j].number);
        }
    } else if limit > 0 {
        assert forall|i: int, j: int| 0 <= i < j < t.len() implies (#[trigger] t[i]).number != (
        #[trigger] t[j]).number by {
            if entries.len() < limit {
                if j == entries.len() {
                    assert(entries[i].number != e.number);
                } else {
                    assert(t[i] == entries[i] && t[j] == entries[j]);
                }
            } else {
                assert(t[i] == entries[i + 1]);
                if j == t.len() - 1 {
                    assert(entries[i + 1].number != e.number);
                } else {
                    assert(t[j] == entries[j + 1]);
                }
            }
        }
    }
}

/// A full cache that takes the sample of a new block drops its oldest entry
/// and no other: the oldest block is no longer held, every other entry moves up
/// one place, and the new sample is the last.
pub proof fn law_full_cache_evicts_oldest(entries: Seq<FeeHistoryEntry>, limit: int, e: FeeHistoryEntry)
    requires
        distinct(entries),
        0 < limit,
        entries.len() == limit,
        !holds(entries, e.number),
    ensures
        after_insert(entries, limit, e).len() == limit,
        !holds(after_insert(entries, limit, e), entries[0].number),
        forall|i: int| 1 <= i < limit ==> after_insert(entries, limit, e)[i - 1] == #[trigger] entries[i],
        after_insert(entries, limit, e)[limit - 1] == e,
{
    let t = after_insert(entries, limit, e);
    assert(entries[0].number != e.number);
    assert forall|i: int| 0 <= i < t.len() implies (#[trigger] t[i]).number != entries[0].number by {
        if i < limit - 1 {
            assert(t[i] == entries[i + 1]);
        }
    }
}

/// A registered filter and the number of the block at which it was made.
#[derive(Clone, Copy, Debug, PartialEq, Eq)]
pub struct FilterEntry {
    pub id: u64,
    pub created_at: u64,
}

/// Whether a filter has outlived the retention window: the head's number
/// exceeds the filter's block number plus the window.
pub open spec fn expired(entry: FilterEntry, best: u64, retention: u64) -> bool {
    best > entry.created_at + retention
}

/// The filters that are kept at this head.
pub open spec fn retained(entries: Seq<FilterEntry>, best: u64, retention: u64) -> Seq<FilterEntry> {
    entries.filter(|e: FilterEntry| !expired(e, best, retention))
}

/// Whether a filter of this id is among the entries.
pub open spec fn registered(entries: Seq<FilterEntry>, id: u64) -> bool {
    exists|i: int| 0 <= i < entries.len() && (#[trigger] entries[i]).id == id
}

/// The registered filters, in the order of their registration.
#[derive(Debug)]
pub struct FilterPool {
    entries: Vec<FilterEntry>,
}

impl FilterPool {
    /// The registered filters, oldest first.
    pub closed spec fn entries(&self) -> Seq<FilterEntry> {
        self.entries@
    }

    /// The empty pool.
    pub fn new() -> (pool: FilterPool)
        ensures
            pool.entries() == Seq::<FilterEntry>::empty(),
    {
        FilterPool { entries: Vec::new() }
    }

    /// How many filters are registered.
    pub fn len(&self) -> (n: usize)
        ensures
            n == self.entries().len(),
    {
        self.entries.len()
    }

    /// Whether a filter of this id is registered.
    pub fn contains(&self, id: u64) -> (found: bool)
        ensures
            found == registered(self.entries(), id),
    {
        let mut i: usize = 0;
        while i < self.entries.len()
            invariant
                i <= self.entries@.len(),
                forall|j: int| 0 <= j < i ==> (#[trigger] self.entries@[j]).id != id,
            decreases self.entries@.len() - i,
        {
            if self.entries[i].id == id {
                return true;
            }
            i += 1;
        }
        false
    }

    /// Registers a filter made at block `created_at`, unless its id is taken.
    pub fn insert(&mut self, id: u64, created_at: u64) -> (added: bool)
        ensures
            added == !registered(old(self).entries(), id),
            final(self).entries() == (if added {
                old(self).entries().push(FilterEntry { id, created_at })
            } else {
                old(self).entries()
            }),
    {
        if self.contains(id) {
            false
        } else {
            self.entries.push(FilterEntry { id, created_at });
            true
        }
    }

    /// Drops every filter that has outlived the retention window at the head
    /// `best`, and keeps the others in their order.
    pub fn evict_expired(&mut self, best: u64, retention: u64)
        ensures
            final(self).entries() == retained(old(self).entries(), best, retention),
    {
        let ghost keep = |e: FilterEntry| !expired(e, best, retention);
        let mut kept: Vec<FilterEntry> = Vec::new();
        let mut i: usize = 0;
        assert(self.entries@.take(0) =~= Seq::empty());
        proof {
            reveal(Seq::filter);
        }
        while i < self.entries.len()
            invariant
                *self == *old(self),
                i <= self.entries@.len(),
                keep == |e: FilterEntry| !expired(e, best, retention),
                kept@ == self.entries@.take(i as int).filter(keep),
            decreases self.entries@.len() - i,
        {
            let e = self.entries[i];
            proof {
                reveal(Seq::filter);
                let next = self.entries@.take(i + 1);
                assert(next.drop_last() =~= self.entries@.take(i as int));
                assert(next.last() == e);
            }
            let limit: u128 = e.created_at as u128 + retention as u128;
            if best as u128 <= limit {
                kept.push(e);
            }
            i += 1;
        }
        assert(self.entries@.take(i as int) =~= self.entries@);
        self.entries = kept;
    }
}

} // verus!

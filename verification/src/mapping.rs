//! The address-mapping index: from a block's identifier on the external chain
//! to the stored block. It follows the notes of the mapping stage in their
//! order, at its own pace, and takes in only blocks of the canonical chain.
use crate::import::index_of;
use crate::import::known;
use crate::import::BlockImportChain;
use crate::import::ChainState;
use crate::import::Recorded;
use vstd::prelude::*;

verus! {

/// Whether the block of a note is stored and lies on the canonical chain.
pub open spec fn note_is_canonical(s: ChainState, note: Recorded) -> bool {
    known(s.blocks, note.id) && s.canonical(index_of(s.blocks, note.id))
}

/// The notes from place `from` up to place `to` whose blocks are canonical, in
/// their order.
pub open spec fn canonical_notes(s: ChainState, from: int, to: int) -> Seq<Recorded>
    decreases to - from,
{
    if to <= from {
        Seq::empty()
    } else if note_is_canonical(s, s.recorded[to - 1]) {
        canonical_notes(s, from, to - 1).push(s.recorded[to - 1])
    } else {
        canonical_notes(s, from, to - 1)
    }
}

/// The last of the first `n` entries that has this external identifier.
pub open spec fn last_indexed(entries: Seq<Recorded>, external: u64, n: int) -> Option<Recorded>
    decreases n,
{
    if n <= 0 {
        None
    } else if entries[n - 1].external == external {
        Some(entries[n - 1])
    } else {
        last_indexed(entries, external, n - 1)
    }
}

/// The index and the place up to which it has read the notes.
#[derive(Debug)]
pub struct AddressMappingIndex {
    entries: Vec<Recorded>,
    cursor: usize,
}

impl AddressMappingIndex {
    /// The indexed blocks, in the order in which they were taken in.
    pub closed spec fn entries(&self) -> Seq<Recorded> {
        self.entries@
    }

    /// How many notes the index has read.
    pub closed spec fn cursor(&self) -> int {
        self.cursor as int
    }

    /// An index that has read nothing.
    pub fn new() -> (index: AddressMappingIndex)
        ensures
            index.entries() == Seq::<Recorded>::empty(),
            index.cursor() == 0,
    {
        AddressMappingIndex { entries: Vec::new(), cursor: 0 }
    }

    /// How many blocks are indexed.
    pub fn len(&self) -> (n: usize)
        ensures
            n == self.entries().len(),
    {
        self.entries.len()
    }

    /// Reads the notes that have come since the last poll, in their order, and
    /// takes in those whose blocks are canonical now. Says how many it took in.
    pub fn poll(&mut self, chain: &BlockImportChain) -> (taken: usize)
        requires
            chain@.wf(),
        ensures
            final(self).entries() == old(self).entries() + canonical_notes(
                chain@,
                old(self).cursor(),
                chain@.recorded.len() as int,
            ),
            final(self).cursor() == (if old(self).cursor() < chain@.recorded.len() {
                chain@.recorded.len() as int
            } else {
                old(self).cursor()
            }),
            taken == final(self).entries().len() - old(self).entries().len(),
    {
        let before = self.entries.len();
        let end = chain.recorded_count();
        assert(self.entries@ =~= old(self).entries@ + canonical_notes(
            chain@,
            old(self).cursor(),
            old(self).cursor(),
        ));
        while self.cursor < end
            invariant
                chain@.wf(),
                end == chain@.recorded.len(),
                old(self).cursor <= self.cursor,
                self.cursor <= end || self.cursor == old(self).cursor,
                self.entries@ == old(self).entries@ + canonical_notes(
                    chain@,
                    old(self).cursor(),
                    self.cursor(),
                ),
            decreases end - self.cursor,
        {
            let note = chain.recorded(self.cursor);
            if chain.is_canonical(note.id) {
                self.entries.push(note);
            }
            self.cursor += 1;
            assert(self.entries@ =~= old(self).entries@ + canonical_notes(
                chain@,
                old(self).cursor(),
                self.cursor(),
            ));
        }
        self.entries.len() - before
    }

    /// Drops the entries whose blocks have left the canonical chain since they
    /// were taken in, and keeps the others in their order.
    pub fn fix_up(&mut self, chain: &BlockImportChain)
        requires
            chain@.wf(),
        ensures
            final(self).entries() == old(self).entries().filter(
                |note: Recorded| note_is_canonical(chain@, note),
            ),
            final(self).cursor() == old(self).cursor(),
    {
        let ghost stays = |note: Recorded| note_is_canonical(chain@, note);
        let mut kept: Vec<Recorded> = Vec::new();
        let mut i: usize = 0;
        assert(self.entries@.take(0) =~= Seq::empty());
        proof {
            reveal(Seq::filter);
        }
        while i < self.entries.len()
            invariant
                *self == *old(self),
                chain@.wf(),
                i <= self.entries@.len(),
                stays == |note: Recorded| note_is_canonical(chain@, note),
                kept@ == self.entries@.take(i as int).filter(stays),
            decreases self.entries@.len() - i,
        {
            let note = self.entries[i];
            proof {
                reveal(Seq::filter);
                let next = self.entries@.take(i + 1);
                assert(next.drop_last() =~= self.entries@.take(i as int));
                assert(next.last() == note);
            }
            if chain.is_canonical(note.id) {
                kept.push(note);
            }
            i += 1;
        }
        assert(self.entries@.take(i as int) =~= self.entries@);
        self.entries = kept;
    }

    /// The block most lately indexed under this external identifier.
    pub fn lookup(&self, external: u64) -> (found: Option<Recorded>)
        ensures
            found == last_indexed(self.entries(), external, self.entries().len() as int),
    {
        let mut i: usize = self.entries.len();
        while i > 0
            invariant
                i <= self.entries@.len(),
                last_indexed(self.entries@, external, self.entries@.len() as int) == last_indexed(
                    self.entries@,
                    external,
                    i as int,
                ),
            decreases i,
        {
            if self.entries[i - 1].external == external {
                return Some(self.entries[i - 1]);
            }
            i -= 1;
        }
        None
    }
}

/// Every note that a poll takes in is of a stored block on the canonical
/// chain.
pub proof fn law_index_holds_canonical_blocks(s: ChainState, from: int, to: int, i: int)
    requires
        0 <= i < canonical_notes(s, from, to).len(),
    ensures
        note_is_canonical(s, canonical_notes(s, from, to)[i]),
    decreases to - from,
{
    if to > from {
        let rest = canonical_notes(s, from, to - 1);
        if i < rest.len() {
            law_index_holds_canonical_blocks(s, from, to - 1, i);
        }
    }
}

} // verus!

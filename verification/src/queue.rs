//! The import queue: the one entry to the pipeline. It checks a block before
//! the stages see it, and keeps the blocks that wait for their parent, up to a
//! limit.
use crate::import::known;
use crate::import::BlockId;
use crate::import::BlockImportChain;
use crate::import::ChainState;
use crate::import::DiscardReason;
use crate::import::ImportParams;
use crate::import::Verdict;
use vstd::prelude::*;

verus! {

/// The answer of the queue: a block without a slot digest whose parent is
/// stored is discarded before the stages see it; every other block gets the
/// verdict of the pipeline.
pub open spec fn queue_verdict(s: ChainState, p: ImportParams) -> Verdict {
    if !known(s.blocks, p.header.id) && known(s.blocks, p.header.parent) && p.header.claim is None {
        Verdict::Discard(DiscardReason::BadDigest)
    } else {
        s.verdict(p)
    }
}

/// The waiting blocks after one more has come: where they are more than
/// `max_pending`, the one that has waited longest leaves.
pub open spec fn after_wait(pending: Seq<ImportParams>, max_pending: int, p: ImportParams) -> Seq<
    ImportParams,
> {
    if pending.len() + 1 > max_pending {
        pending.push(p).subrange(1, pending.len() as int + 1)
    } else {
        pending.push(p)
    }
}

/// The blocks that wait for their parent, the one that has waited longest
/// first.
#[derive(Debug)]
pub struct ImportQueue {
    pending: Vec<ImportParams>,
    max_pending: usize,
}

impl ImportQueue {
    /// The waiting blocks, the one that has waited longest first.
    pub closed spec fn pending(&self) -> Seq<ImportParams> {
        self.pending@
    }

    /// The most blocks that may wait.
    pub closed spec fn max_pending(&self) -> int {
        self.max_pending as int
    }

    /// A queue in which nothing waits.
    pub fn new(max_pending: usize) -> (queue: ImportQueue)
        ensures
            queue.pending() == Seq::<ImportParams>::empty(),
            queue.max_pending() == max_pending,
    {
        ImportQueue { pending: Vec::new(), max_pending }
    }

    /// How many blocks wait.
    pub fn pending_count(&self) -> (n: usize)
        ensures
            n == self.pending().len(),
    {
        self.pending.len()
    }

    /// Hands a block to the pipeline. A block whose parent is missing waits in
    /// the queue for a later attempt.
    pub fn submit(&mut self, chain: &mut BlockImportChain, p: ImportParams) -> (verdict: Verdict)
        requires
            old(chain)@.wf(),
        ensures
            final(chain)@.wf(),
            verdict == queue_verdict(old(chain)@, p),
            final(chain)@ == (if verdict is Imported {
                old(chain)@.after(p)
            } else {
                old(chain)@
            }),
            final(self).max_pending() == old(self).max_pending(),
            final(self).pending() == (if verdict is Missing {
                after_wait(old(self).pending(), old(self).max_pending(), p)
            } else {
                old(self).pending()
            }),
    {
        match chain.check_block(&p.header) {
            Some(Verdict::Missing(parent)) => {
                self.pending.push(p);
                if self.pending.len() > self.max_pending {
                    self.pending.remove(0);
                }
                assert(self.pending@ =~= after_wait(old(self).pending@, old(self).max_pending(), p));
                return Verdict::Missing(parent);
            },
            Some(early) => {
                return early;
            },
            None => {},
        }
        if p.header.claim.is_none() {
            return Verdict::Discard(DiscardReason::BadDigest);
        }
        chain.import_block(p)
    }

    /// Takes out the blocks that wait for the block `parent`, in the order in
    /// which they came, to be submitted again.
    pub fn take_ready(&mut self, parent: BlockId) -> (ready: Vec<ImportParams>)
        ensures
            ready@ == old(self).pending().filter(|p: ImportParams| p.header.parent == parent),
            final(self).pending() == old(self).pending().filter(
                |p: ImportParams| p.header.parent != parent,
            ),
            final(self).max_pending() == old(self).max_pending(),
    {
        let ghost waits = |p: ImportParams| p.header.parent == parent;
        let ghost stays = |p: ImportParams| p.header.parent != parent;
        let mut ready: Vec<ImportParams> = Vec::new();
        let mut rest: Vec<ImportParams> = Vec::new();
        let mut i: usize = 0;
        assert(self.pending@.take(0) =~= Seq::empty());
        proof {
            reveal(Seq::filter);
        }
        while i < self.pending.len()
            invariant
                *self == *old(self),
                i <= self.pending@.len(),
                waits == |p: ImportParams| p.header.parent == parent,
                stays == |p: ImportParams| p.header.parent != parent,
                ready@ == self.pending@.take(i as int).filter(waits),
                rest@ == self.pending@.take(i as int).filter(stays),
            decreases self.pending@.len() - i,
        {
            let p = self.pending[i];
            proof {
                reveal(Seq::filter);
                let next = self.pending@.take(i + 1);
                assert(next.drop_last() =~= self.pending@.take(i as int));
                assert(next.last() == p);
            }
            if p.header.parent == parent {
                ready.push(p);
            } else {
                rest.push(p);
            }
            i += 1;
        }
        assert(self.pending@.take(i as int) =~= self.pending@);
        self.pending = rest;
        ready
    }
}

} // verus!

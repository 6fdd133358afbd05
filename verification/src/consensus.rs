//! The two consensus engines, as far as they decide: the slot engine, which
//! claims the slots that the local authority leads, and the finality engine,
//! which counts the precommits of a round.
use crate::import::slot_leader;
use crate::import::slot_owner;
use crate::import::BlockId;
use crate::import::BlockImportChain;
use crate::import::ChainState;
use crate::import::Epoch;
use crate::import::Justification;
use crate::import::SlotClaim;
use vstd::prelude::*;

verus! {

/// Why a slot is not claimed.
#[derive(Clone, Copy, Debug, PartialEq, Eq)]
pub enum Rejected {
    /// Another authority leads the slot.
    NotSlotLeader,
    /// The slot was claimed before.
    SlotAlreadyClaimed,
}

/// What a claim of `slot` yields for the authority at place `index` that has
/// claimed the slots `used`.
pub open spec fn claim_outcome(index: u32, used: Seq<u64>, epoch: Epoch, slot: u64) -> Result<
    SlotClaim,
    Rejected,
> {
    if slot_owner(epoch, slot) != index {
        Err(Rejected::NotSlotLeader)
    } else if used.contains(slot) {
        Err(Rejected::SlotAlreadyClaimed)
    } else {
        Ok(SlotClaim { slot, authority_index: index })
    }
}

/// The claimed slots after that claim.
pub open spec fn used_after(index: u32, used: Seq<u64>, epoch: Epoch, slot: u64) -> Seq<u64> {
    if claim_outcome(index, used, epoch, slot) is Ok {
        used.push(slot)
    } else {
        used
    }
}

/// Whether authoring pauses: the head is more than `max_lag` blocks above the
/// finalized block.
pub open spec fn lagging(best_number: u64, finalized_number: u64, max_lag: u64) -> bool {
    best_number - finalized_number > max_lag
}

/// Whether authoring pauses because finality lags behind.
pub fn should_backoff(best_number: u64, finalized_number: u64, max_lag: u64) -> (pause: bool)
    ensures
        pause == lagging(best_number, finalized_number, max_lag),
{
    best_number > finalized_number && best_number - finalized_number > max_lag
}

/// The proposer side of the slot engine for one local authority.
#[derive(Debug)]
pub struct SlotWorker {
    authority_index: u32,
    claimed: Vec<u64>,
}

impl SlotWorker {
    /// The place of the local authority in the authority set.
    pub closed spec fn index(&self) -> u32 {
        self.authority_index
    }

    /// The slots claimed so far, in the order of the claims.
    pub closed spec fn used(&self) -> Seq<u64> {
        self.claimed@
    }

    /// A worker for the authority at place `authority_index` that has claimed
    /// nothing.
    pub fn new(authority_index: u32) -> (worker: SlotWorker)
        ensures
            worker.index() == authority_index,
            worker.used() == Seq::<u64>::empty(),
    {
        SlotWorker { authority_index, claimed: Vec::new() }
    }

    fn has_claimed(&self, slot: u64) -> (yes: bool)
        ensures
            yes == self.used().contains(slot),
    {
        let mut i: usize = 0;
        while i < self.claimed.len()
            invariant
                i <= self.claimed@.len(),
                forall|j: int| 0 <= j < i ==> self.claimed@[j] != slot,
            decreases self.claimed@.len() - i,
        {
            if self.claimed[i] == slot {
                return true;
            }
            i += 1;
        }
        false
    }

    /// Claims a slot under an epoch. The claim is granted if the local
    /// authority leads the slot and has not claimed it before.
    pub fn claim_slot(&mut self, epoch: &Epoch, slot: u64) -> (claim: Result<SlotClaim, Rejected>)
        requires
            epoch.authorities > 0,
        ensures
            claim == claim_outcome(old(self).index(), old(self).used(), *epoch, slot),
            final(self).used() == used_after(old(self).index(), old(self).used(), *epoch, slot),
            final(self).index() == old(self).index(),
    {
        if slot_leader(epoch, slot) != self.authority_index {
            return Err(Rejected::NotSlotLeader);
        }
        if self.has_claimed(slot) {
            return Err(Rejected::SlotAlreadyClaimed);
        }
        self.claimed.push(slot);
        Ok(SlotClaim { slot, authority_index: self.authority_index })
    }
}

/// What the slot engine does at a slot tick.
#[derive(Clone, Copy, Debug, PartialEq, Eq)]
pub enum SlotAction {
    /// Ask for a proposal, seal it with this claim and submit it.
    Propose(SlotClaim),
    /// Let the slot pass: finality lags too far behind the head.
    Backoff,
    /// Let the slot pass: it is not claimed.
    Skip(Rejected),
}

/// What a slot tick yields: authoring pauses while finality lags, and
/// otherwise follows the claim of the slot.
pub open spec fn tick_outcome(
    index: u32,
    used: Seq<u64>,
    epoch: Epoch,
    slot: u64,
    best_number: u64,
    finalized_number: u64,
    max_lag: u64,
) -> SlotAction {
    if lagging(best_number, finalized_number, max_lag) {
        SlotAction::Backoff
    } else {
        match claim_outcome(index, used, epoch, slot) {
            Ok(claim) => SlotAction::Propose(claim),
            Err(why) => SlotAction::Skip(why),
        }
    }
}

impl SlotWorker {
    /// Decides what to do at a slot tick. A slot that passes while authoring
    /// is paused is not claimed.
    pub fn on_slot(
        &mut self,
        epoch: &Epoch,
        slot: u64,
        best_number: u64,
        finalized_number: u64,
        max_lag: u64,
    ) -> (action: SlotAction)
        requires
            epoch.authorities > 0,
        ensures
            action == tick_outcome(
                old(self).index(),
                old(self).used(),
                *epoch,
                slot,
                best_number,
                finalized_number,
                max_lag,
            ),
            final(self).index() == old(self).index(),
            final(self).used() == (if action is Propose {
                old(self).used().push(slot)
            } else {
                old(self).used()
            }),
    {
        if should_backoff(best_number, finalized_number, max_lag) {
            return SlotAction::Backoff;
        }
        match self.claim_slot(epoch, slot) {
            Ok(claim) => SlotAction::Propose(claim),
            Err(why) => SlotAction::Skip(why),
        }
    }
}

/// Under a fixed epoch, a slot that the local authority does not lead is never
/// granted, whatever was claimed before; a slot that it leads and has not
/// claimed is granted, and is refused from then on.
pub proof fn law_slot_is_claimed_once(index: u32, used: Seq<u64>, epoch: Epoch, slot: u64)
    requires
        epoch.authorities > 0,
    ensures
        slot_owner(epoch, slot) != index ==> claim_outcome(index, used, epoch, slot) == Err::<
            SlotClaim,
            Rejected,
        >(Rejected::NotSlotLeader),
        slot_owner(epoch, slot) == index && !used.contains(slot) ==> {
            &&& claim_outcome(index, used, epoch, slot) == Ok::<SlotClaim, Rejected>(
                SlotClaim { slot, authority_index: index },
            )
            &&& claim_outcome(index, used_after(index, used, epoch, slot), epoch, slot) == Err::<
                SlotClaim,
                Rejected,
            >(Rejected::SlotAlreadyClaimed)
        },
{
    if slot_owner(epoch, slot) == index && !used.contains(slot) {
        let after = used_after(index, used, epoch, slot);
        assert(after[used.len() as int] == slot);
    }
}

/// Exactly one authority leads a slot, and it is one of the epoch's set.
pub proof fn law_one_leader_per_slot(epoch: Epoch, slot: u64)
    requires
        epoch.authorities > 0,
    ensures
        0 <= slot_owner(epoch, slot) < epoch.authorities,
{
}

/// Why a precommit is not counted.
#[derive(Clone, Copy, Debug, PartialEq, Eq)]
pub enum VoteError {
    /// No authority has this place in the set.
    UnknownVoter,
    /// The authority has precommitted to another block in this round.
    Equivocation,
}

/// The sum of the first `n` weights.
pub open spec fn total_of(weights: Seq<u64>, n: int) -> int
    decreases n,
{
    if n <= 0 {
        0
    } else {
        total_of(weights, n - 1) + weights[n - 1]
    }
}

/// The weight, among the first `n` authorities, of those that precommitted to
/// `target` or to a stored block that descends from it.
pub open spec fn weight_of(
    s: ChainState,
    weights: Seq<u64>,
    precommits: Seq<Option<BlockId>>,
    target: BlockId,
    n: int,
) -> int
    decreases n,
{
    if n <= 0 {
        0
    } else {
        weight_of(s, weights, precommits, target, n - 1) + if precommits[n - 1] is Some && s.descends(
            precommits[n - 1]->Some_0,
            target,
        ) {
            weights[n - 1] as int
        } else {
            0
        }
    }
}

/// What a precommit of the authority at place `voter` yields.
pub open spec fn vote_outcome(precommits: Seq<Option<BlockId>>, voter: int, target: BlockId) -> Result<
    (),
    VoteError,
> {
    if !(0 <= voter < precommits.len()) {
        Err(VoteError::UnknownVoter)
    } else if precommits[voter] is Some && precommits[voter] != Some(target) {
        Err(VoteError::Equivocation)
    } else {
        Ok(())
    }
}

/// One round of the finality engine: the weight of every authority and the
/// block, if any, that each has precommitted to.
#[derive(Debug)]
pub struct Round {
    number: u64,
    weights: Vec<u64>,
    precommits: Vec<Option<BlockId>>,
}

impl Round {
    /// The number of the round.
    pub closed spec fn number(&self) -> u64 {
        self.number
    }

    /// The voting weight of each authority.
    pub closed spec fn weights(&self) -> Seq<u64> {
        self.weights@
    }

    /// The precommit of each authority.
    pub closed spec fn precommits(&self) -> Seq<Option<BlockId>> {
        self.precommits@
    }

    /// The total voting weight.
    pub open spec fn total(&self) -> int {
        total_of(self.weights(), self.weights().len() as int)
    }

    /// Every authority has a place for its precommit, and the total weight is
    /// a `u64`.
    pub open spec fn wf(&self) -> bool {
        self.precommits().len() == self.weights().len() && self.total() <= u64::MAX
    }

    /// A round in which nobody has voted, unless the weights add up to more
    /// than a `u64` holds.
    pub fn new(number: u64, weights: Vec<u64>) -> (round: Option<Round>)
        ensures
            round is Some == (total_of(weights@, weights@.len() as int) <= u64::MAX),
            round is Some ==> {
                let r = round->Some_0;
                &&& r.wf()
                &&& r.number() == number
                &&& r.weights() == weights@
                &&& forall|i: int| 0 <= i < r.precommits().len() ==> r.precommits()[i] is None
            },
    {
        let mut precommits: Vec<Option<BlockId>> = Vec::new();
        let mut sum: u64 = 0;
        let mut i: usize = 0;
        while i < weights.len()
            invariant
                i <= weights@.len(),
                precommits@.len() == i,
                forall|j: int| 0 <= j < i ==> precommits@[j] is None,
                sum == total_of(weights@, i as int),
            decreases weights@.len() - i,
        {
            match sum.checked_add(weights[i]) {
                Some(next) => {
                    sum = next;
                },
                None => {
                    proof {
                        lemma_total_grows(weights@, i as int + 1, weights@.len() as int);
                    }
                    return None;
                },
            }
            precommits.push(None);
            i += 1;
        }
        Some(Round { number, weights, precommits })
    }

    /// Counts the precommit of the authority at place `voter` for `target`. A
    /// second precommit for the same block changes nothing; one for another
    /// block is an equivocation and is not counted.
    pub fn precommit(&mut self, voter: usize, target: BlockId) -> (counted: Result<(), VoteError>)
        requires
            old(self).wf(),
        ensures
            final(self).wf(),
            counted == vote_outcome(old(self).precommits(), voter as int, target),
            final(self).number() == old(self).number(),
            final(self).weights() == old(self).weights(),
            final(self).precommits() == (if counted is Ok {
                old(self).precommits().update(voter as int, Some(target))
            } else {
                old(self).precommits()
            }),
    {
        if voter >= self.precommits.len() {
            return Err(VoteError::UnknownVoter);
        }
        match self.precommits[voter] {
            Some(before) => {
                if before != target {
                    return Err(VoteError::Equivocation);
                }
                assert(self.precommits@ =~= old(self).precommits@.update(voter as int, Some(target)));
            },
            None => {
                self.precommits.set(voter, Some(target));
            },
        }
        Ok(())
    }

    /// The weight of the precommits for `target` and for its descendants in
    /// the store of `chain`.
    pub fn weight_for(&self, chain: &BlockImportChain, target: BlockId) -> (weight: u64)
        requires
            self.wf(),
            chain@.wf(),
        ensures
            weight == weight_of(
                chain@,
                self.weights(),
                self.precommits(),
                target,
                self.weights().len() as int,
            ),
    {
        let mut sum: u64 = 0;
        let mut i: usize = 0;
        while i < self.weights.len()
            invariant
                self.wf(),
                chain@.wf(),
                i <= self.weights@.len(),
                sum == weight_of(chain@, self.weights@, self.precommits@, target, i as int),
            decreases self.weights@.len() - i,
        {
            proof {
                lemma_weight_within_total(
                    chain@,
                    self.weights@,
                    self.precommits@,
                    target,
                    i as int + 1,
                );
                lemma_total_grows(self.weights@, i as int + 1, self.weights@.len() as int);
            }
            match self.precommits[i] {
                Some(voted) => {
                    if chain.descends(voted, target) {
                        sum = sum + self.weights[i];
                    }
                },
                None => {},
            }
            i += 1;
        }
        sum
    }

    /// The justification of `target`, once more than two thirds of the voting
    /// weight have precommitted to it or to a descendant of it. With it the
    /// block, and so every ancestor of it, can be finalized.
    pub fn justification(&self, chain: &BlockImportChain, target: BlockId) -> (proof_of: Option<
        Justification,
    >)
        requires
            self.wf(),
            chain@.wf(),
        ensures
            ({
                let weight = weight_of(
                    chain@,
                    self.weights(),
                    self.precommits(),
                    target,
                    self.weights().len() as int,
                );
                proof_of == (if 3 * weight > 2 * self.total() {
                    Some(Justification { round: self.number(), target, weight: weight as u64 })
                } else {
                    None
                })
            }),
    {
        let weight = self.weight_for(chain, target);
        let total = self.total_weight();
        let have: u128 = 3 * (weight as u128);
        let need: u128 = 2 * (total as u128);
        if have > need {
            Some(Justification { round: self.number, target, weight })
        } else {
            None
        }
    }

    /// The total voting weight.
    pub fn total_weight(&self) -> (total: u64)
        requires
            self.wf(),
        ensures
            total == self.total(),
    {
        let mut sum: u64 = 0;
        let mut i: usize = 0;
        while i < self.weights.len()
            invariant
                self.wf(),
                i <= self.weights@.len(),
                sum == total_of(self.weights@, i as int),
            decreases self.weights@.len() - i,
        {
            proof {
                lemma_total_grows(self.weights@, i as int + 1, self.weights@.len() as int);
            }
            sum = sum + self.weights[i];
            i += 1;
        }
        sum
    }
}

/// The sum of more weights is no less.
pub proof fn lemma_total_grows(weights: Seq<u64>, n: int, m: int)
    requires
        0 <= n <= m,
    ensures
        total_of(weights, n) <= total_of(weights, m),
    decreases m - n,
{
    if n < m {
        lemma_total_grows(weights, n, m - 1);
    }
}

/// The precommits for one block weigh no more than all authorities together.
pub proof fn lemma_weight_within_total(
    s: ChainState,
    weights: Seq<u64>,
    precommits: Seq<Option<BlockId>>,
    target: BlockId,
    n: int,
)
    requires
        0 <= n,
    ensures
        0 <= weight_of(s, weights, precommits, target, n) <= total_of(weights, n),
    decreases n,
{
    if n > 0 {
        lemma_weight_within_total(s, weights, precommits, target, n - 1);
    }
}

} // verus!

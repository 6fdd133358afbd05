use deeper_node::import::{
    BlockImportChain, BlockOrigin, DiscardReason, Epoch, ErrorClass, FinalityError,
    ForkChoiceStrategy, Header, ImportParams, ImportedAux, Justification, SlotClaim, Stage, Verdict,
};
use deeper_node::queue::ImportQueue;

const GENESIS: u64 = 100;

fn chain_behind(stages: Vec<Stage>) -> BlockImportChain {
    BlockImportChain::new(stages, GENESIS, 3, 0, 5, Epoch { authorities: 3, randomness: 0 })
}

fn chain() -> BlockImportChain {
    chain_behind(vec![Stage::Mapping, Stage::Finality, Stage::SlotVerification])
}

/// A block of the first epoch, claimed by the leader of its slot.
fn block(id: u64, parent: u64, number: u64, slot: u64) -> ImportParams {
    ImportParams {
        header: Header {
            id,
            parent,
            number,
            external: 1000 + id,
            claim: Some(SlotClaim { slot, authority_index: (slot % 3) as u32 }),
            next_authorities: None,
        },
        origin: BlockOrigin::NetworkPeer,
        justification: None,
        fork_choice: ForkChoiceStrategy::LongestChain,
    }
}

fn justified(mut p: ImportParams, weight: u64) -> ImportParams {
    p.justification = Some(Justification { round: 1, target: p.header.id, weight });
    p
}

fn imported(is_new_best: bool, finalized: bool) -> Verdict {
    Verdict::Imported(ImportedAux { is_new_best, finalized })
}

#[test]
fn importing_twice_is_already_in_chain() {
    let mut chain = chain();
    let b = block(1, GENESIS, 1, 1);
    assert_eq!(chain.import_block(b), imported(true, false));
    assert_eq!(chain.block_count(), 2);
    assert_eq!(chain.recorded_count(), 1);
    assert_eq!(chain.import_block(b), Verdict::AlreadyInChain);
    assert_eq!(chain.block_count(), 2);
    assert_eq!(chain.recorded_count(), 1);
    assert_eq!(chain.epoch_count(), 2);
    assert_eq!(chain.best().id, 1);
}

#[test]
fn genesis_is_already_in_chain() {
    let mut chain = chain();
    assert_eq!(chain.import_block(block(GENESIS, 5, 0, 1)), Verdict::AlreadyInChain);
    assert!(chain.is_known(GENESIS));
    assert!(chain.is_canonical(GENESIS));
    assert_eq!(chain.finalized().id, GENESIS);
    assert_eq!(chain.best().number, 0);
}

#[test]
fn orphan_is_missing_until_its_parent_is_stored() {
    let mut chain = chain();
    let parent = block(1, GENESIS, 1, 1);
    let child = block(2, 1, 2, 2);
    assert_eq!(chain.import_block(child), Verdict::Missing(1));
    assert_eq!(chain.block_count(), 1);
    assert_eq!(chain.import_block(parent), imported(true, false));
    assert_eq!(chain.import_block(child), imported(true, false));
    assert_eq!(chain.block_count(), 3);
    assert_eq!(chain.best().id, 2);
}

#[test]
fn check_block_tells_known_and_orphaned() {
    let mut chain = chain();
    let b = block(1, GENESIS, 1, 1);
    assert_eq!(chain.check_block(&b.header), None);
    assert_eq!(chain.check_block(&block(2, 1, 2, 2).header), Some(Verdict::Missing(1)));
    chain.import_block(b);
    assert_eq!(chain.check_block(&b.header), Some(Verdict::AlreadyInChain));
    assert_eq!(chain.check_block(&block(2, 1, 2, 2).header), None);
}

#[test]
fn nothing_is_stored_against_a_finalized_block() {
    let mut chain = chain();
    assert_eq!(chain.import_block(block(11, GENESIS, 1, 2)), imported(true, false));
    assert_eq!(chain.import_block(block(1, GENESIS, 1, 1)), imported(false, false));
    assert_eq!(chain.import_block(justified(block(2, 1, 2, 2), 3)), imported(true, true));
    assert_eq!(chain.finalized().id, 2);
    // a sibling of a finalized block, at a finalized height
    assert_eq!(
        chain.import_block(block(21, GENESIS, 1, 3)),
        Verdict::Discard(DiscardReason::ConflictsWithFinalized)
    );
    // a child of a block on another fork, at the finalized height
    assert_eq!(
        chain.import_block(block(12, 11, 2, 3)),
        Verdict::Discard(DiscardReason::ConflictsWithFinalized)
    );
    // a sibling of the finalized block itself
    assert_eq!(
        chain.import_block(block(22, 1, 2, 3)),
        Verdict::Discard(DiscardReason::ConflictsWithFinalized)
    );
    assert_eq!(chain.block_count(), 4);
    // a child of the finalized block
    assert_eq!(chain.import_block(block(3, 2, 3, 3)), imported(true, false));
    assert_eq!(chain.block_count(), 5);
    assert_eq!(chain.finalized().id, 2);
}

#[test]
fn each_objection_has_its_reason() {
    let mut chain = chain();
    assert_eq!(
        chain.import_block(block(1, GENESIS, 2, 1)),
        Verdict::Discard(DiscardReason::BadNumber)
    );
    assert_eq!(
        chain.import_block(block(1, GENESIS, 0, 1)),
        Verdict::Discard(DiscardReason::BadNumber)
    );
    let mut bare = block(1, GENESIS, 1, 1);
    bare.header.claim = None;
    assert_eq!(chain.import_block(bare), Verdict::Discard(DiscardReason::BadDigest));
    assert_eq!(
        chain.import_block(block(1, GENESIS, 1, 5)),
        Verdict::Discard(DiscardReason::EpochDataUnavailable)
    );
    let mut stolen = block(1, GENESIS, 1, 1);
    stolen.header.claim = Some(SlotClaim { slot: 1, authority_index: 0 });
    assert_eq!(chain.import_block(stolen), Verdict::Discard(DiscardReason::NotSlotLeader));
    assert_eq!(
        chain.import_block(justified(block(1, GENESIS, 1, 1), 2)),
        Verdict::Discard(DiscardReason::InvalidJustification)
    );
    let mut other = justified(block(1, GENESIS, 1, 1), 3);
    other.justification = Some(Justification { round: 1, target: 2, weight: 3 });
    assert_eq!(chain.import_block(other), Verdict::Discard(DiscardReason::InvalidJustification));
    assert_eq!(chain.block_count(), 1);
    assert_eq!(chain.recorded_count(), 0);
    assert_eq!(chain.epoch_count(), 1);
}

#[test]
fn outer_stage_objects_first() {
    let mut chain = chain();
    let mut bare = justified(block(1, GENESIS, 1, 1), 1);
    bare.header.claim = None;
    assert_eq!(chain.import_block(bare), Verdict::Discard(DiscardReason::InvalidJustification));
    let mut inner_first = chain_behind(vec![Stage::SlotVerification, Stage::Finality]);
    assert_eq!(inner_first.import_block(bare), Verdict::Discard(DiscardReason::BadDigest));
}

#[test]
fn stages_that_are_absent_do_nothing() {
    let mut chain = chain_behind(vec![]);
    let mut bare = justified(block(1, GENESIS, 1, 77), 0);
    bare.header.claim = None;
    assert_eq!(chain.import_block(bare), imported(true, false));
    assert_eq!(chain.recorded_count(), 0);
    assert_eq!(chain.epoch_count(), 1);
    assert_eq!(chain.finalized().id, GENESIS);
}

#[test]
fn errors_have_their_class() {
    assert_eq!(Verdict::Missing(1).class(), Some(ErrorClass::Transient));
    assert_eq!(
        Verdict::Discard(DiscardReason::EpochDataUnavailable).class(),
        Some(ErrorClass::Transient)
    );
    assert_eq!(Verdict::Discard(DiscardReason::BadDigest).class(), Some(ErrorClass::Rejected));
    assert_eq!(Verdict::Discard(DiscardReason::BadNumber).class(), Some(ErrorClass::Rejected));
    assert_eq!(Verdict::Discard(DiscardReason::NotSlotLeader).class(), Some(ErrorClass::Rejected));
    assert_eq!(
        Verdict::Discard(DiscardReason::ConflictsWithFinalized).class(),
        Some(ErrorClass::Rejected)
    );
    assert_eq!(
        Verdict::Discard(DiscardReason::InvalidJustification).class(),
        Some(ErrorClass::ProtocolViolation)
    );
    assert_eq!(Verdict::AlreadyInChain.class(), None);
    assert_eq!(imported(true, true).class(), None);
    assert_eq!(DiscardReason::BadDigest.class(), ErrorClass::Rejected);
}

#[test]
fn fork_choice_picks_the_head() {
    let mut chain = chain();
    assert_eq!(chain.import_block(block(1, GENESIS, 1, 1)), imported(true, false));
    assert_eq!(chain.import_block(block(11, GENESIS, 1, 2)), imported(false, false));
    assert_eq!(chain.best().id, 1);
    assert!(chain.is_canonical(1));
    assert!(!chain.is_canonical(11));
    assert!(!chain.is_canonical(999));
    let mut forced = block(12, 11, 2, 3);
    forced.fork_choice = ForkChoiceStrategy::Custom(false);
    assert_eq!(chain.import_block(forced), imported(false, false));
    assert_eq!(chain.best().id, 1);
    let mut low = block(13, GENESIS, 1, 4);
    low.fork_choice = ForkChoiceStrategy::Custom(true);
    assert_eq!(chain.import_block(low), imported(true, false));
    assert_eq!(chain.best().id, 13);
    assert!(chain.is_canonical(13));
    assert!(!chain.is_canonical(1));
    assert!(chain.is_canonical(GENESIS));
}

#[test]
fn block_in_the_last_epoch_opens_the_next() {
    let mut chain = chain();
    assert_eq!(chain.epoch_at(4), Some(Epoch { authorities: 3, randomness: 0 }));
    assert_eq!(chain.epoch_at(5), None);
    assert_eq!(chain.import_block(block(1, GENESIS, 1, 1)), imported(true, false));
    assert_eq!(chain.epoch_count(), 2);
    assert_eq!(chain.epoch_at(5), Some(Epoch { authorities: 3, randomness: 1 }));
    assert_eq!(chain.epoch_at(10), None);
    // a second block of the first epoch opens nothing
    assert_eq!(chain.import_block(block(2, 1, 2, 2)), imported(true, false));
    assert_eq!(chain.epoch_count(), 2);
    // slot 7 of the second epoch is led by (1 % 3 + 7 % 3) % 3 = 2
    let mut next = block(3, 2, 3, 7);
    next.header.claim = Some(SlotClaim { slot: 7, authority_index: 1 });
    assert_eq!(chain.import_block(next), Verdict::Discard(DiscardReason::NotSlotLeader));
    next.header.claim = Some(SlotClaim { slot: 7, authority_index: 2 });
    assert_eq!(chain.import_block(next), imported(true, false));
    assert_eq!(chain.epoch_count(), 3);
    assert_eq!(chain.epoch_at(10), Some(Epoch { authorities: 3, randomness: 3 }));
}

#[test]
fn slots_before_the_first_epoch_have_none() {
    let mut chain =
        BlockImportChain::new(vec![Stage::SlotVerification], GENESIS, 3, 10, 5, Epoch { authorities: 2, randomness: 1 });
    assert_eq!(chain.epoch_at(9), None);
    assert_eq!(chain.import_block(block(1, GENESIS, 1, 9)), Verdict::Discard(DiscardReason::EpochDataUnavailable));
    let mut first = block(1, GENESIS, 1, 10);
    first.header.claim = Some(SlotClaim { slot: 10, authority_index: 1 });
    assert_eq!(chain.import_block(first), imported(true, false));
}

#[test]
fn justification_moves_finality_forward_only() {
    let mut chain = chain();
    chain.import_block(block(1, GENESIS, 1, 1));
    chain.import_block(block(2, 1, 2, 2));
    chain.import_block(block(3, 2, 3, 3));
    let j = |target: u64, weight: u64| Justification { round: 1, target, weight };
    assert_eq!(chain.import_justification(j(9, 3)), Err(FinalityError::UnknownBlock));
    assert!(!chain.voter_halted());
    assert_eq!(chain.import_justification(j(2, 3)), Ok(()));
    assert_eq!(chain.finalized().id, 2);
    // a block on the finalized chain stays finalized
    assert_eq!(chain.import_justification(j(1, 3)), Ok(()));
    assert_eq!(chain.finalized().id, 2);
    assert_eq!(chain.import_justification(j(3, 3)), Ok(()));
    assert_eq!(chain.finalized().id, 3);
    assert!(!chain.voter_halted());
}

#[test]
fn weak_justification_halts_the_voter() {
    let mut chain = chain();
    chain.import_block(block(1, GENESIS, 1, 1));
    assert_eq!(
        chain.import_justification(Justification { round: 1, target: 1, weight: 2 }),
        Err(FinalityError::InvalidJustification)
    );
    assert!(chain.voter_halted());
    assert_eq!(chain.finalized().id, GENESIS);
}

#[test]
fn conflicting_justification_halts_finality_but_not_import() {
    let mut chain = chain();
    let j = |target: u64| Justification { round: 1, target, weight: 3 };
    assert_eq!(chain.import_block(block(1, GENESIS, 1, 1)), imported(true, false));
    assert_eq!(chain.import_block(block(11, GENESIS, 1, 2)), imported(false, false));
    assert_eq!(chain.import_justification(j(1)), Ok(()));
    assert_eq!(chain.finalized().id, 1);
    assert_eq!(chain.import_justification(j(11)), Err(FinalityError::ConflictingChain));
    assert!(chain.voter_halted());
    assert_eq!(chain.finalized().id, 1);
    // blocks that descend from the finalized block are still stored
    assert_eq!(chain.import_block(block(2, 1, 2, 3)), imported(true, false));
    assert_eq!(chain.import_block(justified(block(3, 2, 3, 4), 3)), imported(true, false));
    // and nothing is finalized any more
    assert_eq!(chain.import_justification(j(2)), Err(FinalityError::Halted));
    assert_eq!(chain.finalized().id, 1);
}

#[test]
fn queue_keeps_orphans_up_to_its_limit() {
    let mut chain = chain();
    let mut queue = ImportQueue::new(2);
    assert_eq!(queue.submit(&mut chain, block(3, 2, 3, 3)), Verdict::Missing(2));
    assert_eq!(queue.submit(&mut chain, block(2, 1, 2, 2)), Verdict::Missing(1));
    assert_eq!(queue.pending_count(), 2);
    assert_eq!(queue.submit(&mut chain, block(12, 1, 2, 3)), Verdict::Missing(1));
    assert_eq!(queue.pending_count(), 2);
    // the block that waited longest has left
    assert_eq!(queue.take_ready(2), vec![]);
    assert_eq!(queue.submit(&mut chain, block(1, GENESIS, 1, 1)), imported(true, false));
    let ready = queue.take_ready(1);
    assert_eq!(ready, vec![block(2, 1, 2, 2), block(12, 1, 2, 3)]);
    assert_eq!(queue.pending_count(), 0);
    for p in ready {
        assert!(matches!(queue.submit(&mut chain, p), Verdict::Imported(_)));
    }
    assert_eq!(chain.block_count(), 4);
    assert_eq!(queue.submit(&mut chain, block(1, GENESIS, 1, 1)), Verdict::AlreadyInChain);
}

#[test]
fn queue_checks_the_digest_before_the_stages() {
    let mut chain = chain_behind(vec![Stage::Mapping]);
    let mut queue = ImportQueue::new(0);
    let mut bare = block(1, GENESIS, 1, 1);
    bare.header.claim = None;
    assert_eq!(queue.submit(&mut chain, bare), Verdict::Discard(DiscardReason::BadDigest));
    assert_eq!(chain.block_count(), 1);
    let mut orphan = block(5, 4, 5, 1);
    orphan.header.claim = None;
    assert_eq!(queue.submit(&mut chain, orphan), Verdict::Missing(4));
    assert_eq!(queue.pending_count(), 0);
    assert_eq!(queue.submit(&mut chain, block(1, GENESIS, 1, 1)), imported(true, false));
}

#[test]
fn descent_follows_the_parents() {
    let mut chain = chain();
    chain.import_block(block(1, GENESIS, 1, 1));
    chain.import_block(block(2, 1, 2, 2));
    chain.import_block(block(11, GENESIS, 1, 2));
    assert!(chain.descends(2, 1));
    assert!(chain.descends(2, GENESIS));
    assert!(chain.descends(2, 2));
    assert!(!chain.descends(1, 2));
    assert!(!chain.descends(2, 11));
    assert!(!chain.descends(11, 1));
    assert!(!chain.descends(2, 999));
    assert!(!chain.descends(999, GENESIS));
}

#[test]
fn reasons_are_told_apart() {
    let all = [
        DiscardReason::BadNumber,
        DiscardReason::BadDigest,
        DiscardReason::EpochDataUnavailable,
        DiscardReason::NotSlotLeader,
        DiscardReason::ConflictsWithFinalized,
        DiscardReason::InvalidJustification,
    ];
    for (i, a) in all.iter().enumerate() {
        assert!(!a.reason().is_empty());
        for b in all.iter().skip(i + 1) {
            assert_ne!(a.reason(), b.reason());
        }
    }
    assert_eq!(DiscardReason::BadDigest.reason(), "no slot digest");
    assert_eq!(DiscardReason::InvalidJustification.reason(), "invalid justification");
}

#[test]
fn announced_authorities_lead_the_next_epoch() {
    let mut chain = chain();
    let mut first = block(1, GENESIS, 1, 1);
    first.header.next_authorities = Some(5);
    assert_eq!(chain.import_block(first), imported(true, false));
    assert_eq!(chain.epoch_at(5), Some(Epoch { authorities: 5, randomness: 1 }));
    // slot 9 of the second epoch is led by (1 % 5 + 9 % 5) % 5 = 0
    let mut next = block(2, 1, 2, 9);
    next.header.claim = Some(SlotClaim { slot: 9, authority_index: 0 });
    next.header.next_authorities = Some(0);
    assert_eq!(chain.import_block(next), imported(true, false));
    // an empty set is not taken over
    assert_eq!(chain.epoch_at(10), Some(Epoch { authorities: 5, randomness: 2 }));
    // a block of an earlier epoch announces in vain
    let mut late = block(3, 2, 3, 4);
    late.header.next_authorities = Some(9);
    assert_eq!(chain.import_block(late), imported(true, false));
    assert_eq!(chain.epoch_count(), 3);
}

use deeper_node::consensus::{should_backoff, Round, SlotWorker};
use deeper_node::import::{
    slot_leader, BlockImportChain, BlockOrigin, Epoch, ForkChoiceStrategy, Header, ImportParams,
    Recorded, SlotClaim, Verdict,
};
use deeper_node::mapping::AddressMappingIndex;
use deeper_node::queue::ImportQueue;
use deeper_node::service::{new_full_base, Cli, Configuration, Role, RunCmd};

fn authority_node() -> BlockImportChain {
    let config = Configuration {
        role: Role::Authority,
        config_dir: vec![],
        telemetry_endpoints: None,
        offchain_worker_enabled: false,
        force_authoring: false,
        disable_grandpa: false,
        allow_non_globals_in_dht: false,
    };
    let base = new_full_base(config, &Cli { run: RunCmd::default() });
    BlockImportChain::new(base.import_stages, 0, 3, 0, 4, Epoch { authorities: 3, randomness: 5 })
}

#[test]
fn three_authorities_produce_and_finalize_ten_blocks() {
    let mut chain = authority_node();
    let mut queue = ImportQueue::new(8);
    let mut index = AddressMappingIndex::new();
    let mut workers = vec![SlotWorker::new(0), SlotWorker::new(1), SlotWorker::new(2)];
    let mut authored = [0u32; 3];
    let mut parent: u64 = 0;
    for number in 1..=10u64 {
        let slot = number;
        assert!(!should_backoff(chain.best().number, chain.finalized().number, 3));
        let epoch = chain.epoch_at(slot).expect("the epoch is known");
        let mut claims = Vec::new();
        for worker in workers.iter_mut() {
            if let Ok(claim) = worker.claim_slot(&epoch, slot) {
                claims.push(claim);
            }
        }
        assert_eq!(claims.len(), 1);
        assert_eq!(claims[0].authority_index, slot_leader(&epoch, slot));
        authored[claims[0].authority_index as usize] += 1;
        let params = ImportParams {
            header: Header {
                id: number,
                parent,
                number,
                external: 7000 + number,
                claim: Some(claims[0]),
                next_authorities: None,
            },
            origin: BlockOrigin::Own,
            justification: None,
            fork_choice: ForkChoiceStrategy::LongestChain,
        };
        assert!(matches!(queue.submit(&mut chain, params), Verdict::Imported(_)));
        // the voters finalize with a lag of two blocks
        if number > 2 {
            let target = number - 2;
            let mut round = Round::new(number, vec![1, 1, 1]).expect("weights fit");
            // two vote for the block itself, one for the head
            assert_eq!(round.precommit(0, target), Ok(()));
            assert_eq!(round.precommit(1, target), Ok(()));
            assert_eq!(round.precommit(2, number), Ok(()));
            let justification = round.justification(&chain, target).expect("all have voted");
            assert_eq!(chain.import_justification(justification), Ok(()));
        }
        parent = number;
    }
    assert_eq!(chain.best().number, 10);
    assert!(chain.finalized().number >= 7);
    assert_eq!(chain.finalized().number, 8);
    assert!(authored.iter().all(|n| *n >= 1));
    assert_eq!(index.poll(&chain), 10);
    assert_eq!(index.len(), 10);
    for number in 1..=10u64 {
        assert_eq!(index.lookup(7000 + number), Some(Recorded { external: 7000 + number, id: number, number }));
    }
    assert_eq!(index.lookup(7000), None);
    assert_eq!(index.poll(&chain), 0);
    assert_eq!(queue.pending_count(), 0);
}

#[test]
fn index_skips_blocks_off_the_canonical_chain() {
    let mut chain = authority_node();
    let mut index = AddressMappingIndex::new();
    let epoch = chain.epoch_at(1).expect("the first epoch is known");
    let block = |id: u64, parent: u64, number: u64, slot: u64| ImportParams {
        header: Header {
            id,
            parent,
            number,
            external: id * 2,
            claim: Some(SlotClaim { slot, authority_index: slot_leader(&epoch, slot) }),
            next_authorities: None,
        },
        origin: BlockOrigin::NetworkPeer,
        justification: None,
        fork_choice: ForkChoiceStrategy::LongestChain,
    };
    assert!(matches!(chain.import_block(block(1, 0, 1, 1)), Verdict::Imported(_)));
    assert!(matches!(chain.import_block(block(11, 0, 1, 2)), Verdict::Imported(_)));
    assert_eq!(index.poll(&chain), 1);
    assert_eq!(index.lookup(2), Some(Recorded { external: 2, id: 1, number: 1 }));
    assert_eq!(index.lookup(22), None);
    assert!(matches!(chain.import_block(block(2, 1, 2, 3)), Verdict::Imported(_)));
    assert_eq!(index.poll(&chain), 1);
    assert_eq!(index.len(), 2);
    assert_eq!(index.lookup(4), Some(Recorded { external: 4, id: 2, number: 2 }));
}

#[test]
fn index_returns_the_latest_entry_of_an_identifier() {
    let mut chain = authority_node();
    let mut index = AddressMappingIndex::new();
    let epoch = chain.epoch_at(1).expect("the first epoch is known");
    for (id, parent, number) in [(1u64, 0u64, 1u64), (2, 1, 2)] {
        let params = ImportParams {
            header: Header {
                id,
                parent,
                number,
                external: 42,
                claim: Some(SlotClaim { slot: number, authority_index: slot_leader(&epoch, number) }),
                next_authorities: None,
            },
            origin: BlockOrigin::File,
            justification: None,
            fork_choice: ForkChoiceStrategy::LongestChain,
        };
        assert!(matches!(chain.import_block(params), Verdict::Imported(_)));
    }
    assert_eq!(index.poll(&chain), 2);
    assert_eq!(index.lookup(42), Some(Recorded { external: 42, id: 2, number: 2 }));
}

#[test]
fn index_drops_blocks_that_left_the_canonical_chain() {
    let mut chain = authority_node();
    let mut index = AddressMappingIndex::new();
    let epoch = chain.epoch_at(1).expect("the first epoch is known");
    let block = |id: u64, parent: u64, number: u64, slot: u64| ImportParams {
        header: Header {
            id,
            parent,
            number,
            external: id * 2,
            claim: Some(SlotClaim { slot, authority_index: slot_leader(&epoch, slot) }),
            next_authorities: None,
        },
        origin: BlockOrigin::NetworkPeer,
        justification: None,
        fork_choice: ForkChoiceStrategy::LongestChain,
    };
    assert!(matches!(chain.import_block(block(1, 0, 1, 1)), Verdict::Imported(_)));
    assert_eq!(index.poll(&chain), 1);
    // a longer fork takes over
    assert!(matches!(chain.import_block(block(11, 0, 1, 2)), Verdict::Imported(_)));
    assert!(matches!(chain.import_block(block(12, 11, 2, 3)), Verdict::Imported(_)));
    assert_eq!(chain.best().id, 12);
    assert_eq!(index.poll(&chain), 2);
    assert_eq!(index.len(), 3);
    index.fix_up(&chain);
    assert_eq!(index.len(), 2);
    assert_eq!(index.lookup(2), None);
    assert_eq!(index.lookup(22), Some(Recorded { external: 22, id: 11, number: 1 }));
    assert_eq!(index.lookup(24), Some(Recorded { external: 24, id: 12, number: 2 }));
}

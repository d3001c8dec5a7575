use bitcoin_explorer::chain::{Block, BlockHeader, FeeSpan, RawBlock};
use bitcoin_explorer::indexer::{
    backoff_delay, classify_node_error, classify_persist_error, ErrorSeverity, FatalError,
    IndexerLoop, NodeError,
};
use bitcoin_explorer::notify::{NotificationHub, NotificationWaiter};
use bitcoin_explorer::reorg::NodeView;
use bitcoin_explorer::store::{ChainStore, CommitOutcome, PersistError};

fn raw(height: u32, hash: u64, parent_hash: u64, fees: Vec<u64>) -> RawBlock {
    RawBlock {
        header: BlockHeader { height, hash, parent_hash },
        created_at: 0,
        size: 100,
        weight: 400,
        tx_count: fees.len() as u32 + 1,
        coinbase_raw: None,
        difficulty: 1,
        pool_id: -1,
        tx_fees: fees,
    }
}

fn block(height: u32, hash: u64, parent_hash: u64) -> Block {
    Block {
        height,
        hash,
        parent_hash,
        created_at: 0,
        size: 100,
        weight: 400,
        tx_count: 1,
        coinbase_raw: None,
        difficulty: 1,
        pool_id: -1,
        fees: 0,
        fee_span: FeeSpan { min_fee: 0, max_fee: 0, p25: 0, p50: 0, p75: 0 },
        median_fee: 0,
    }
}

/// A chain whose block at height h carries hash 100 + h.
fn chain_store(base: u32, tip: u32) -> ChainStore {
    let mut store = ChainStore::new(block(base, 100 + base as u64, 99 + base as u64));
    let mut h = base + 1;
    while h <= tip {
        let b = block(h, 100 + h as u64, 99 + h as u64);
        assert!(matches!(store.commit(b), Ok(CommitOutcome::Committed)));
        h += 1;
    }
    store
}

#[test]
fn cycle_fetches_computes_and_commits_in_order() {
    // cursor at height 5 with hash 105; the node tip is height 7 with
    // blocks 6 and 7 extending that hash
    let mut store = ChainStore::new(block(5, 105, 104));
    let mut hub = NotificationHub::new();
    let mut waiter = NotificationWaiter::new(&hub);
    let node = NodeView::new(vec![
        raw(5, 105, 104, vec![]),
        raw(6, 206, 105, vec![7, 3]),
        raw(7, 207, 206, vec![10]),
    ])
    .unwrap();

    let summary = IndexerLoop::run_cycle(&mut store, &mut hub, &node, 3).unwrap();
    assert_eq!(summary.fork_height, 5);
    assert_eq!(summary.committed, 2);
    assert!(!summary.rewound);
    assert_eq!(summary.new_height, 7);

    // both blocks are stored in order, with their statistics derived
    assert_eq!(store.cursor().height, 7);
    assert_eq!(store.cursor().hash, 207);
    let b6 = store.get_block(6).unwrap();
    assert_eq!(b6.hash, 206);
    assert_eq!(b6.fees, 10);
    assert_eq!(b6.fee_span.min_fee, 3);
    assert_eq!(b6.fee_span.max_fee, 7);
    assert_eq!(b6.median_fee, 3);
    let b7 = store.get_block(7).unwrap();
    assert_eq!(b7.hash, 207);
    assert_eq!(b7.fees, 10);

    // the hub was signalled exactly once, and the waiter sees the final
    // cursor height, not an intermediate one
    assert!(waiter.observe(&hub));
    assert_eq!(store.cursor().height, 7);
    assert!(!waiter.pending(&hub));
}

#[test]
fn cycle_is_idempotent_when_nothing_is_missing() {
    let mut store = ChainStore::new(block(5, 105, 104));
    let mut hub = NotificationHub::new();
    let node = NodeView::new(vec![
        raw(5, 105, 104, vec![]),
        raw(6, 206, 105, vec![]),
        raw(7, 207, 206, vec![]),
    ])
    .unwrap();

    IndexerLoop::run_cycle(&mut store, &mut hub, &node, 3).unwrap();
    let mut waiter = NotificationWaiter::new(&hub);

    // the same report again: nothing to do, no extra notification
    let summary = IndexerLoop::run_cycle(&mut store, &mut hub, &node, 3).unwrap();
    assert_eq!(summary.committed, 0);
    assert!(!summary.rewound);
    assert_eq!(summary.new_height, 7);
    assert_eq!(store.cursor().height, 7);
    assert_eq!(store.len(), 3);
    assert!(!waiter.pending(&hub));
}

#[test]
fn cycle_rewinds_to_fork_and_replays() {
    // stored chain 0..=10; the node reports a different branch above 6
    let mut store = chain_store(0, 10);
    let mut hub = NotificationHub::new();
    let mut waiter = NotificationWaiter::new(&hub);
    let node = NodeView::new(vec![
        raw(6, 106, 105, vec![]),
        raw(7, 207, 106, vec![]),
        raw(8, 208, 207, vec![]),
        raw(9, 209, 208, vec![]),
        raw(10, 210, 209, vec![]),
    ])
    .unwrap();

    let summary = IndexerLoop::run_cycle(&mut store, &mut hub, &node, 4).unwrap();
    assert_eq!(summary.fork_height, 6);
    assert_eq!(summary.committed, 4);
    assert!(summary.rewound);
    assert_eq!(summary.new_height, 10);

    assert_eq!(store.cursor().height, 10);
    assert_eq!(store.cursor().hash, 210);
    assert_eq!(store.get_block(6).unwrap().hash, 106);
    assert_eq!(store.get_block(7).unwrap().hash, 207);
    assert!(waiter.observe(&hub));
}

#[test]
fn cycle_enters_fatal_on_deep_reorg_without_mutating() {
    // the common ancestor lies more than the configured depth below the tip
    let mut store = chain_store(0, 10);
    let mut hub = NotificationHub::new();
    let mut waiter = NotificationWaiter::new(&hub);
    let node = NodeView::new(vec![
        raw(8, 308, 307, vec![]),
        raw(9, 309, 308, vec![]),
        raw(10, 310, 309, vec![]),
    ])
    .unwrap();

    let r = IndexerLoop::run_cycle(&mut store, &mut hub, &node, 2);
    assert_eq!(r, Err(FatalError::DeepReorg));

    // neither the cursor nor any stored block moved, and nobody was woken
    assert_eq!(store.cursor().height, 10);
    assert_eq!(store.cursor().hash, 110);
    assert_eq!(store.len(), 11);
    assert_eq!(store.get_block(8).unwrap().hash, 108);
    assert!(!waiter.pending(&hub));
}

#[test]
fn cycle_enters_fatal_on_duplicate_hash_without_mutating() {
    // the node reports a block whose hash the store already holds at
    // another height: a conflict, surfaced rather than swallowed
    let mut store = chain_store(0, 5);
    let mut hub = NotificationHub::new();
    let mut waiter = NotificationWaiter::new(&hub);
    let node = NodeView::new(vec![
        raw(5, 105, 104, vec![]),
        raw(6, 103, 105, vec![]),
    ])
    .unwrap();

    let r = IndexerLoop::run_cycle(&mut store, &mut hub, &node, 0);
    assert_eq!(r, Err(FatalError::Conflict));
    assert_eq!(store.cursor().height, 5);
    assert_eq!(store.len(), 6);
    assert!(!waiter.pending(&hub));
}

#[test]
fn error_classification_matches_taxonomy() {
    assert_eq!(classify_node_error(NodeError::Unavailable), ErrorSeverity::Transient);
    assert_eq!(classify_node_error(NodeError::NotFound), ErrorSeverity::Divergence);
    assert_eq!(classify_persist_error(PersistError::Conflict), ErrorSeverity::Fatal);
    assert_eq!(classify_persist_error(PersistError::InvalidTarget), ErrorSeverity::Fatal);
}

#[test]
fn backoff_doubles_up_to_the_cap() {
    assert_eq!(backoff_delay(100, 1000, 0), 100);
    assert_eq!(backoff_delay(100, 1000, 1), 200);
    assert_eq!(backoff_delay(100, 1000, 2), 400);
    assert_eq!(backoff_delay(100, 1000, 3), 800);
    assert_eq!(backoff_delay(100, 1000, 4), 1000);
    assert_eq!(backoff_delay(100, 1000, 12), 1000);
    // a base above the cap is clipped immediately
    assert_eq!(backoff_delay(500, 300, 0), 300);
    assert_eq!(backoff_delay(0, 300, 5), 0);
}

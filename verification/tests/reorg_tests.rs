use bitcoin_explorer::chain::{Block, BlockHeader, FeeSpan, RawBlock};
use bitcoin_explorer::reorg::{NodeView, ReorgError, ReorgResolver, Resolution};
use bitcoin_explorer::store::{ChainStore, CommitOutcome};

fn raw(height: u32, hash: u64, parent_hash: u64) -> RawBlock {
    RawBlock {
        header: BlockHeader { height, hash, parent_hash },
        created_at: 0,
        size: 100,
        weight: 400,
        tx_count: 1,
        coinbase_raw: None,
        difficulty: 1,
        pool_id: -1,
        tx_fees: vec![],
    }
}

fn block(height: u32, hash: u64, parent_hash: u64) -> Block {
    Block {
        height,
        hash,
        parent_hash,
        created_at: 0,
        size: 100,
        weight: 400,
        tx_count: 1,
        coinbase_raw: None,
        difficulty: 1,
        pool_id: -1,
        fees: 0,
        fee_span: FeeSpan { min_fee: 0, max_fee: 0, p25: 0, p50: 0, p75: 0 },
        median_fee: 0,
    }
}

/// A chain whose block at height h carries hash 100 + h.
fn chain_store(base: u32, tip: u32) -> ChainStore {
    let mut store = ChainStore::new(block(base, 100 + base as u64, 99 + base as u64));
    let mut h = base + 1;
    while h <= tip {
        let b = block(h, 100 + h as u64, 99 + h as u64);
        assert!(matches!(store.commit(b), Ok(CommitOutcome::Committed)));
        h += 1;
    }
    store
}

#[test]
fn node_view_accepts_linked_blocks() {
    let v = NodeView::new(vec![raw(5, 105, 104), raw(6, 106, 105), raw(7, 107, 106)]).unwrap();
    assert_eq!(v.lo_height(), 5);
    assert_eq!(v.tip_height(), 7);
    assert_eq!(v.get_raw(6).unwrap().header.hash, 106);
    assert!(v.get_raw(8).is_none());
    assert!(v.get_raw(4).is_none());
}

#[test]
fn node_view_rejects_empty_and_unlinked_blocks() {
    assert!(NodeView::new(vec![]).is_none());
    // parent hash of the second block does not match
    assert!(NodeView::new(vec![raw(5, 105, 104), raw(6, 106, 999)]).is_none());
    // height gap
    assert!(NodeView::new(vec![raw(5, 105, 104), raw(7, 107, 105)]).is_none());
}

#[test]
fn resolve_continue_when_node_extends() {
    let store = chain_store(0, 5);
    // node agrees up to 5 and reports 6 and 7 on top
    let node = NodeView::new(vec![
        raw(2, 102, 101),
        raw(3, 103, 102),
        raw(4, 104, 103),
        raw(5, 105, 104),
        raw(6, 206, 105),
        raw(7, 207, 206),
    ])
    .unwrap();
    let r = ReorgResolver::resolve(&store, &node, 3);
    assert_eq!(r, Ok(Resolution::Continue));
}

#[test]
fn resolve_continue_when_node_tip_behind() {
    let store = chain_store(0, 5);
    // node still sits at height 4, agreeing with the stored hash there
    let node = NodeView::new(vec![
        raw(2, 102, 101),
        raw(3, 103, 102),
        raw(4, 104, 103),
    ])
    .unwrap();
    let r = ReorgResolver::resolve(&store, &node, 3);
    assert_eq!(r, Ok(Resolution::Continue));
}

#[test]
fn resolve_rewind_to_fork_point() {
    // stored chain 0..=10; node claims a different block at 7 with the
    // shared ancestor at 6
    let store = chain_store(0, 10);
    let node = NodeView::new(vec![
        raw(6, 106, 105),
        raw(7, 207, 106),
        raw(8, 208, 207),
        raw(9, 209, 208),
        raw(10, 210, 209),
    ])
    .unwrap();
    let r = ReorgResolver::resolve(&store, &node, 4);
    assert_eq!(r, Ok(Resolution::Rewind(6)));
}

#[test]
fn resolve_deep_reorg_beyond_depth() {
    // the node's branch shares nothing above height 6, but the resolver may
    // only search 2 below the stored tip of 10
    let store = chain_store(0, 10);
    let node = NodeView::new(vec![
        raw(8, 308, 307),
        raw(9, 309, 308),
        raw(10, 310, 309),
    ])
    .unwrap();
    let r = ReorgResolver::resolve(&store, &node, 2);
    assert_eq!(r, Err(ReorgError::DeepReorg));
}

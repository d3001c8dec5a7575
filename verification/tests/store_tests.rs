use bitcoin_explorer::chain::{Block, FeeSpan};
use bitcoin_explorer::cursor::{ChainCursor, CursorError};
use bitcoin_explorer::store::{ChainStore, CommitOutcome, PersistError};

fn block(height: u32, hash: u64, parent_hash: u64) -> Block {
    Block {
        height,
        hash,
        parent_hash,
        created_at: 0,
        size: 100,
        weight: 400,
        tx_count: 1,
        coinbase_raw: None,
        difficulty: 1,
        pool_id: -1,
        fees: 0,
        fee_span: FeeSpan { min_fee: 0, max_fee: 0, p25: 0, p50: 0, p75: 0 },
        median_fee: 0,
    }
}

/// A chain whose block at height h carries hash 100 + h.
fn chain_store(base: u32, tip: u32) -> ChainStore {
    let mut store = ChainStore::new(block(base, 100 + base as u64, 99 + base as u64));
    let mut h = base + 1;
    while h <= tip {
        let b = block(h, 100 + h as u64, 99 + h as u64);
        assert!(matches!(store.commit(b), Ok(CommitOutcome::Committed)));
        h += 1;
    }
    store
}

#[test]
fn new_store_points_cursor_at_anchor() {
    let store = ChainStore::new(block(5, 105, 104));
    let c = store.cursor();
    assert_eq!(c.height, 5);
    assert_eq!(c.hash, 105);
    assert_eq!(c.parent_hash, 104);
    assert_eq!(store.len(), 1);
}

#[test]
fn commit_advances_cursor() {
    let mut store = ChainStore::new(block(0, 100, 99));
    let r = store.commit(block(1, 101, 100));
    assert!(matches!(r, Ok(CommitOutcome::Committed)));
    assert_eq!(store.cursor().height, 1);
    assert_eq!(store.cursor().hash, 101);
    assert_eq!(store.len(), 2);
}

#[test]
fn commit_reapply_is_noop() {
    let mut store = ChainStore::new(block(0, 100, 99));
    let b = block(1, 101, 100);
    assert!(matches!(store.commit(b.clone()), Ok(CommitOutcome::Committed)));
    // Re-running the same commit changes nothing: no duplicate row.
    let r = store.commit(b);
    assert!(matches!(r, Ok(CommitOutcome::AlreadyApplied)));
    assert_eq!(store.len(), 2);
    assert_eq!(store.cursor().height, 1);
    assert_eq!(store.cursor().hash, 101);
}

#[test]
fn commit_rejects_unlinked_block() {
    let mut store = ChainStore::new(block(0, 100, 99));
    // parent hash does not match the tip
    let r = store.commit(block(1, 101, 555));
    assert!(matches!(r, Err(PersistError::Conflict)));
    assert_eq!(store.len(), 1);
}

#[test]
fn commit_rejects_stored_height_with_other_hash() {
    let mut store = chain_store(0, 3);
    let r = store.commit(block(2, 999, 101));
    assert!(matches!(r, Err(PersistError::Conflict)));
    assert_eq!(store.len(), 4);
    assert_eq!(store.cursor().height, 3);
}

#[test]
fn commit_rejects_duplicate_hash() {
    let mut store = chain_store(0, 2);
    // links onto the tip but reuses the hash stored at height 1
    let r = store.commit(block(3, 101, 102));
    assert!(matches!(r, Err(PersistError::Conflict)));
    assert_eq!(store.len(), 3);
}

#[test]
fn rewind_and_commit_replaces_suffix() {
    // stored chain 0..=10; a different branch forks off the block at 6
    let mut store = chain_store(0, 10);
    let new_blocks = vec![block(7, 207, 106), block(8, 208, 207)];
    let r = store.rewind_and_commit(6, new_blocks);
    assert!(r.is_ok());
    assert_eq!(store.len(), 9);
    assert_eq!(store.cursor().height, 8);
    assert_eq!(store.cursor().hash, 208);
    // heights 9 and 10 are gone, 7 carries the new hash, 6 is untouched
    assert!(store.get_block(9).is_none());
    assert!(store.get_block(10).is_none());
    assert_eq!(store.get_block(7).unwrap().hash, 207);
    assert_eq!(store.get_block(6).unwrap().hash, 106);
}

#[test]
fn rewind_and_commit_rejects_target_above_tip() {
    let mut store = chain_store(0, 3);
    let r = store.rewind_and_commit(7, vec![]);
    assert!(matches!(r, Err(PersistError::InvalidTarget)));
    assert_eq!(store.cursor().height, 3);
    assert_eq!(store.len(), 4);
}

#[test]
fn rewind_and_commit_rejects_target_below_base() {
    let mut store = chain_store(5, 8);
    let r = store.rewind_and_commit(2, vec![]);
    assert!(matches!(r, Err(PersistError::InvalidTarget)));
    assert_eq!(store.cursor().height, 8);
}

#[test]
fn rewind_and_commit_rejects_unlinked_batch() {
    let mut store = chain_store(0, 10);
    // first new block does not name the fork block's hash as parent
    let r = store.rewind_and_commit(6, vec![block(7, 207, 555)]);
    assert!(matches!(r, Err(PersistError::Conflict)));
    assert_eq!(store.cursor().height, 10);
    assert_eq!(store.len(), 11);
    assert_eq!(store.get_block(7).unwrap().hash, 107);
}

#[test]
fn rewind_and_commit_empty_batch_rewinds_only() {
    let mut store = chain_store(0, 10);
    let r = store.rewind_and_commit(6, vec![]);
    assert!(r.is_ok());
    assert_eq!(store.cursor().height, 6);
    assert_eq!(store.cursor().hash, 106);
    assert_eq!(store.len(), 7);
}

#[test]
fn cursor_advance_and_rewind() {
    let cursor = ChainCursor { height: 5, hash: 105, parent_hash: 104 };
    assert_eq!(cursor.read(), cursor);

    let next = block(6, 106, 105);
    let advanced = cursor.advance(&next).unwrap();
    assert_eq!(advanced.height, 6);
    assert_eq!(advanced.hash, 106);
    assert_eq!(advanced.parent_hash, 105);

    let unlinked = block(6, 106, 999);
    assert!(matches!(cursor.advance(&unlinked), Err(CursorError::InvariantViolation)));

    let target = block(3, 103, 102);
    let rewound = cursor.rewind(&target).unwrap();
    assert_eq!(rewound.height, 3);
    assert_eq!(rewound.hash, 103);

    let too_high = block(5, 105, 104);
    assert!(matches!(cursor.rewind(&too_high), Err(CursorError::InvalidTarget)));
}

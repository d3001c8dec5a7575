use vstd::prelude::*;
use crate::constant::{BlockHash, BlockHeight};

verus! {

/// Identity of a block: its height and the hashes that tie it to the chain.
#[derive(Clone, Copy, PartialEq, Eq, Structural, Debug)]
pub struct BlockHeader {
    pub height: BlockHeight,
    pub hash: BlockHash,
    /// Hash of the block at `height - 1` on the same chain.
    pub parent_hash: BlockHash,
}

/// Raw block data as reported by the node, before statistics are derived.
///
/// `tx_fees` holds the fee of every non-coinbase transaction in the block;
/// the coinbase transaction is excluded, so a block carrying only a coinbase
/// has an empty fee list.
#[derive(Clone, PartialEq, Eq, Debug)]
pub struct RawBlock {
    pub header: BlockHeader,
    /// Timestamp reported by the node; informational only.
    pub created_at: i64,
    pub size: u32,
    pub weight: u32,
    pub tx_count: u32,
    pub coinbase_raw: Option<Vec<u8>>,
    pub difficulty: u64,
    /// Identifier of the mining pool; `-1` when unknown.
    pub pool_id: i32,
    pub tx_fees: Vec<u64>,
}

/// Statistical summary of the per-transaction fees within a block.
/// Degenerate (all zero) for a block with only a coinbase transaction.
#[derive(Clone, Copy, PartialEq, Eq, Structural, Debug)]
pub struct FeeSpan {
    pub min_fee: u64,
    pub max_fee: u64,
    pub p25: u64,
    pub p50: u64,
    pub p75: u64,
}

/// A fully derived block, ready to persist.  Immutable once stored, removed
/// only when a rewind targets a height at or below its own.
#[derive(Clone, PartialEq, Eq, Debug)]
pub struct Block {
    pub height: BlockHeight,
    pub hash: BlockHash,
    pub parent_hash: BlockHash,
    pub created_at: i64,
    pub size: u32,
    pub weight: u32,
    pub tx_count: u32,
    pub coinbase_raw: Option<Vec<u8>>,
    pub difficulty: u64,
    pub pool_id: i32,
    /// Total fee amount of the block's non-coinbase transactions, saturated
    /// at `u64::MAX`.
    pub fees: u64,
    pub fee_span: FeeSpan,
    pub median_fee: u64,
}

/// Two optional coinbase payloads hold the same bytes.
pub open spec fn coinbase_eq(a: Option<Vec<u8>>, b: Option<Vec<u8>>) -> bool {
    match (a, b) {
        (Option::None, Option::None) => true,
        (Option::Some(x), Option::Some(y)) => x@ == y@,
        _ => false,
    }
}

/// Two derived blocks agree on every field.  Spelled out rather than derived
/// so contracts can state it of values built independently of one another.
pub open spec fn blocks_agree(a: Block, b: Block) -> bool {
    &&& a.height == b.height
    &&& a.hash == b.hash
    &&& a.parent_hash == b.parent_hash
    &&& a.created_at == b.created_at
    &&& a.size == b.size
    &&& a.weight == b.weight
    &&& a.tx_count == b.tx_count
    &&& coinbase_eq(a.coinbase_raw, b.coinbase_raw)
    &&& a.difficulty == b.difficulty
    &&& a.pool_id == b.pool_id
    &&& a.fees == b.fees
    &&& a.fee_span == b.fee_span
    &&& a.median_fee == b.median_fee
}

} // verus!

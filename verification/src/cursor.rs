use vstd::prelude::*;
use crate::chain::Block;
use crate::constant::{BlockHash, BlockHeight};

verus! {

/// Why a cursor mutation was refused.
#[derive(Clone, Copy, PartialEq, Eq, Structural, Debug)]
pub enum CursorError {
    /// The proposed block does not link onto the current tip.
    InvariantViolation,
    /// The rewind target does not lie strictly below the current tip.
    InvalidTarget,
}

/// The durable record of how far the chain has been indexed: the height,
/// hash, and parent hash of the current local tip.  Mutated only together
/// with the corresponding store change, exactly once per commit or rewind.
#[derive(Clone, Copy, PartialEq, Eq, Structural, Debug)]
pub struct ChainCursor {
    pub height: BlockHeight,
    pub hash: BlockHash,
    pub parent_hash: BlockHash,
}

impl ChainCursor {
    /// The cursor that describes `b` as the chain tip.
    pub open spec fn spec_at(b: Block) -> ChainCursor {
        ChainCursor { height: b.height, hash: b.hash, parent_hash: b.parent_hash }
    }

    /// Whether `b` is the block the cursor expects next: one height above
    /// the tip and linked to it by parent hash.
    pub open spec fn spec_extends(self, b: Block) -> bool {
        b.parent_hash == self.hash && b.height == self.height + 1
    }

    /// Builds the cursor pointing at `b`.
    pub fn at_block(b: &Block) -> (c: ChainCursor)
        ensures
            c == ChainCursor::spec_at(*b),
    {
        ChainCursor { height: b.height, hash: b.hash, parent_hash: b.parent_hash }
    }

    /// Reads the current cursor value.
    pub fn read(&self) -> (c: ChainCursor)
        ensures
            c == *self,
    {
        *self
    }

    /// The cursor after committing `new_block` on top of the current tip.
    /// Refused when `new_block` does not link onto the tip.
    pub fn advance(&self, new_block: &Block) -> (r: Result<ChainCursor, CursorError>)
        ensures
            self.spec_extends(*new_block) ==> r == Ok::<ChainCursor, CursorError>(
                ChainCursor::spec_at(*new_block),
            ),
            !self.spec_extends(*new_block) ==> r == Err::<ChainCursor, CursorError>(
                CursorError::InvariantViolation,
            ),
    {
        if new_block.parent_hash == self.hash && self.height < BlockHeight::MAX
            && new_block.height == self.height + 1 {
            Ok(ChainCursor::at_block(new_block))
        } else {
            Err(CursorError::InvariantViolation)
        }
    }

    /// The cursor after rewinding to `target`, which must lie strictly below
    /// the current tip.
    pub fn rewind(&self, target: &Block) -> (r: Result<ChainCursor, CursorError>)
        ensures
            target.height < self.height ==> r == Ok::<ChainCursor, CursorError>(
                ChainCursor::spec_at(*target),
            ),
            target.height >= self.height ==> r == Err::<ChainCursor, CursorError>(
                CursorError::InvalidTarget,
            ),
    {
        if target.height < self.height {
            Ok(ChainCursor::at_block(target))
        } else {
            Err(CursorError::InvalidTarget)
        }
    }
}

} // verus!

use vstd::prelude::*;

verus! {

/// Height of a block within the canonical chain.
pub type BlockHeight = u32;

/// Fixed-width block identifier.  Equality of identifiers is the only
/// tie-break the indexer ever uses; timestamps are informational.
pub type BlockHash = u64;

} // verus!

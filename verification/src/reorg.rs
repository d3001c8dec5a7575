use vstd::prelude::*;
use crate::chain::RawBlock;
use crate::constant::{BlockHash, BlockHeight};
use crate::store::ChainStore;

verus! {

/// Whether the raw blocks of `s` form one contiguous chain: consecutive
/// heights starting at the first entry, each linked to its predecessor by
/// parent hash.
pub open spec fn raw_chain(s: Seq<RawBlock>) -> bool {
    &&& s.len() > 0
    &&& forall|i: int|
        0 <= i < s.len() ==> #[trigger] s[i].header.height == s[0].header.height + i
    &&& forall|i: int|
        1 <= i < s.len() ==> #[trigger] s[i].header.parent_hash == s[i - 1].header.hash
}

/// The suffix of the chain that the node currently reports, fetched by the
/// surrounding process and validated on construction.  The resolver compares
/// it height by height against the local store.
pub struct NodeView {
    blocks: Vec<RawBlock>,
}

impl NodeView {
    /// The reported blocks, lowest height first.
    pub closed spec fn spec_blocks(self) -> Seq<RawBlock> {
        self.blocks@
    }

    /// A view is well formed exactly when its blocks form one chain.
    pub open spec fn wf(self) -> bool {
        raw_chain(self.spec_blocks())
    }

    /// Lowest height the view covers.
    pub open spec fn spec_lo(self) -> int {
        self.spec_blocks()[0].header.height as int
    }

    /// Height of the node's reported tip.
    pub open spec fn spec_tip_height(self) -> int {
        self.spec_lo() + self.spec_blocks().len() - 1
    }

    /// Whether the view reports a block at height `h`.
    pub open spec fn covers(self, h: int) -> bool {
        self.spec_lo() <= h <= self.spec_tip_height()
    }

    /// The reported block at height `h`.
    pub open spec fn raw_at(self, h: int) -> RawBlock {
        self.spec_blocks()[h - self.spec_lo()]
    }

    /// Hash the node reports at height `h`.
    pub open spec fn hash_at(self, h: int) -> BlockHash {
        self.raw_at(h).header.hash
    }

    /// Validates fetched blocks into a view: accepted exactly when they are
    /// non-empty and form one contiguous, linked chain.
    pub fn new(blocks: Vec<RawBlock>) -> (r: Option<NodeView>)
        ensures
            raw_chain(blocks@) ==> (r matches Some(v) && v.spec_blocks() == blocks@),
            !raw_chain(blocks@) ==> r is None,
    {
        if blocks.len() == 0 {
            return None;
        }
        let mut prev_height: BlockHeight = blocks[0].header.height;
        let mut prev_hash: BlockHash = blocks[0].header.hash;
        let mut i: usize = 1;
        while i < blocks.len()
            invariant
                1 <= i <= blocks@.len(),
                prev_height == blocks@[i - 1].header.height,
                prev_hash == blocks@[i - 1].header.hash,
                forall|k: int|
                    0 <= k < i ==> #[trigger] blocks@[k].header.height == blocks@[0].header.height
                        + k,
                forall|k: int|
                    1 <= k < i ==> #[trigger] blocks@[k].header.parent_hash == blocks@[k
                        - 1].header.hash,
            decreases blocks@.len() - i,
        {
            let linked = blocks[i].header.parent_hash == prev_hash && prev_height
                < BlockHeight::MAX && blocks[i].header.height == prev_height + 1;
            if !linked {
                proof {
                    assert(!raw_chain(blocks@)) by {
                        if raw_chain(blocks@) {
                            assert(blocks@[i as int].header.height == blocks@[0].header.height
                                + i);
                            assert(blocks@[i as int].header.parent_hash == blocks@[i
                                - 1].header.hash);
                        }
                    }
                }
                return None;
            }
            prev_height = blocks[i].header.height;
            prev_hash = blocks[i].header.hash;
            i += 1;
        }
        proof {
            assert(raw_chain(blocks@));
        }
        Some(NodeView { blocks })
    }

    /// Height of the reported tip.
    pub fn tip_height(&self) -> (h: BlockHeight)
        requires
            self.wf(),
        ensures
            h == self.spec_tip_height(),
    {
        self.blocks[self.blocks.len() - 1].header.height
    }

    /// Lowest height the view covers.
    pub fn lo_height(&self) -> (h: BlockHeight)
        requires
            self.wf(),
        ensures
            h == self.spec_lo(),
    {
        self.blocks[0].header.height
    }

    /// The reported block at height `h`, or `None` when the view does not
    /// reach it.
    pub fn get_raw(&self, h: BlockHeight) -> (r: Option<&RawBlock>)
        requires
            self.wf(),
        ensures
            self.covers(h as int) ==> r == Some(&self.raw_at(h as int)),
            !self.covers(h as int) ==> r is None,
    {
        let lo = self.blocks[0].header.height;
        let tip = self.blocks[self.blocks.len() - 1].header.height;
        if h >= lo && h <= tip {
            let idx = (h - lo) as usize;
            Some(&self.blocks[idx])
        } else {
            None
        }
    }
}

/// Whether the store and the node agree on the block at height `h`: both
/// reach it and report the same hash.  Agreement is by hash only.
pub open spec fn spec_agree(store: ChainStore, node: NodeView, h: int) -> bool {
    store.covers(h) && node.covers(h) && node.hash_at(h) == store.hash_at(h)
}

/// Lowest height the resolver may search: the stored base, or the configured
/// maximum depth below the stored tip, whichever is higher.
pub open spec fn spec_search_lo(store: ChainStore, max_depth: u32) -> int {
    if store.spec_base() >= store.spec_cursor().height - max_depth {
        store.spec_base()
    } else {
        store.spec_cursor().height - max_depth
    }
}

/// Highest height at which store and node can be compared: the lower of the
/// two tips.
pub open spec fn spec_cmp_height(store: ChainStore, node: NodeView) -> int {
    if node.spec_tip_height() <= store.spec_cursor().height {
        node.spec_tip_height()
    } else {
        store.spec_cursor().height as int
    }
}

/// Whether the node's report constitutes a deep reorg: no height within the
/// search window agrees with the store.
pub open spec fn spec_deep(store: ChainStore, node: NodeView, max_depth: u32) -> bool {
    forall|h: int|
        spec_search_lo(store, max_depth) <= h <= spec_cmp_height(store, node) ==> !spec_agree(
            store,
            node,
            h,
        )
}

/// The resolver's verdict on the node's reported chain.
#[derive(Clone, Copy, PartialEq, Eq, Structural, Debug)]
pub enum Resolution {
    /// No divergence: the next height to fetch is the one above the cursor.
    Continue,
    /// The chains diverge; rewind to this fork point, the highest height on
    /// which both chains agree.
    Rewind(BlockHeight),
}

/// Why resolution failed.
#[derive(Clone, Copy, PartialEq, Eq, Structural, Debug)]
pub enum ReorgError {
    /// No common ancestor within the configured maximum search depth: fatal,
    /// requires operator intervention.
    DeepReorg,
}

/// Finds the fork point between the locally stored chain and the node's
/// current report.
pub struct ReorgResolver;

impl ReorgResolver {
    /// Compares the node's report against the store, walking backward from
    /// the highest comparable height.
    ///
    /// `Continue` exactly when the chains agree there; `Rewind(f)` exactly
    /// when they disagree there and `f` is the highest agreeing height
    /// within the search window; `DeepReorg` exactly when no height in the
    /// window agrees — in particular when the common ancestor lies more than
    /// `max_depth` below the stored tip.
    pub fn resolve(store: &ChainStore, node: &NodeView, max_depth: u32) -> (r: Result<
        Resolution,
        ReorgError,
    >)
        requires
            store.wf(),
            node.wf(),
            node.spec_lo() <= spec_search_lo(*store, max_depth) || node.spec_tip_height()
                < spec_search_lo(*store, max_depth),
        ensures
            (r == Ok::<Resolution, ReorgError>(Resolution::Continue)) <==> (spec_search_lo(
                *store,
                max_depth,
            ) <= spec_cmp_height(*store, *node) && spec_agree(
                *store,
                *node,
                spec_cmp_height(*store, *node),
            )),
            r matches Ok(res) ==> (res matches Resolution::Rewind(f) ==> {
                &&& spec_search_lo(*store, max_depth) <= f < spec_cmp_height(*store, *node)
                &&& spec_agree(*store, *node, f as int)
                &&& forall|h: int|
                    f < h <= spec_cmp_height(*store, *node) ==> !spec_agree(*store, *node, h)
            }),
            (r is Err) <==> spec_deep(*store, *node, max_depth),
            r matches Err(e) ==> e == ReorgError::DeepReorg,
    {
        let cursor = store.cursor();
        let base = store.base();
        let node_tip = node.tip_height();
        let c = if node_tip <= cursor.height {
            node_tip
        } else {
            cursor.height
        };
        let depth_floor = if cursor.height > max_depth {
            cursor.height - max_depth
        } else {
            0
        };
        let lo = if base >= depth_floor {
            base
        } else {
            depth_floor
        };
        proof {
            assert(lo == spec_search_lo(*store, max_depth));
            assert(c == spec_cmp_height(*store, *node));
        }
        if c < lo {
            proof {
                assert(spec_deep(*store, *node, max_depth));
            }
            return Err(ReorgError::DeepReorg);
        }
        let mut h = c;
        let mut found = hashes_agree(store, node, h);
        while !found && h > lo
            invariant
                store.wf(),
                node.wf(),
                lo == spec_search_lo(*store, max_depth),
                c == spec_cmp_height(*store, *node),
                lo <= h <= c,
                found == spec_agree(*store, *node, h as int),
                forall|k: int| h < k <= c ==> !spec_agree(*store, *node, k),
            decreases h,
        {
            h -= 1;
            found = hashes_agree(store, node, h);
        }
        if found {
            if h == c {
                Ok(Resolution::Continue)
            } else {
                Ok(Resolution::Rewind(h))
            }
        } else {
            proof {
                assert(h == lo);
            }
            Err(ReorgError::DeepReorg)
        }
    }
}

/// Whether the store and the node report the same hash at height `h`.
fn hashes_agree(store: &ChainStore, node: &NodeView, h: BlockHeight) -> (b: bool)
    requires
        store.wf(),
        node.wf(),
    ensures
        b == spec_agree(*store, *node, h as int),
{
    let stored = store.get_block(h);
    let reported = node.get_raw(h);
    match (stored, reported) {
        (Some(sb), Some(rb)) => sb.hash == rb.header.hash,
        _ => false,
    }
}

} // verus!

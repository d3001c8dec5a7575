use vstd::prelude::*;
use crate::chain::Block;
use crate::constant::BlockHeight;
use crate::notify::{spec_next_version, NotificationHub};
use crate::reorg::{spec_agree, spec_cmp_height, spec_deep, spec_search_lo, NodeView, ReorgError, ReorgResolver, Resolution};
use crate::stats::{spec_computed, StatsComputer};
use crate::store::{extends_chain, fresh_hashes, ChainStore, PersistError};

verus! {

/// Configuration the loop receives at construction and treats as immutable
/// for its lifetime: cadence, trust bounds, and retry shape.
#[derive(Clone, Copy, PartialEq, Eq, Structural, Debug)]
pub struct IndexerConfig {
    /// How long the loop sleeps between polls, in milliseconds.
    pub poll_interval_ms: u64,
    /// Highest number of blocks below the stored tip the resolver may
    /// search for a common ancestor.
    pub max_reorg_depth: u32,
    /// Bound on each node RPC call, in milliseconds; distinct from the
    /// reorg search depth bound.
    pub rpc_timeout_ms: u64,
    /// First retry delay after a transient failure, in milliseconds.
    pub backoff_base_ms: u64,
    /// Ceiling on the retry delay, in milliseconds.
    pub backoff_cap_ms: u64,
    /// How many times a fetch is retried before the cycle is given up.
    pub max_retries: u32,
    /// Height the cursor starts at on first run.
    pub start_height: BlockHeight,
}

/// The states of the indexing loop.  The steady path cycles through
/// `Polling → Resolving → Fetching → Computing → Persisting → Notifying`;
/// the fork branch replaces `Fetching` with `RewindingFetching`.  `Fatal` is
/// terminal, entered only on a deep reorg or an unrecoverable conflict.
#[derive(Clone, Copy, PartialEq, Eq, Structural, Debug)]
pub enum IndexerPhase {
    Polling,
    Resolving,
    Fetching,
    RewindingFetching,
    Computing,
    Persisting,
    Notifying,
    Fatal,
}

/// How the node can fail a query.
#[derive(Clone, Copy, PartialEq, Eq, Structural, Debug)]
pub enum NodeError {
    /// Connection or timeout failure: transient, retried with backoff.
    Unavailable,
    /// The identifier is unknown to the node: the chain moved between the
    /// tip query and the fetch, so resolution restarts.
    NotFound,
}

/// The loop's closed error taxonomy: every failure mode is enumerable at
/// design time.
#[derive(Clone, Copy, PartialEq, Eq, Structural, Debug)]
pub enum ErrorSeverity {
    /// Recovered inside the loop by retrying with backoff.
    Transient,
    /// Recovered inside the loop by re-running resolution.
    Divergence,
    /// Surfaced to the operator; the loop stops with the last known-good
    /// cursor intact.
    Fatal,
}

/// The two conditions that stop the loop.
#[derive(Clone, Copy, PartialEq, Eq, Structural, Debug)]
pub enum FatalError {
    /// No common ancestor within the configured search depth.
    DeepReorg,
    /// Local data contradicts the expected chain shape.
    Conflict,
}

/// How a fetch failure is handled: `Unavailable` is transient and retried;
/// `NotFound` means the chain moved again and resolution restarts.  Neither
/// escapes the loop.
pub fn classify_node_error(e: NodeError) -> (s: ErrorSeverity)
    ensures
        e == NodeError::Unavailable ==> s == ErrorSeverity::Transient,
        e == NodeError::NotFound ==> s == ErrorSeverity::Divergence,
{
    match e {
        NodeError::Unavailable => ErrorSeverity::Transient,
        NodeError::NotFound => ErrorSeverity::Divergence,
    }
}

/// Persistence refusals contradict the single-writer invariant and are
/// always fatal: they must never be silently swallowed.
pub fn classify_persist_error(e: PersistError) -> (s: ErrorSeverity)
    ensures
        s == ErrorSeverity::Fatal,
{
    match e {
        PersistError::Conflict => ErrorSeverity::Fatal,
        PersistError::InvalidTarget => ErrorSeverity::Fatal,
    }
}

/// The retry delay before attempt `attempt`: the base doubled once per
/// earlier attempt, never above the cap.
pub open spec fn spec_backoff(base: u64, cap: u64, attempt: u32) -> u64
    decreases attempt,
{
    if attempt == 0 {
        if base <= cap {
            base
        } else {
            cap
        }
    } else {
        let prev = spec_backoff(base, cap, (attempt - 1) as u32);
        if 2 * prev <= cap {
            (2 * prev) as u64
        } else {
            cap
        }
    }
}

/// Bounded exponential backoff: the delay before retry `attempt`, always at
/// most `cap`.
pub fn backoff_delay(base: u64, cap: u64, attempt: u32) -> (d: u64)
    ensures
        d == spec_backoff(base, cap, attempt),
        d <= cap,
{
    let mut d: u64 = if base <= cap {
        base
    } else {
        cap
    };
    let mut i: u32 = 0;
    while i < attempt
        invariant
            i <= attempt,
            d == spec_backoff(base, cap, i),
            d <= cap,
        decreases attempt - i,
    {
        if d <= cap / 2 {
            d = 2 * d;
        } else {
            d = cap;
        }
        proof {
            assert(d == spec_backoff(base, cap, (i + 1) as u32));
        }
        i += 1;
    }
    d
}

/// The highest height in `[lo, h]` on which store and node agree, or
/// `lo - 1` when none does.
pub open spec fn spec_highest_agreement(store: ChainStore, node: NodeView, h: int, lo: int) -> int
    decreases h - lo + 1,
{
    if h < lo {
        lo - 1
    } else if spec_agree(store, node, h) {
        h
    } else {
        spec_highest_agreement(store, node, h - 1, lo)
    }
}

/// The height the cycle keeps everything at or below: the cursor height
/// when the chains agree at the highest comparable height, else the highest
/// agreeing height in the window (`lo - 1` when none, the deep-reorg case).
pub open spec fn spec_fork_height(store: ChainStore, node: NodeView, max_depth: u32) -> int {
    let c = spec_cmp_height(store, node);
    let lo = spec_search_lo(store, max_depth);
    if lo <= c && spec_agree(store, node, c) {
        store.spec_cursor().height as int
    } else {
        spec_highest_agreement(store, node, c, lo)
    }
}

/// Whether the hashes the node reports above `f`, up to `t`, are fresh with
/// respect to the stored blocks at or below `f` and pairwise distinct.
/// Exactly the condition under which the persister accepts the batch.
pub open spec fn spec_batch_fresh(store: ChainStore, node: NodeView, f: int, t: int) -> bool {
    &&& forall|i: int, h: int|
        0 <= i <= f - store.spec_base() && f < h <= t ==> store.spec_blocks()[i].hash
            != node.hash_at(h)
    &&& forall|h1: int, h2: int| f < h1 < h2 <= t ==> node.hash_at(h1) != node.hash_at(h2)
}

/// What one cycle did.
#[derive(Clone, Copy, PartialEq, Eq, Structural, Debug)]
pub struct CycleSummary {
    /// Highest height that was kept as-is; everything above it was
    /// replaced or appended.
    pub fork_height: BlockHeight,
    /// How many blocks were committed this cycle.
    pub committed: u32,
    /// Whether stored blocks were removed before committing.
    pub rewound: bool,
    /// The cursor height after the cycle.
    pub new_height: BlockHeight,
}

/// One pass of the indexing loop over a validated node report: resolve
/// divergence, derive statistics for each missing block in ascending height
/// order, persist the batch atomically, and signal the hub once.
pub struct IndexerLoop;

impl IndexerLoop {
    /// Runs one cycle against the node's reported chain.
    ///
    /// On `Ok` the store holds exactly the old chain up to the fork height
    /// plus one derived block per reported height above it, the cursor sits
    /// at the new tip, and the hub was signalled once — or, when nothing was
    /// missing, nothing changed and no signal was sent.  On `Err` neither
    /// the store nor the hub changed: `DeepReorg` exactly when no height in
    /// the search window agrees, `Conflict` when the batch would duplicate a
    /// stored hash.
    #[verifier::rlimit(100)]
    pub fn run_cycle(
        store: &mut ChainStore,
        hub: &mut NotificationHub,
        node: &NodeView,
        max_depth: u32,
    ) -> (r: Result<CycleSummary, FatalError>)
        requires
            old(store).wf(),
            node.wf(),
            node.spec_lo() <= spec_search_lo(*old(store), max_depth) || node.spec_tip_height()
                < spec_search_lo(*old(store), max_depth),
        ensures
            final(store).wf(),
            r matches Err(e) ==> {
                &&& *final(store) == *old(store)
                &&& *final(hub) == *old(hub)
                &&& (e == FatalError::DeepReorg <==> spec_deep(*old(store), *node, max_depth))
            },
            (r matches Err(e) && e == FatalError::DeepReorg) <==> spec_deep(
                *old(store),
                *node,
                max_depth,
            ),
            !spec_deep(*old(store), *node, max_depth) && spec_batch_fresh(
                *old(store),
                *node,
                spec_fork_height(*old(store), *node, max_depth),
                node.spec_tip_height(),
            ) ==> r is Ok,
            r matches Ok(s) ==> {
                let f = spec_fork_height(*old(store), *node, max_depth);
                let t = node.spec_tip_height();
                let n = if t > f {
                    t - f
                } else {
                    0
                };
                &&& s.fork_height == f
                &&& s.committed == n
                &&& s.rewound == (f < old(store).spec_cursor().height)
                &&& s.new_height == final(store).spec_cursor().height
                &&& final(store).spec_cursor().height as int == (if t > f {
                    t
                } else {
                    old(store).spec_cursor().height as int
                })
                &&& final(store).spec_blocks().len() == f - old(store).spec_base() + 1 + n
                &&& (forall|i: int|
                    0 <= i <= f - old(store).spec_base() ==> final(store).spec_blocks()[i] == old(
                        store,
                    ).spec_blocks()[i])
                &&& (forall|h: int|
                    f < h <= t ==> spec_computed(
                        node.raw_at(h),
                        #[trigger] final(store).block_at(h),
                    ))
                &&& spec_batch_fresh(*old(store), *node, f, t)
                &&& (n > 0 ==> final(hub).spec_version() == spec_next_version(
                    old(hub).spec_version(),
                ))
                &&& (n == 0 ==> *final(hub) == *old(hub) && *final(store) == *old(store))
            },
    {
        let ghost store0 = *store;
        let cursor0 = store.cursor();
        let resolution = ReorgResolver::resolve(store, node, max_depth);
        let fork: BlockHeight = match resolution {
            Err(ReorgError::DeepReorg) => {
                return Err(FatalError::DeepReorg);
            },
            Ok(Resolution::Continue) => cursor0.height,
            Ok(Resolution::Rewind(f)) => {
                proof {
                    lemma_highest_agreement_pinned(
                        *store,
                        *node,
                        f as int,
                        spec_cmp_height(*store, *node),
                        spec_search_lo(*store, max_depth),
                    );
                }
                f
            },
        };
        proof {
            assert(fork == spec_fork_height(store0, *node, max_depth));
            assert(!spec_deep(store0, *node, max_depth));
        }
        let tip = node.tip_height();
        if tip <= fork {
            return Ok(
                CycleSummary {
                    fork_height: fork,
                    committed: 0,
                    rewound: false,
                    new_height: cursor0.height,
                },
            );
        }
        let count = tip - fork;

        let mut batch: Vec<Block> = Vec::new();
        let mut i: u32 = 0;
        while i < count
            invariant
                node.wf(),
                fork < tip,
                count == tip - fork,
                tip == node.spec_tip_height(),
                node.spec_lo() <= fork,
                i <= count,
                batch@.len() == i,
                forall|j: int|
                    0 <= j < i ==> spec_computed(node.raw_at(fork + 1 + j), #[trigger] batch@[j]),
            decreases count - i,
        {
            let h = fork + 1 + i;
            let raw = match node.get_raw(h) {
                Some(raw) => raw,
                None => {
                    proof {
                        assert(false);
                    }
                    vstd::pervasive::unreached()
                },
            };
            let b = StatsComputer::compute(raw);
            batch.push(b);
            i += 1;
        }

        let ghost retained = store.spec_blocks().subrange(0, fork - store.spec_base() + 1);
        let ghost fork_block = store.block_at(fork as int);
        proof {
            assert(store.covers(fork as int));
            assert(spec_agree(store0, *node, fork as int));
            lemma_batch_obligations(*store, *node, fork as int, tip as int, batch@);
        }
        match store.rewind_and_commit(fork, batch) {
            Ok(()) => {
                hub.signal();
                let cur = store.cursor();
                proof {
                    assert(store.spec_blocks() == retained + batch@);
                    assert(store.spec_blocks()[0] == store0.spec_blocks()[0]);
                    assert forall|h: int| fork < h <= tip implies spec_computed(
                        node.raw_at(h),
                        #[trigger] store.block_at(h),
                    ) by {
                        assert(store.block_at(h) == batch@[h - fork - 1]);
                    }
                    assert(batch@[batch@.len() - 1].height == tip);
                }
                Ok(
                    CycleSummary {
                        fork_height: fork,
                        committed: count,
                        rewound: fork < cursor0.height,
                        new_height: cur.height,
                    },
                )
            },
            Err(PersistError::Conflict) => Err(FatalError::Conflict),
            Err(PersistError::InvalidTarget) => {
                proof {
                    assert(false);
                }
                vstd::pervasive::unreached()
            },
        }
    }
}

/// A batch derived in order from the node's reports above an agreed fork
/// height links onto the stored fork block, and its hashes are fresh exactly
/// when the node's reported hashes are.
proof fn lemma_batch_obligations(
    store: ChainStore,
    node: NodeView,
    fork: int,
    tip: int,
    batch: Seq<Block>,
)
    requires
        store.wf(),
        node.wf(),
        store.covers(fork),
        node.spec_lo() <= fork,
        fork < tip,
        tip == node.spec_tip_height(),
        spec_agree(store, node, fork),
        batch.len() == tip - fork,
        forall|j: int|
            0 <= j < batch.len() ==> spec_computed(node.raw_at(fork + 1 + j), #[trigger] batch[j]),
    ensures
        extends_chain(store.block_at(fork), batch),
        fresh_hashes(store.spec_blocks().subrange(0, fork - store.spec_base() + 1), batch)
            <==> spec_batch_fresh(store, node, fork, tip),
{
    lemma_node_chain_shape(node);
    let fork_block = store.block_at(fork);
    let retained = store.spec_blocks().subrange(0, fork - store.spec_base() + 1);
    assert(fork_block.height == fork) by {
        assert(store.spec_blocks()[fork - store.spec_base()].height == store.spec_blocks()[0].height
            + (fork - store.spec_base()));
    }
    assert(fork_block.hash == node.hash_at(fork));
    assert(extends_chain(fork_block, batch)) by {
        assert forall|j: int| 0 <= j < batch.len() implies #[trigger] batch[j].height
            == fork_block.height + j + 1 by {
            assert(spec_computed(node.raw_at(fork + 1 + j), batch[j]));
            assert(node.raw_at(fork + 1 + j).header.height == fork + 1 + j);
        }
        assert(batch.len() > 0 ==> batch[0].parent_hash == fork_block.hash) by {
            if batch.len() > 0 {
                assert(spec_computed(node.raw_at(fork + 1), batch[0]));
                assert(node.raw_at(fork + 1).header.parent_hash == node.raw_at(
                    fork,
                ).header.hash);
            }
        }
        assert forall|j: int| 1 <= j < batch.len() implies #[trigger] batch[j].parent_hash
            == batch[j - 1].hash by {
            assert(spec_computed(node.raw_at(fork + 1 + j), batch[j]));
            assert(spec_computed(node.raw_at(fork + j), batch[j - 1]));
            assert(node.raw_at(fork + 1 + j).header.parent_hash == node.raw_at(
                fork + j,
            ).header.hash);
        }
    }
    assert forall|h: int| fork < h <= tip implies #[trigger] node.hash_at(h) == batch[h - fork
        - 1].hash by {
        assert(spec_computed(node.raw_at(h), batch[h - fork - 1]));
    }
    if fresh_hashes(retained, batch) {
        assert forall|i: int, h: int|
            #![trigger store.spec_blocks()[i], node.hash_at(h)]
            0 <= i <= fork - store.spec_base() && fork < h <= tip implies store.spec_blocks()[i].hash
            != node.hash_at(h) by {
            assert(retained[i] == store.spec_blocks()[i]);
            assert(node.hash_at(h) == batch[h - fork - 1].hash);
        }
        assert forall|h1: int, h2: int|
            #![trigger node.hash_at(h1), node.hash_at(h2)]
            fork < h1 < h2 <= tip implies node.hash_at(h1) != node.hash_at(h2) by {
            assert(node.hash_at(h1) == batch[h1 - fork - 1].hash);
            assert(node.hash_at(h2) == batch[h2 - fork - 1].hash);
        }
        assert(spec_batch_fresh(store, node, fork, tip));
    }
    if spec_batch_fresh(store, node, fork, tip) {
        assert forall|i: int, j: int|
            #![trigger retained[i], batch[j]]
            0 <= i < retained.len() && 0 <= j < batch.len() implies retained[i].hash
            != batch[j].hash by {
            assert(retained[i] == store.spec_blocks()[i]);
            assert(batch[j].hash == node.hash_at(fork + 1 + j));
        }
        assert forall|i: int, j: int|
            #![trigger batch[i], batch[j]]
            0 <= i < j < batch.len() implies batch[i].hash != batch[j].hash by {
            assert(batch[i].hash == node.hash_at(fork + 1 + i));
            assert(batch[j].hash == node.hash_at(fork + 1 + j));
        }
        assert(fresh_hashes(retained, batch));
    }
}

/// The heights a well-formed node view reports are exactly the heights it
/// covers, and each reported block names its predecessor's hash as parent.
proof fn lemma_node_chain_shape(node: NodeView)
    requires
        node.wf(),
    ensures
        forall|h: int|
            node.spec_lo() <= h <= node.spec_tip_height() ==> #[trigger] node.raw_at(
                h,
            ).header.height == h,
        forall|h: int|
            node.spec_lo() < h <= node.spec_tip_height() ==> #[trigger] node.raw_at(
                h,
            ).header.parent_hash == node.raw_at(h - 1).header.hash,
{
    assert forall|h: int| node.spec_lo() <= h <= node.spec_tip_height() implies #[trigger] node.raw_at(
        h,
    ).header.height == h by {
        assert(node.spec_blocks()[h - node.spec_lo()].header.height
            == node.spec_blocks()[0].header.height + (h - node.spec_lo()));
    }
    assert forall|h: int| node.spec_lo() < h <= node.spec_tip_height() implies #[trigger] node.raw_at(
        h,
    ).header.parent_hash == node.raw_at(h - 1).header.hash by {
        assert(node.spec_blocks()[h - node.spec_lo()].header.parent_hash == node.spec_blocks()[h
            - node.spec_lo() - 1].header.hash);
    }
}

/// A fork height certified by the resolver is exactly the highest agreeing
/// height in the window.
proof fn lemma_highest_agreement_pinned(
    store: ChainStore,
    node: NodeView,
    f: int,
    h: int,
    lo: int,
)
    requires
        lo <= f <= h,
        spec_agree(store, node, f),
        forall|k: int| f < k <= h ==> !spec_agree(store, node, k),
    ensures
        spec_highest_agreement(store, node, h, lo) == f,
    decreases h - f,
{
    if h > f {
        lemma_highest_agreement_pinned(store, node, f, h - 1, lo);
    }
}

} // verus!

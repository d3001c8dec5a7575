use vstd::prelude::*;
use crate::chain::Block;
use crate::constant::{BlockHash, BlockHeight};
use crate::cursor::ChainCursor;

verus! {

/// Why a persistence operation was refused.  Every refusal leaves the store
/// exactly as it was: both operations are all-or-nothing.
#[derive(Clone, Copy, PartialEq, Eq, Structural, Debug)]
pub enum PersistError {
    /// The proposed blocks contradict the stored chain: they do not link
    /// onto it, or a stored block already occupies a written height with a
    /// different hash.  Under the single-writer assumption this signals a
    /// bug and is treated as fatal.
    Conflict,
    /// The rewind target lies outside the stored chain.
    InvalidTarget,
}

/// What a commit did.
#[derive(Clone, Copy, PartialEq, Eq, Structural, Debug)]
pub enum CommitOutcome {
    /// The block was appended and the cursor advanced.
    Committed,
    /// The block was already stored with the same hash; nothing changed.
    AlreadyApplied,
}

/// Whether consecutive entries of `s` form one contiguous chain: each block
/// names its predecessor's hash as parent.
pub open spec fn chain_linked(s: Seq<Block>) -> bool {
    forall|i: int| 1 <= i < s.len() ==> s[i].parent_hash == s[i - 1].hash
}

/// Whether `s` covers consecutive heights with no gaps, starting at the
/// height of its first entry.
pub open spec fn no_gaps(s: Seq<Block>) -> bool {
    forall|i: int| 0 <= i < s.len() ==> #[trigger] s[i].height == s[0].height + i
}

/// Whether every stored hash is unique.
pub open spec fn hashes_unique(s: Seq<Block>) -> bool {
    forall|i: int, j: int| 0 <= i < j < s.len() ==> s[i].hash != s[j].hash
}

/// Whether the cursor points at the highest stored height and matches that
/// block's identity exactly.
pub open spec fn cursor_at_tip(s: Seq<Block>, c: ChainCursor) -> bool {
    s.len() > 0 && c == ChainCursor::spec_at(s[s.len() - 1])
}

/// Whether `nb` extends the block `tip` as one contiguous chain: ascending
/// consecutive heights, each entry linked to its predecessor by parent hash.
pub open spec fn extends_chain(tip: Block, nb: Seq<Block>) -> bool {
    &&& forall|i: int| 0 <= i < nb.len() ==> #[trigger] nb[i].height == tip.height + i + 1
    &&& nb.len() > 0 ==> nb[0].parent_hash == tip.hash
    &&& forall|i: int| 1 <= i < nb.len() ==> #[trigger] nb[i].parent_hash == nb[i - 1].hash
}

/// Whether the hashes of `nb` are fresh: distinct from everything in
/// `retained` and from one another.
pub open spec fn fresh_hashes(retained: Seq<Block>, nb: Seq<Block>) -> bool {
    &&& forall|i: int, j: int|
        0 <= i < retained.len() && 0 <= j < nb.len() ==> retained[i].hash != nb[j].hash
    &&& hashes_unique(nb)
}

/// The local copy of the canonical chain: the stored blocks plus the cursor
/// that records the tip.  In a deployment the same contents live in the
/// durable store; the surrounding process mirrors each successful operation
/// there within one transaction.
pub struct ChainStore {
    blocks: Vec<Block>,
    cursor: ChainCursor,
}

impl ChainStore {
    /// The stored chain, lowest height first.
    pub closed spec fn spec_blocks(self) -> Seq<Block> {
        self.blocks@
    }

    /// The stored cursor.
    pub closed spec fn spec_cursor(self) -> ChainCursor {
        self.cursor
    }

    /// Height of the lowest stored block (the configured start height).
    pub open spec fn spec_base(self) -> int {
        self.spec_blocks()[0].height as int
    }

    /// The chain invariants: at least one block is stored, blocks form one
    /// contiguous chain with no gaps and unique hashes, and the cursor
    /// points at the stored tip.
    pub open spec fn wf(self) -> bool {
        &&& self.spec_blocks().len() > 0
        &&& chain_linked(self.spec_blocks())
        &&& no_gaps(self.spec_blocks())
        &&& hashes_unique(self.spec_blocks())
        &&& cursor_at_tip(self.spec_blocks(), self.spec_cursor())
    }

    /// Whether height `h` is stored.
    pub open spec fn covers(self, h: int) -> bool {
        self.spec_base() <= h <= self.spec_cursor().height
    }

    /// The stored block at height `h`.
    pub open spec fn block_at(self, h: int) -> Block {
        self.spec_blocks()[h - self.spec_base()]
    }

    /// Hash of the stored block at height `h`.
    pub open spec fn hash_at(self, h: int) -> BlockHash {
        self.block_at(h).hash
    }

    /// Whether some stored block carries hash `h`.
    pub open spec fn hash_present(self, h: BlockHash) -> bool {
        exists|i: int| 0 <= i < self.spec_blocks().len() && self.spec_blocks()[i].hash == h
    }

    /// Whether `b` may be appended: it links onto the tip and its hash is
    /// new to the store.
    pub open spec fn can_append(self, b: Block) -> bool {
        self.spec_cursor().spec_extends(b) && !self.hash_present(b.hash)
    }

    /// Whether `b` is already stored, hash and height agreeing.
    pub open spec fn already_applied(self, b: Block) -> bool {
        self.covers(b.height as int) && self.hash_at(b.height as int) == b.hash
    }

    /// Creates the store at first run, anchored at the starting block.
    pub fn new(anchor: Block) -> (s: ChainStore)
        ensures
            s.wf(),
            s.spec_blocks() =~= seq![anchor],
            s.spec_cursor() == ChainCursor::spec_at(anchor),
    {
        let cursor = ChainCursor::at_block(&anchor);
        let mut blocks: Vec<Block> = Vec::new();
        blocks.push(anchor);
        ChainStore { blocks, cursor }
    }

    /// Height of the lowest stored block.
    pub fn base(&self) -> (b: BlockHeight)
        requires
            self.wf(),
        ensures
            b == self.spec_base(),
    {
        self.blocks[0].height
    }

    /// Reads the cursor.
    pub fn cursor(&self) -> (c: ChainCursor)
        ensures
            c == self.spec_cursor(),
    {
        self.cursor
    }

    /// Number of stored blocks.
    pub fn len(&self) -> (n: usize)
        ensures
            n == self.spec_blocks().len(),
    {
        self.blocks.len()
    }

    /// The stored block at height `h`, or `None` when `h` is not stored.
    pub fn get_block(&self, h: BlockHeight) -> (r: Option<&Block>)
        requires
            self.wf(),
        ensures
            self.covers(h as int) ==> r == Some(&self.block_at(h as int)),
            !self.covers(h as int) ==> r is None,
    {
        let base = self.blocks[0].height;
        if h >= base && h <= self.cursor.height {
            proof {
                assert(self.spec_blocks()[self.spec_blocks().len() - 1].height
                    == self.spec_base() + self.spec_blocks().len() - 1);
            }
            let idx = (h - base) as usize;
            Some(&self.blocks[idx])
        } else {
            None
        }
    }

    /// Whether some stored block carries hash `h`.
    fn contains_hash(&self, h: BlockHash) -> (r: bool)
        ensures
            r == self.hash_present(h),
    {
        let mut i: usize = 0;
        while i < self.blocks.len()
            invariant
                i <= self.spec_blocks().len(),
                forall|k: int| 0 <= k < i ==> self.spec_blocks()[k].hash != h,
            decreases self.spec_blocks().len() - i,
        {
            if self.blocks[i].hash == h {
                return true;
            }
            i += 1;
        }
        false
    }

    /// The persister's first atomic operation: inserts `block` at the next
    /// height and advances the cursor, in one unit.
    ///
    /// Exactly one of three things happens.  A block that links onto the tip
    /// with a fresh hash is appended (`Committed`).  A block the store
    /// already holds, hash and height agreeing, changes nothing
    /// (`AlreadyApplied`) — re-running a commit is a no-op.  Anything else
    /// contradicts the chain shape and is refused (`Conflict`), leaving the
    /// store unchanged.
    pub fn commit(&mut self, block: Block) -> (r: Result<CommitOutcome, PersistError>)
        requires
            old(self).wf(),
        ensures
            final(self).wf(),
            old(self).can_append(block) ==> {
                &&& r == Ok::<CommitOutcome, PersistError>(CommitOutcome::Committed)
                &&& final(self).spec_blocks() == old(self).spec_blocks().push(block)
                &&& final(self).spec_cursor() == ChainCursor::spec_at(block)
            },
            old(self).already_applied(block) ==> {
                &&& r == Ok::<CommitOutcome, PersistError>(CommitOutcome::AlreadyApplied)
                &&& *final(self) == *old(self)
            },
            !old(self).can_append(block) && !old(self).already_applied(block) ==> {
                &&& r == Err::<CommitOutcome, PersistError>(PersistError::Conflict)
                &&& *final(self) == *old(self)
            },
    {
        proof {
            assert(self.spec_blocks()[self.spec_blocks().len() - 1].height
                == self.spec_base() + self.spec_blocks().len() - 1);
        }
        let base = self.blocks[0].height;
        if block.height >= base && block.height <= self.cursor.height {
            let idx = (block.height - base) as usize;
            if self.blocks[idx].hash == block.hash {
                Ok(CommitOutcome::AlreadyApplied)
            } else {
                proof {
                    assert(!self.can_append(block));
                }
                Err(PersistError::Conflict)
            }
        } else if block.parent_hash == self.cursor.hash && self.cursor.height < BlockHeight::MAX
            && block.height == self.cursor.height + 1 && !self.contains_hash(block.hash) {
            let ghost pre = *self;
            self.cursor = ChainCursor::at_block(&block);
            self.blocks.push(block);
            proof {
                assert(self.spec_blocks() == pre.spec_blocks().push(block));
                assert forall|i: int| 1 <= i < self.spec_blocks().len() implies self.spec_blocks()[i].parent_hash
                    == self.spec_blocks()[i - 1].hash by {
                    if i < pre.spec_blocks().len() {
                        assert(pre.spec_blocks()[i].parent_hash == pre.spec_blocks()[i - 1].hash);
                    }
                }
                assert(no_gaps(self.spec_blocks()));
                assert(hashes_unique(self.spec_blocks()));
            }
            Ok(CommitOutcome::Committed)
        } else {
            proof {
                assert(!self.can_append(block));
                assert(!self.already_applied(block));
            }
            Err(PersistError::Conflict)
        }
    }

    /// The persister's second atomic operation: deletes every stored block
    /// above `fork_point`, inserts `new_blocks` in ascending height order,
    /// and sets the cursor to the resulting tip — all in one unit.  On any
    /// refusal the store is left at its pre-operation state.
    pub fn rewind_and_commit(&mut self, fork_point: BlockHeight, new_blocks: Vec<Block>) -> (r:
        Result<(), PersistError>)
        requires
            old(self).wf(),
        ensures
            final(self).wf(),
            !old(self).covers(fork_point as int) ==> {
                &&& r == Err::<(), PersistError>(PersistError::InvalidTarget)
                &&& *final(self) == *old(self)
            },
            old(self).covers(fork_point as int) && !(extends_chain(
                old(self).block_at(fork_point as int),
                new_blocks@,
            ) && fresh_hashes(
                old(self).spec_blocks().subrange(
                    0,
                    fork_point - old(self).spec_base() + 1,
                ),
                new_blocks@,
            )) ==> {
                &&& r == Err::<(), PersistError>(PersistError::Conflict)
                &&& *final(self) == *old(self)
            },
            old(self).covers(fork_point as int) && extends_chain(
                old(self).block_at(fork_point as int),
                new_blocks@,
            ) && fresh_hashes(
                old(self).spec_blocks().subrange(
                    0,
                    fork_point - old(self).spec_base() + 1,
                ),
                new_blocks@,
            ) ==> {
                &&& r == Ok::<(), PersistError>(())
                &&& final(self).spec_blocks() == old(self).spec_blocks().subrange(
                    0,
                    fork_point - old(self).spec_base() + 1,
                ) + new_blocks@
                &&& final(self).spec_cursor() == (if new_blocks@.len() == 0 {
                    ChainCursor::spec_at(old(self).block_at(fork_point as int))
                } else {
                    ChainCursor::spec_at(new_blocks@[new_blocks@.len() - 1])
                })
            },
    {
        proof {
            assert(self.spec_blocks()[self.spec_blocks().len() - 1].height
                == self.spec_base() + self.spec_blocks().len() - 1);
        }
        let base = self.blocks[0].height;
        if fork_point < base || fork_point > self.cursor.height {
            return Err(PersistError::InvalidTarget);
        }
        let n = self.blocks.len();
        proof {
            assert(fork_point >= base);
            assert(fork_point - base < n);
        }
        let keep_idx = (fork_point - base) as usize;
        let keep = keep_idx + 1;
        let ghost retained = self.spec_blocks().subrange(0, keep as int);

        // Validate the whole batch before touching anything: linkage onto the
        // fork block and hash freshness.
        if !self.batch_links(keep, &new_blocks) {
            return Err(PersistError::Conflict);
        }
        if !self.batch_hashes_fresh(keep, &new_blocks) {
            return Err(PersistError::Conflict);
        }

        let ghost pre = *self;
        self.blocks.truncate(keep);
        let mut nb = new_blocks;
        self.blocks.append(&mut nb);
        if self.blocks.len() > 0 {
            let tip_idx = self.blocks.len() - 1;
            self.cursor = ChainCursor::at_block(&self.blocks[tip_idx]);
        }
        proof {
            let now = self.spec_blocks();
            assert(now == retained + new_blocks@);
            assert(now[0] == pre.spec_blocks()[0]);
            assert forall|i: int| 1 <= i < now.len() implies now[i].parent_hash == now[i
                - 1].hash by {
                if i < keep {
                    assert(pre.spec_blocks()[i].parent_hash == pre.spec_blocks()[i - 1].hash);
                } else {
                    assert(extends_chain(pre.block_at(fork_point as int), new_blocks@));
                    assert(now[i] == new_blocks@[i - keep]);
                }
            }
            assert forall|i: int| 0 <= i < now.len() implies #[trigger] now[i].height
                == now[0].height + i by {
                if i < keep {
                    assert(pre.spec_blocks()[i].height == pre.spec_blocks()[0].height + i);
                } else {
                    assert(now[i] == new_blocks@[i - keep]);
                    assert(new_blocks@[i - keep].height == pre.block_at(fork_point as int).height
                        + (i - keep) + 1);
                    assert(pre.block_at(fork_point as int).height == pre.spec_blocks()[0].height
                        + (keep - 1));
                }
            }
            assert forall|i: int, j: int| 0 <= i < j < now.len() implies now[i].hash
                != now[j].hash by {
                if j < keep {
                    assert(pre.spec_blocks()[i].hash != pre.spec_blocks()[j].hash);
                } else if i < keep {
                    assert(retained[i].hash != new_blocks@[j - keep].hash);
                } else {
                    assert(new_blocks@[i - keep].hash != new_blocks@[j - keep].hash);
                }
            }
            assert(cursor_at_tip(now, self.spec_cursor()));
        }
        Ok(())
    }

    /// Whether `nb` links, in ascending consecutive heights, onto the stored
    /// block at index `keep - 1`.
    #[verifier::rlimit(50)]
    fn batch_links(&self, keep: usize, nb: &Vec<Block>) -> (r: bool)
        requires
            self.wf(),
            1 <= keep <= self.spec_blocks().len(),
        ensures
            r == extends_chain(self.spec_blocks()[keep - 1], nb@),
    {
        let ghost fork = self.spec_blocks()[keep - 1];
        let mut prev_height: BlockHeight = self.blocks[keep - 1].height;
        let mut prev_hash: BlockHash = self.blocks[keep - 1].hash;
        let mut i: usize = 0;
        while i < nb.len()
            invariant
                i <= nb@.len(),
                1 <= keep <= self.spec_blocks().len(),
                fork == self.spec_blocks()[keep - 1],
                prev_height == fork.height + i,
                prev_hash == (if i == 0 {
                    fork.hash
                } else {
                    nb@[i - 1].hash
                }),
                forall|k: int| 0 <= k < i ==> #[trigger] nb@[k].height == fork.height + k + 1,
                i > 0 ==> nb@[0].parent_hash == fork.hash,
                forall|k: int| 1 <= k < i ==> #[trigger] nb@[k].parent_hash == nb@[k - 1].hash,
            decreases nb@.len() - i,
        {
            let linked = nb[i].parent_hash == prev_hash && prev_height < BlockHeight::MAX
                && nb[i].height == prev_height + 1;
            if !linked {
                proof {
                    assert(!extends_chain(fork, nb@)) by {
                        if extends_chain(fork, nb@) {
                            assert(nb@[i as int].height == fork.height + i + 1);
                            if i == 0 {
                                assert(nb@[0].parent_hash == fork.hash);
                            } else {
                                assert(nb@[i as int].parent_hash == nb@[i - 1].hash);
                            }
                        }
                    }
                }
                return false;
            }
            prev_height = nb[i].height;
            prev_hash = nb[i].hash;
            i += 1;
        }
        proof {
            assert(extends_chain(fork, nb@));
        }
        true
    }

    /// Whether every hash in `nb` is new: absent from the first `keep`
    /// stored blocks and from the earlier entries of `nb` itself.
    fn batch_hashes_fresh(&self, keep: usize, nb: &Vec<Block>) -> (r: bool)
        requires
            keep <= self.spec_blocks().len(),
        ensures
            r == fresh_hashes(self.spec_blocks().subrange(0, keep as int), nb@),
    {
        let ghost retained = self.spec_blocks().subrange(0, keep as int);
        let mut j: usize = 0;
        while j < nb.len()
            invariant
                j <= nb@.len(),
                keep <= self.spec_blocks().len(),
                retained == self.spec_blocks().subrange(0, keep as int),
                forall|a: int, b: int|
                    0 <= a < retained.len() && 0 <= b < j ==> retained[a].hash != nb@[b].hash,
                forall|a: int, b: int| 0 <= a < b < j ==> nb@[a].hash != nb@[b].hash,
            decreases nb@.len() - j,
        {
            let h = nb[j].hash;
            let mut a: usize = 0;
            while a < keep
                invariant
                    a <= keep,
                    keep <= self.spec_blocks().len(),
                    retained == self.spec_blocks().subrange(0, keep as int),
                    h == nb@[j as int].hash,
                    j < nb@.len(),
                    forall|k: int| 0 <= k < a ==> retained[k].hash != h,
                decreases keep - a,
            {
                if self.blocks[a].hash == h {
                    proof {
                        assert(retained[a as int].hash == nb@[j as int].hash);
                        assert(!fresh_hashes(retained, nb@));
                    }
                    return false;
                }
                a += 1;
            }
            let mut b: usize = 0;
            while b < j
                invariant
                    b <= j < nb@.len(),
                    keep <= self.spec_blocks().len(),
                    retained == self.spec_blocks().subrange(0, keep as int),
                    h == nb@[j as int].hash,
                    forall|k: int| 0 <= k < b ==> nb@[k].hash != h,
                decreases j - b,
            {
                if nb[b].hash == h {
                    proof {
                        assert(nb@[b as int].hash == nb@[j as int].hash);
                        assert(!fresh_hashes(retained, nb@));
                    }
                    return false;
                }
                b += 1;
            }
            j += 1;
        }
        proof {
            assert(fresh_hashes(retained, nb@));
        }
        true
    }
}

/// After a successful commit of `b`, committing `b` again meets the
/// already-applied condition and not the append condition: the repeat is a
/// no-op that leaves the store unchanged and appends no duplicate row.
pub proof fn lemma_commit_reapply(s0: ChainStore, s1: ChainStore, b: Block)
    requires
        s0.wf(),
        s1.wf(),
        s0.can_append(b),
        s1.spec_blocks() == s0.spec_blocks().push(b),
        s1.spec_cursor() == ChainCursor::spec_at(b),
    ensures
        s1.already_applied(b),
        !s1.can_append(b),
{
    assert(s0.spec_blocks()[s0.spec_blocks().len() - 1].height == s0.spec_blocks()[0].height
        + s0.spec_blocks().len() - 1);
    assert(s1.spec_blocks()[s1.spec_blocks().len() - 1] == b);
    assert(s1.spec_blocks()[0] == s0.spec_blocks()[0]);
    assert(s1.spec_blocks()[s1.spec_blocks().len() - 1].height == s1.spec_blocks()[0].height
        + s1.spec_blocks().len() - 1);
    assert(s1.block_at(b.height as int) == b);
}

} // verus!

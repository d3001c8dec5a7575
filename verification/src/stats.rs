use vstd::prelude::*;
use vstd::relations::{sorted_by, total_ordering};
use vstd::seq_lib::lemma_sorted_unique;
use crate::chain::{Block, FeeSpan, RawBlock, blocks_agree, coinbase_eq};

verus! {

/// The total order by which transaction fees are ranked.
pub open spec fn fee_leq() -> spec_fn(u64, u64) -> bool {
    |x: u64, y: u64| x <= y
}

pub proof fn lemma_fee_leq_total_ordering()
    ensures
        total_ordering(fee_leq()),
{
}

/// The fee list in ascending order.
pub open spec fn spec_sorted_fees(fees: Seq<u64>) -> Seq<u64> {
    fees.sort_by(fee_leq())
}

/// Exact (unbounded) sum of a fee list.
pub open spec fn spec_fee_sum(fees: Seq<u64>) -> int
    decreases fees.len(),
{
    if fees.len() == 0 {
        0
    } else {
        spec_fee_sum(fees.drop_last()) + fees.last()
    }
}

/// Sum of a fee list as stored in a block: saturated at `u64::MAX`.
pub open spec fn spec_fee_total(fees: Seq<u64>) -> u64 {
    if spec_fee_sum(fees) > u64::MAX { u64::MAX } else { spec_fee_sum(fees) as u64 }
}

/// A sum of unsigned fees is never negative.
pub proof fn lemma_fee_sum_nonneg(fees: Seq<u64>)
    ensures
        spec_fee_sum(fees) >= 0,
    decreases fees.len(),
{
    if fees.len() > 0 {
        lemma_fee_sum_nonneg(fees.drop_last());
    }
}

/// Nearest-rank index of percentile `p` in a list of length `len`.
pub open spec fn spec_rank(len: int, p: int) -> int {
    ((len - 1) * p) / 100
}

/// The fee span of a block whose non-coinbase transactions paid `fees`:
/// minimum, maximum, and quartiles of the sorted fee list.  Degenerate
/// (all zero) when the list is empty.
pub open spec fn spec_fee_span(fees: Seq<u64>) -> FeeSpan {
    let s = spec_sorted_fees(fees);
    if fees.len() == 0 {
        FeeSpan { min_fee: 0, max_fee: 0, p25: 0, p50: 0, p75: 0 }
    } else {
        FeeSpan {
            min_fee: s[0],
            max_fee: s[s.len() - 1],
            p25: s[spec_rank(s.len() as int, 25)],
            p50: s[spec_rank(s.len() as int, 50)],
            p75: s[spec_rank(s.len() as int, 75)],
        }
    }
}

/// The median fee of a block, consistent with its fee span.
pub open spec fn spec_median_fee(fees: Seq<u64>) -> u64 {
    spec_fee_span(fees).p50
}

/// The block that `StatsComputer::compute` derives from `raw`: the raw
/// fields carried over unchanged, with the fee aggregates derived from the
/// non-coinbase fee list.
pub open spec fn spec_computed(raw: RawBlock, b: Block) -> bool {
    &&& b.height == raw.header.height
    &&& b.hash == raw.header.hash
    &&& b.parent_hash == raw.header.parent_hash
    &&& b.created_at == raw.created_at
    &&& b.size == raw.size
    &&& b.weight == raw.weight
    &&& b.tx_count == raw.tx_count
    &&& coinbase_eq(b.coinbase_raw, raw.coinbase_raw)
    &&& b.difficulty == raw.difficulty
    &&& b.pool_id == raw.pool_id
    &&& b.fees == spec_fee_total(raw.tx_fees@)
    &&& b.fee_span == spec_fee_span(raw.tx_fees@)
    &&& b.median_fee == spec_median_fee(raw.tx_fees@)
}

/// Copies a byte payload.
fn clone_bytes(v: &Vec<u8>) -> (r: Vec<u8>)
    ensures
        r@ == v@,
{
    let mut r: Vec<u8> = Vec::new();
    let mut i: usize = 0;
    while i < v.len()
        invariant
            i <= v@.len(),
            r@ =~= v@.subrange(0, i as int),
        decreases v@.len() - i,
    {
        r.push(v[i]);
        proof {
            assert(r@ =~= v@.subrange(0, i + 1));
        }
        i += 1;
    }
    proof {
        assert(r@ =~= v@);
    }
    r
}

/// Sorts a fee list ascending by repeated insertion.
fn sorted_fees(fees: &Vec<u64>) -> (r: Vec<u64>)
    ensures
        r@ == spec_sorted_fees(fees@),
        r@.len() == fees@.len(),
{
    broadcast use vstd::seq_lib::to_multiset_insert;
    broadcast use vstd::seq_lib::to_multiset_build;
    broadcast use vstd::seq_lib::to_multiset_len;

    let mut out: Vec<u64> = Vec::new();
    let mut i: usize = 0;
    proof {
        assert(out@ =~= fees@.subrange(0, 0));
    }
    while i < fees.len()
        invariant
            i <= fees.len(),
            out@.len() == i,
            sorted_by(out@, fee_leq()),
            out@.to_multiset() == fees@.subrange(0, i as int).to_multiset(),
        decreases fees.len() - i,
    {
        let x = fees[i];
        let mut pos: usize = 0;
        while pos < out.len() && out[pos] <= x
            invariant
                pos <= out@.len(),
                sorted_by(out@, fee_leq()),
                forall|k: int| 0 <= k < pos ==> out@[k] <= x,
            decreases out@.len() - pos,
        {
            pos += 1;
        }
        proof {
            assert forall|k: int| pos <= k < out@.len() implies x < out@[k] by {
                assert(!(pos < out@.len() && out@[pos as int] <= x));
                assert(x < out@[pos as int]);
                if k > pos {
                    assert(fee_leq()(out@[pos as int], out@[k]));
                }
            }
            assert(sorted_by(out@.insert(pos as int, x), fee_leq())) by {
                let s = out@.insert(pos as int, x);
                assert forall|a: int, b: int| 0 <= a < b < s.len() implies #[trigger] fee_leq()(
                    s[a],
                    s[b],
                ) by {
                    if a < pos && b < pos {
                        assert(fee_leq()(out@[a], out@[b]));
                    } else if a > pos && b > pos {
                        assert(fee_leq()(out@[a - 1], out@[b - 1]));
                    } else if b == pos {
                        assert(s[a] == out@[a] && s[b] == x);
                    } else if a == pos {
                        assert(s[a] == x && s[b] == out@[b - 1]);
                    } else {
                        assert(fee_leq()(out@[a], out@[b - 1]));
                    }
                }
            }
            assert(fees@.subrange(0, i + 1) =~= fees@.subrange(0, i as int).push(fees@[i as int]));
        }
        let ghost prev = out@;
        out.insert(pos, x);
        proof {
            vstd::seq_lib::to_multiset_insert(prev, pos as int, x);
            assert(out@.to_multiset() == prev.to_multiset().insert(x));
            vstd::seq_lib::to_multiset_build(fees@.subrange(0, i as int), x);
            assert(fees@.subrange(0, i + 1).to_multiset() =~= fees@.subrange(
                0,
                i as int,
            ).to_multiset().insert(x));
        }
        i += 1;
    }
    proof {
        assert(fees@.subrange(0, fees@.len() as int) =~= fees@);
        lemma_fee_leq_total_ordering();
        fees@.lemma_sort_by_ensures(fee_leq());
        lemma_sorted_unique(out@, fees@.sort_by(fee_leq()), fee_leq());
        assert(out@ =~= spec_sorted_fees(fees@));
        vstd::seq_lib::to_multiset_len(fees@);
        vstd::seq_lib::to_multiset_len(spec_sorted_fees(fees@));
    }
    out
}

/// Sums a fee list, saturating at `u64::MAX`.
fn fee_total(fees: &Vec<u64>) -> (t: u64)
    ensures
        t == spec_fee_total(fees@),
{
    let mut acc: u64 = 0;
    let mut i: usize = 0;
    while i < fees.len()
        invariant
            i <= fees.len(),
            acc == spec_fee_total(fees@.subrange(0, i as int)),
        decreases fees.len() - i,
    {
        let f = fees[i];
        let ghost pre = fees@.subrange(0, i as int);
        let ghost post = fees@.subrange(0, i + 1);
        proof {
            assert(post.drop_last() =~= pre);
            assert(post.last() == f);
            assert(spec_fee_sum(post) == spec_fee_sum(pre) + f);
            lemma_fee_sum_nonneg(pre);
        }
        if acc > u64::MAX - f {
            proof {
                if spec_fee_sum(pre) <= u64::MAX {
                    assert(acc == spec_fee_sum(pre));
                }
                assert(spec_fee_sum(post) > u64::MAX);
                assert(spec_fee_total(post) == u64::MAX);
            }
            acc = u64::MAX;
        } else {
            proof {
                if spec_fee_sum(pre) > u64::MAX {
                    assert(acc == u64::MAX);
                    assert(f == 0);
                }
                assert(spec_fee_total(post) == acc + f);
            }
            acc = acc + f;
        }
        i += 1;
        proof {
            assert(post =~= fees@.subrange(0, i as int));
            assert(acc == spec_fee_total(fees@.subrange(0, i as int)));
        }
    }
    proof {
        assert(fees@.subrange(0, fees@.len() as int) =~= fees@);
    }
    acc
}

/// Nearest-rank index of percentile `p` in a sorted list of length `len`.
fn rank_index(len: usize, p: u64) -> (i: usize)
    requires
        1 <= len,
        p <= 100,
    ensures
        i == spec_rank(len as int, p as int),
        i < len,
    {
    proof {
        assert((len - 1) * (p as int) <= (len - 1) * 100 && ((len - 1) * (p as int)) / 100 <= len
            - 1) by (nonlinear_arith)
            requires
                1 <= len,
                p <= 100,
        ;
    }
    let idx: u128 = ((len - 1) as u128) * (p as u128) / 100;
    idx as usize
}

/// Derives per-block statistics from raw block data.  A pure function of its
/// argument: repeated computation, for example during replay after a rewind,
/// is safe.
pub struct StatsComputer;

impl StatsComputer {
    /// Builds the persistable block for `raw`.  Every derived field is a
    /// function of `raw` alone, stated exactly by `spec_computed`.
    pub fn compute(raw: &RawBlock) -> (b: Block)
        ensures
            spec_computed(*raw, b),
    {
        let coinbase_raw: Option<Vec<u8>> = match &raw.coinbase_raw {
            Some(v) => Some(clone_bytes(v)),
            None => None,
        };
        let fees = fee_total(&raw.tx_fees);
        let sorted = sorted_fees(&raw.tx_fees);
        let fee_span: FeeSpan = if sorted.len() == 0 {
            FeeSpan { min_fee: 0, max_fee: 0, p25: 0, p50: 0, p75: 0 }
        } else {
            FeeSpan {
                min_fee: sorted[0],
                max_fee: sorted[sorted.len() - 1],
                p25: sorted[rank_index(sorted.len(), 25)],
                p50: sorted[rank_index(sorted.len(), 50)],
                p75: sorted[rank_index(sorted.len(), 75)],
            }
        };
        Block {
            height: raw.header.height,
            hash: raw.header.hash,
            parent_hash: raw.header.parent_hash,
            created_at: raw.created_at,
            size: raw.size,
            weight: raw.weight,
            tx_count: raw.tx_count,
            coinbase_raw,
            difficulty: raw.difficulty,
            pool_id: raw.pool_id,
            fees,
            fee_span,
            median_fee: fee_span.p50,
        }
    }
}

/// Statistics computation is deterministic: any two blocks derived from the
/// same raw block agree on every field.
pub proof fn lemma_compute_deterministic(raw: RawBlock, b1: Block, b2: Block)
    requires
        spec_computed(raw, b1),
        spec_computed(raw, b2),
    ensures
        blocks_agree(b1, b2),
{
}

} // verus!

//! The work partitioner: splits the first axis of a work domain across
//! queues in proportion to their weights. Division truncates, the last
//! queue absorbs the rounding remainder, and idle queues are skipped.
use vstd::prelude::*;

use vstd::arithmetic::div_mod::{lemma_fundamental_div_mod, lemma_mod_bound, lemma_multiply_divide_le};
use vstd::arithmetic::mul::{
    lemma_mul_inequality, lemma_mul_is_commutative, lemma_mul_is_distributive_add_other_way,
    lemma_mul_upper_bound,
};

verus! {

/// One per-queue submission produced by the partitioner: the slice
/// `[offset, offset + size)` of the first axis that the queue runs.
#[derive(Debug, Clone, Copy, PartialEq, Eq, Structural)]
pub struct WorkChunk {
    pub queue_index: usize,
    pub offset: usize,
    pub size: usize,
}

/// Total of a weight list.
pub open spec fn sum_weights(w: Seq<u64>) -> nat
    decreases w.len(),
{
    if w.len() == 0 {
        0
    } else {
        (sum_weights(w.drop_last()) + w.last()) as nat
    }
}

/// The weighted share of one queue, rounded down. A total weight of zero
/// gives no share; the remainder rule below then hands everything to the
/// last queue.
pub open spec fn prelim_chunk(size: nat, weight: nat, total: nat) -> nat {
    if total == 0 {
        0
    } else {
        size * weight / total
    }
}

/// Sum of the weighted shares of the first `k` queues.
pub open spec fn sum_prelim(size: nat, w: Seq<u64>, k: int) -> nat
    decreases k,
{
    if k <= 0 {
        0
    } else {
        sum_prelim(size, w, k - 1) + prelim_chunk(size, w[k - 1] as nat, sum_weights(w))
    }
}

/// The chunk queue `i` receives: its weighted share, except that the last
/// queue takes the whole remainder.
pub open spec fn chunk_of(size: nat, w: Seq<u64>, i: int) -> nat {
    if i == w.len() - 1 {
        (size - sum_prelim(size, w, i)) as nat
    } else {
        prelim_chunk(size, w[i] as nat, sum_weights(w))
    }
}

/// The submissions for queues `i` and on: one chunk per queue, skipping
/// queues whose chunk is empty, each placed after the shares of the queues
/// before it.
pub open spec fn spec_partition_from(offset0: int, size: nat, w: Seq<u64>, i: int) -> Seq<
    WorkChunk,
>
    decreases w.len() - i,
    when 0 <= i <= w.len()
{
    if i >= w.len() {
        Seq::empty()
    } else {
        let c = chunk_of(size, w, i);
        let rest = spec_partition_from(offset0, size, w, i + 1);
        if c > 0 {
            seq![
                WorkChunk {
                    queue_index: i as usize,
                    offset: (offset0 + sum_prelim(size, w, i)) as usize,
                    size: c as usize,
                },
            ] + rest
        } else {
            rest
        }
    }
}

/// The full partition of `[offset0, offset0 + size)` across the queues.
/// Zero-size work yields no submissions at all.
pub open spec fn spec_partition(offset0: int, size: nat, w: Seq<u64>) -> Seq<WorkChunk> {
    if size == 0 {
        Seq::empty()
    } else {
        spec_partition_from(offset0, size, w, 0)
    }
}

/// Sum of the chunk sizes of a submission list.
pub open spec fn sum_chunk_sizes(chunks: Seq<WorkChunk>) -> int
    decreases chunks.len(),
{
    if chunks.len() == 0 {
        0
    } else {
        sum_chunk_sizes(chunks.drop_last()) + chunks.last().size
    }
}

/// No single weight exceeds the total.
proof fn lemma_weight_le_sum(w: Seq<u64>, i: int)
    requires
        0 <= i < w.len(),
    ensures
        w[i] <= sum_weights(w),
    decreases w.len(),
{
    if i == w.len() - 1 {
        assert(w.last() == w[i]);
    } else {
        lemma_weight_le_sum(w.drop_last(), i);
        assert(w.drop_last()[i] == w[i]);
    }
}

/// One weighted share never exceeds the whole size.
proof fn lemma_prelim_le_size(size: nat, w: Seq<u64>, i: int)
    requires
        0 <= i < w.len(),
    ensures
        prelim_chunk(size, w[i] as nat, sum_weights(w)) <= size,
{
    let total = sum_weights(w);
    if total > 0 {
        lemma_weight_le_sum(w, i);
        lemma_mul_inequality(w[i] as int, total as int, size as int);
        lemma_mul_is_commutative(size as int, w[i] as int);
        lemma_mul_is_commutative(size as int, total as int);
        lemma_multiply_divide_le((size * (w[i] as nat)) as int, total as int, size as int);
    }
}

/// Totals of prefixes never exceed the whole total.
proof fn lemma_sum_weights_prefix(w: Seq<u64>, k: int)
    requires
        0 <= k <= w.len(),
    ensures
        sum_weights(w.take(k)) <= sum_weights(w),
    decreases w.len() - k,
{
    if k == w.len() {
        assert(w.take(k) =~= w);
    } else {
        lemma_sum_weights_prefix(w, k + 1);
        assert(w.take(k + 1).drop_last() =~= w.take(k));
        assert(w.take(k + 1).last() == w[k]);
    }
}

/// Scaled by the total weight, the first `k` shares stay below the size
/// scaled by the first `k` weights.
proof fn lemma_sum_prelim_scaled(size: nat, w: Seq<u64>, k: int)
    requires
        0 <= k <= w.len(),
    ensures
        sum_weights(w) * sum_prelim(size, w, k) <= size * sum_weights(w.take(k)),
    decreases k,
{
    let total = sum_weights(w);
    if k == 0 {
        assert(sum_prelim(size, w, 0) == 0);
        assert(w.take(0) =~= Seq::<u64>::empty());
        assert(sum_weights(w.take(0)) == 0);
        assert(total * 0 <= size * 0) by (nonlinear_arith);
    } else {
        lemma_sum_prelim_scaled(size, w, k - 1);
        let p = prelim_chunk(size, w[k - 1] as nat, total);
        assert(w.take(k).drop_last() =~= w.take(k - 1));
        assert(w.take(k).last() == w[k - 1]);
        assert(sum_weights(w.take(k)) == sum_weights(w.take(k - 1)) + w[k - 1]);
        assert(sum_prelim(size, w, k) == sum_prelim(size, w, k - 1) + p);
        if total == 0 {
            assert(p == 0);
        } else {
            // total * (size * w[k-1] / total) <= size * w[k-1]
            lemma_fundamental_div_mod((size * (w[k - 1] as nat)) as int, total as int);
            lemma_mod_bound((size * (w[k - 1] as nat)) as int, total as int);
        }
        assert(total * p <= size * (w[k - 1] as nat)) by (nonlinear_arith)
            requires
                total == 0 ==> p == 0,
                total != 0 ==> total * p <= size * (w[k - 1] as nat),
                0 <= size,
                0 <= w[k - 1],
        ;
        assert(total * sum_prelim(size, w, k) <= size * sum_weights(w.take(k)))
            by (nonlinear_arith)
            requires
                total * sum_prelim(size, w, k - 1) <= size * sum_weights(w.take(k - 1)),
                total * p <= size * (w[k - 1] as nat),
                sum_prelim(size, w, k) == sum_prelim(size, w, k - 1) + p,
                sum_weights(w.take(k)) == sum_weights(w.take(k - 1)) + w[k - 1],
        ;
    }
}

/// The first `k` shares together never exceed the size.
proof fn lemma_sum_prelim_le_size(size: nat, w: Seq<u64>, k: int)
    requires
        0 <= k <= w.len(),
    ensures
        sum_prelim(size, w, k) <= size,
    decreases k,
{
    let total = sum_weights(w);
    if total == 0 {
        if k > 0 {
            lemma_sum_prelim_le_size(size, w, k - 1);
        }
    } else {
        lemma_sum_prelim_scaled(size, w, k);
        lemma_sum_weights_prefix(w, k);
        assert(sum_prelim(size, w, k) <= size) by (nonlinear_arith)
            requires
                total * sum_prelim(size, w, k) <= size * sum_weights(w.take(k)),
                sum_weights(w.take(k)) <= total,
                0 < total,
                0 <= size,
                0 <= sum_prelim(size, w, k),
        ;
    }
}

/// The submissions from queue `i` on cover exactly what the first `i`
/// shares left over.
proof fn lemma_partition_from_covers(offset0: int, size: nat, w: Seq<u64>, i: int)
    requires
        0 <= i < w.len(),
        size <= usize::MAX,
    ensures
        sum_chunk_sizes(spec_partition_from(offset0, size, w, i)) == size - sum_prelim(
            size,
            w,
            i,
        ),
    decreases w.len() - i,
{
    lemma_sum_prelim_le_size(size, w, i);
    let c = chunk_of(size, w, i);
    let rest = spec_partition_from(offset0, size, w, i + 1);
    let whole = spec_partition_from(offset0, size, w, i);
    if i == w.len() - 1 {
        assert(rest =~= Seq::<WorkChunk>::empty());
        assert(sum_chunk_sizes(rest) == 0);
        if c > 0 {
            assert(c <= size <= usize::MAX);
            assert(c as usize as int == c);
            lemma_sum_first_plus_rest(whole);
            assert(whole.drop_first() =~= rest);
            assert(whole[0].size == c as usize);
        }
    } else {
        lemma_partition_from_covers(offset0, size, w, i + 1);
        lemma_prelim_le_size(size, w, i);
        assert(sum_prelim(size, w, i + 1) == sum_prelim(size, w, i) + c);
        lemma_sum_prelim_le_size(size, w, i + 1);
        if c > 0 {
            assert(c <= size <= usize::MAX);
            assert(c as usize as int == c);
            lemma_sum_first_plus_rest(whole);
            assert(whole.drop_first() =~= rest);
            assert(whole[0].size == c as usize);
        }
    }
}

/// Splitting off the head of a submission list splits its size total.
proof fn lemma_sum_first_plus_rest(chunks: Seq<WorkChunk>)
    requires
        chunks.len() >= 1,
    ensures
        sum_chunk_sizes(chunks) == chunks[0].size + sum_chunk_sizes(chunks.drop_first()),
    decreases chunks.len(),
{
    if chunks.len() == 1 {
        assert(chunks.drop_last() =~= Seq::<WorkChunk>::empty());
        assert(chunks.drop_first() =~= Seq::<WorkChunk>::empty());
    } else {
        lemma_sum_first_plus_rest(chunks.drop_last());
        assert(chunks.drop_last()[0] == chunks[0]);
        assert(chunks.drop_first().drop_last() =~= chunks.drop_last().drop_first());
        assert(chunks.drop_first().last() == chunks.last());
    }
}

/// The coverage law of the partitioner: for work of any size, the chunks
/// handed out sum to exactly the first-axis size — the remainder is never
/// dropped — and every chunk is a nonempty slice of
/// `[offset0, offset0 + size)` on a real queue, later chunks further right.
pub proof fn lemma_partition_covers(offset0: int, size: nat, w: Seq<u64>)
    requires
        0 <= offset0,
        0 < w.len() <= usize::MAX,
        offset0 + size <= usize::MAX,
    ensures
        sum_chunk_sizes(spec_partition(offset0, size, w)) == size,
        forall|j: int|
            0 <= j < spec_partition(offset0, size, w).len() ==> {
                let c = #[trigger] spec_partition(offset0, size, w)[j];
                &&& c.size > 0
                &&& offset0 <= c.offset
                &&& c.offset + c.size <= offset0 + size
                &&& c.queue_index < w.len()
            },
{
    if size > 0 {
        lemma_partition_from_covers(offset0, size, w, 0);
        lemma_partition_from_bounds(offset0, size, w, 0);
    }
}

/// Every submission from queue `i` on is a nonempty in-range slice.
proof fn lemma_partition_from_bounds(offset0: int, size: nat, w: Seq<u64>, i: int)
    requires
        0 <= offset0,
        0 <= i <= w.len(),
        w.len() <= usize::MAX,
        offset0 + size <= usize::MAX,
    ensures
        forall|j: int|
            0 <= j < spec_partition_from(offset0, size, w, i).len() ==> {
                let c = #[trigger] spec_partition_from(offset0, size, w, i)[j];
                &&& c.size > 0
                &&& offset0 <= c.offset
                &&& c.offset + c.size <= offset0 + size
                &&& i <= c.queue_index < w.len()
            },
    decreases w.len() - i,
{
    if i < w.len() {
        lemma_partition_from_bounds(offset0, size, w, i + 1);
        let c = chunk_of(size, w, i);
        let rest = spec_partition_from(offset0, size, w, i + 1);
        let whole = spec_partition_from(offset0, size, w, i);
        if c > 0 {
            lemma_sum_prelim_le_size(size, w, i);
            if i == w.len() - 1 {
                assert(sum_prelim(size, w, i) + c == size);
            } else {
                assert(sum_prelim(size, w, i + 1) == sum_prelim(size, w, i) + c);
                lemma_sum_prelim_le_size(size, w, i + 1);
            }
            assert(c <= size);
            assert(0 <= offset0 + sum_prelim(size, w, i) <= usize::MAX);
            let elem = WorkChunk {
                queue_index: i as usize,
                offset: (offset0 + sum_prelim(size, w, i)) as usize,
                size: c as usize,
            };
            assert(whole =~= seq![elem] + rest);
            assert(whole[0] == elem);
            assert(elem.size == c && elem.offset == offset0 + sum_prelim(size, w, i)
                && elem.queue_index == i);
            assert(forall|j: int| 1 <= j < whole.len() ==> #[trigger] whole[j] == rest[j - 1]);
        } else {
            assert(whole =~= rest);
        }
    }
}

/// The collapse law: a single queue receives the whole domain in one chunk.
pub proof fn lemma_partition_single_queue(offset0: int, size: nat, w: Seq<u64>)
    requires
        0 <= offset0,
        offset0 + size <= usize::MAX,
        w.len() == 1,
        size > 0,
    ensures
        spec_partition(offset0, size, w) =~= seq![
            WorkChunk { queue_index: 0, offset: offset0 as usize, size: size as usize },
        ],
{
    assert(chunk_of(size, w, 0) == size);
    assert(spec_partition_from(offset0, size, w, 1) =~= Seq::<WorkChunk>::empty());
}

/// The remainder law: the last queue's chunk is exactly the whole size less
/// the weighted shares handed to the queues before it.
pub proof fn lemma_partition_last_remainder(size: nat, w: Seq<u64>)
    requires
        w.len() > 0,
    ensures
        chunk_of(size, w, w.len() - 1) == size - sum_prelim(size, w, w.len() - 1),
        sum_prelim(size, w, w.len() - 1) <= size,
{
    lemma_sum_prelim_le_size(size, w, w.len() - 1);
}

/// Adds up a weight list without overflow.
fn total_weight(weights: &Vec<u64>) -> (r: u128)
    ensures
        r == sum_weights(weights@),
{
    let mut total: u128 = 0;
    let mut i: usize = 0;
    while i < weights.len()
        invariant
            i <= weights.len(),
            total == sum_weights(weights@.take(i as int)),
            total <= (i as int) * (u64::MAX as int),
        decreases weights.len() - i,
    {
        proof {
            assert(weights@.take(i + 1).drop_last() =~= weights@.take(i as int));
            assert(weights@.take(i + 1).last() == weights@[i as int]);
            lemma_mul_is_distributive_add_other_way(u64::MAX as int, i as int, 1);
            lemma_mul_inequality(i + 1, usize::MAX as int, u64::MAX as int);
            lemma_mul_is_commutative(i + 1, u64::MAX as int);
            lemma_mul_is_commutative(usize::MAX as int, u64::MAX as int);
        }
        total = total + weights[i] as u128;
        i = i + 1;
    }
    proof {
        assert(weights@.take(weights@.len() as int) =~= weights@);
    }
    total
}

/// Splits `[global_offset, global_offset + global_size)` across the queues
/// in proportion to their weights, exactly as `spec_partition` lays it out:
/// each queue's share is `size * weight / total` rounded down, the last
/// queue absorbs the remainder, queues with an empty share are skipped, and
/// zero-size work produces no submissions.
pub fn partition_work(global_offset: usize, global_size: usize, weights: &Vec<u64>) -> (r: Vec<
    WorkChunk,
>)
    requires
        global_offset + global_size <= usize::MAX,
    ensures
        r@ == spec_partition(global_offset as int, global_size as nat, weights@),
{
    let mut r: Vec<WorkChunk> = Vec::new();
    if global_size == 0 {
        proof {
            assert(r@ =~= spec_partition(global_offset as int, global_size as nat, weights@));
        }
        return r;
    }
    let total: u128 = total_weight(weights);
    let n: usize = weights.len();
    let mut current_offset: usize = global_offset;
    let mut i: usize = 0;
    let ghost size_n: nat = global_size as nat;
    let ghost w: Seq<u64> = weights@;
    while i < n
        invariant
            n == w.len(),
            w == weights@,
            size_n == global_size as nat,
            global_size > 0,
            global_offset + global_size <= usize::MAX,
            total == sum_weights(w),
            0 <= i <= n,
            i < n ==> current_offset == global_offset + sum_prelim(size_n, w, i as int),
            r@ + spec_partition_from(global_offset as int, size_n, w, i as int)
                =~= spec_partition_from(global_offset as int, size_n, w, 0),
        decreases n - i,
    {
        proof {
            lemma_sum_prelim_le_size(size_n, w, i as int);
            lemma_sum_prelim_le_size(size_n, w, i + 1);
        }
        let chunk: usize = if i == n - 1 {
            global_offset + global_size - current_offset
        } else {
            if total == 0 {
                0
            } else {
                proof {
                    lemma_mul_upper_bound(
                        global_size as int,
                        u64::MAX as int,
                        weights@[i as int] as int,
                        u64::MAX as int,
                    );
                }
                let c128: u128 = (global_size as u128) * (weights[i] as u128) / total;
                proof {
                    lemma_prelim_le_size(size_n, w, i as int);
                    assert(c128 <= global_size);
                }
                c128 as usize
            }
        };
        proof {
            assert(chunk == chunk_of(size_n, w, i as int));
        }
        let ghost old_r: Seq<WorkChunk> = r@;
        if chunk > 0 {
            let c = WorkChunk { queue_index: i, offset: current_offset, size: chunk };
            r.push(c);
            proof {
                let head = seq![c];
                let rest = spec_partition_from(global_offset as int, size_n, w, i + 1);
                assert(spec_partition_from(global_offset as int, size_n, w, i as int) =~= head
                    + rest);
                assert(old_r + (head + rest) =~= (old_r + head) + rest);
                assert(r@ =~= old_r + head);
            }
        }
        if i < n - 1 {
            proof {
                assert(sum_prelim(size_n, w, i + 1) == sum_prelim(size_n, w, i as int) + chunk_of(
                    size_n,
                    w,
                    i as int,
                ));
            }
            current_offset = current_offset + chunk;
        }
        i = i + 1;
    }
    proof {
        assert(spec_partition_from(global_offset as int, size_n, w, n as int) =~= Seq::<
            WorkChunk,
        >::empty());
        assert(r@ + Seq::<WorkChunk>::empty() =~= r@);
    }
    r
}

} // verus!

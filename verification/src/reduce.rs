//! Collapsing a multi-frame stack into a single averaged plane with its
//! value range.
//!
//! Two policies are fixed deliberately here.  The average divides by
//! the total number of frames, so identical frames always average to
//! their common value.  The minimum and maximum are the true attained
//! extremes of the averaged plane, found by comparing samples rather
//! than against fixed sentinels, so all-negative data is ranged
//! correctly.

use vstd::prelude::*;

use vstd::arithmetic::div_mod::{lemma_div_is_ordered, lemma_div_multiples_vanish};
use vstd::arithmetic::mul::{lemma_mul_inequality, lemma_mul_upper_bound};

use crate::stack::{ImageStack, SAMPLE_LIMIT};

verus! {

/// Sum of sample `p` over the first `k` frames.
pub open spec fn frame_sum(frames: Seq<Vec<i64>>, p: int, k: int) -> int
    decreases k,
{
    if k <= 0 {
        0
    } else {
        frame_sum(frames, p, k - 1) + frames[k - 1]@[p]
    }
}

/// Integer division rounding toward zero (the fractional part of an
/// average is discarded).
pub open spec fn trunc_div(a: int, n: int) -> int {
    if a >= 0 {
        a / n
    } else {
        -((-a) / n)
    }
}

/// The reduced value of sample `p`: the mean over all frames of the
/// stack, fractional steps rounded toward zero.
pub open spec fn reduced_sample(stack: ImageStack, p: int) -> int {
    trunc_div(frame_sum(stack.frames@, p, stack.frames@.len() as int), stack.frames@.len() as int)
}

/// One averaged plane together with its global value range.
#[derive(Debug)]
pub struct ReducedImage {
    pub width: usize,
    pub height: usize,
    pub samples: Vec<i64>,
    pub min: i64,
    pub max: i64,
}

impl ReducedImage {
    /// The samples fill the declared plane, stay within `SAMPLE_LIMIT`,
    /// and `min` and `max` are the attained minimum and maximum.
    pub open spec fn wf(self) -> bool {
        &&& 0 < self.width
        &&& 0 < self.height
        &&& self.width * self.height <= usize::MAX
        &&& self.samples@.len() == self.width * self.height
        &&& forall|p: int|
            0 <= p < self.samples@.len() ==> -SAMPLE_LIMIT <= #[trigger] self.samples@[p]
                <= SAMPLE_LIMIT
        &&& forall|p: int|
            0 <= p < self.samples@.len() ==> self.min <= #[trigger] self.samples@[p] <= self.max
        &&& exists|p: int| 0 <= p < self.samples@.len() && self.samples@[p] == self.min
        &&& exists|p: int| 0 <= p < self.samples@.len() && self.samples@[p] == self.max
    }
}

/// Divides a frame sum by the frame count, rounding toward zero.
fn div_sum(sum: i128, n: usize) -> (r: i64)
    requires
        1 <= n,
        -(n as int) * (SAMPLE_LIMIT as int) <= sum <= (n as int) * (SAMPLE_LIMIT as int),
    ensures
        r == trunc_div(sum as int, n as int),
        -SAMPLE_LIMIT <= r <= SAMPLE_LIMIT,
{
    proof {
        lemma_mul_upper_bound(n as int, u64::MAX as int + 1, SAMPLE_LIMIT as int, SAMPLE_LIMIT as int);
    }
    if sum >= 0 {
        let q: u128 = (sum as u128) / (n as u128);
        proof {
            lemma_div_is_ordered(sum as int, (n as int) * (SAMPLE_LIMIT as int), n as int);
            lemma_div_multiples_vanish(SAMPLE_LIMIT as int, n as int);
        }
        q as i64
    } else {
        let mag: u128 = (-sum) as u128;
        let q: u128 = mag / (n as u128);
        proof {
            lemma_div_is_ordered(mag as int, (n as int) * (SAMPLE_LIMIT as int), n as int);
            lemma_div_multiples_vanish(SAMPLE_LIMIT as int, n as int);
        }
        -(q as i64)
    }
}

/// Averages all frames of a stack into one plane and scans it for the
/// smallest and largest sample.
pub fn reduce(stack: &ImageStack) -> (r: ReducedImage)
    requires
        stack.wf(),
    ensures
        r.wf(),
        r.width == stack.width,
        r.height == stack.height,
        forall|p: int|
            0 <= p < r.samples@.len() ==> #[trigger] r.samples@[p] == reduced_sample(*stack, p),
{
    let wh: usize = stack.width * stack.height;
    proof {
        assert(0 < stack.width * stack.height) by (nonlinear_arith)
            requires
                0 < stack.width,
                0 < stack.height,
        ;
    }
    let n: usize = stack.frames.len();
    let ghost limit_bound: int = (n as int) * (SAMPLE_LIMIT as int);
    proof {
        lemma_mul_upper_bound(n as int, u64::MAX as int + 1, SAMPLE_LIMIT as int, SAMPLE_LIMIT as int);
    }
    let mut samples: Vec<i64> = Vec::new();
    let mut p: usize = 0;
    while p < wh
        invariant
            stack.wf(),
            wh == stack.width * stack.height,
            n == stack.frames@.len(),
            limit_bound == (n as int) * (SAMPLE_LIMIT as int),
            limit_bound <= (u64::MAX as int + 1) * (SAMPLE_LIMIT as int),
            samples@.len() == p,
            p <= wh,
            forall|q: int| 0 <= q < p ==> #[trigger] samples@[q] == reduced_sample(*stack, q),
            forall|q: int|
                0 <= q < p ==> -SAMPLE_LIMIT <= #[trigger] samples@[q] <= SAMPLE_LIMIT,
        decreases wh - p,
    {
        let mut sum: i128 = 0;
        let mut f: usize = 0;
        while f < n
            invariant
                stack.wf(),
                wh == stack.width * stack.height,
                n == stack.frames@.len(),
                limit_bound == (n as int) * (SAMPLE_LIMIT as int),
                limit_bound <= (u64::MAX as int + 1) * (SAMPLE_LIMIT as int),
                p < wh,
                f <= n,
                sum == frame_sum(stack.frames@, p as int, f as int),
                -(f as int) * (SAMPLE_LIMIT as int) <= sum <= (f as int) * (SAMPLE_LIMIT as int),
            decreases n - f,
        {
            let v: i64 = stack.frames[f][p];
            proof {
                lemma_mul_inequality(f as int + 1, n as int, SAMPLE_LIMIT as int);
                assert((f as int) * (SAMPLE_LIMIT as int) + SAMPLE_LIMIT == (f as int + 1) * (
                SAMPLE_LIMIT as int)) by (nonlinear_arith);
            }
            sum = sum + (v as i128);
            f += 1;
        }
        proof {
            lemma_mul_inequality(f as int, n as int, SAMPLE_LIMIT as int);
        }
        let avg: i64 = div_sum(sum, n);
        samples.push(avg);
        p += 1;
    }
    let mut minv: i64 = samples[0];
    let mut maxv: i64 = samples[0];
    let mut q: usize = 1;
    while q < wh
        invariant
            samples@.len() == wh,
            0 < wh,
            1 <= q <= wh,
            forall|j: int| 0 <= j < q ==> minv <= #[trigger] samples@[j] <= maxv,
            exists|j: int| 0 <= j < q && samples@[j] == minv,
            exists|j: int| 0 <= j < q && samples@[j] == maxv,
        decreases wh - q,
    {
        let v = samples[q];
        if v < minv {
            minv = v;
        }
        if v > maxv {
            maxv = v;
        }
        q += 1;
    }
    ReducedImage { width: stack.width, height: stack.height, samples, min: minv, max: maxv }
}

/// Sum of a sample that holds the same value `v` in each of the first
/// `k` frames: exactly `k * v`.
proof fn lemma_frame_sum_uniform(frames: Seq<Vec<i64>>, p: int, k: int, v: i64)
    requires
        0 <= k <= frames.len(),
        forall|f: int| 0 <= f < k ==> #[trigger] frames[f]@[p] == v,
    ensures
        frame_sum(frames, p, k) == k * v,
    decreases k,
{
    if k > 0 {
        lemma_frame_sum_uniform(frames, p, k - 1, v);
        assert(frames[k - 1]@[p] == v);
        assert(frame_sum(frames, p, k) == frame_sum(frames, p, k - 1) + frames[k - 1]@[p]);
        assert((k - 1) * v + v == k * v) by (nonlinear_arith);
    } else {
        assert(k * v == 0) by (nonlinear_arith)
            requires
                k == 0,
        ;
    }
}

/// A stack of one frame reduces to that frame unchanged: the average
/// of a single frame is the frame itself.
pub proof fn lemma_single_frame_identity(stack: ImageStack)
    requires
        stack.wf(),
        stack.frames@.len() == 1,
    ensures
        forall|p: int|
            0 <= p < stack.frame_len() ==> #[trigger] reduced_sample(stack, p)
                == stack.frames@[0]@[p],
{
    assert forall|p: int| 0 <= p < stack.frame_len() implies #[trigger] reduced_sample(stack, p)
        == stack.frames@[0]@[p] by {
        let v = stack.frames@[0]@[p];
        assert(frame_sum(stack.frames@, p, 1) == frame_sum(stack.frames@, p, 0) + v);
        vstd::arithmetic::div_mod::lemma_div_basics(v as int);
        vstd::arithmetic::div_mod::lemma_div_basics(-(v as int));
    }
}

/// A stack whose frames are identical (each pixel holds one value
/// across all frames) reduces to that shared frame, whatever the frame
/// count: averaging identical frames changes nothing, under the
/// divide-by-total-count rule applied here.
pub proof fn lemma_uniform_stack(stack: ImageStack)
    requires
        stack.wf(),
        forall|f: int, p: int|
            0 <= f < stack.frames@.len() && 0 <= p < stack.frame_len()
                ==> #[trigger] stack.frames@[f]@[p] == stack.frames@[0]@[p],
    ensures
        forall|p: int|
            0 <= p < stack.frame_len() ==> #[trigger] reduced_sample(stack, p)
                == stack.frames@[0]@[p],
{
    let n = stack.frames@.len() as int;
    assert forall|p: int| 0 <= p < stack.frame_len() implies #[trigger] reduced_sample(stack, p)
        == stack.frames@[0]@[p] by {
        let v = stack.frames@[0]@[p];
        assert(forall|f: int| 0 <= f < n ==> #[trigger] stack.frames@[f]@[p] == v);
        lemma_frame_sum_uniform(stack.frames@, p, n, v);
        if v >= 0 {
            lemma_div_multiples_vanish(v as int, n);
            assert(n * v >= 0) by (nonlinear_arith)
                requires
                    n >= 1,
                    v >= 0,
            ;
        } else {
            assert(n * v < 0 && -(n * (v as int)) == n * (-(v as int))) by (nonlinear_arith)
                requires
                    n >= 1,
                    v < 0,
            ;
            lemma_div_multiples_vanish(-(v as int), n);
        }
    }
}

/// Every sample of a well-formed reduced plane lies between the
/// reported minimum and maximum.
pub proof fn lemma_reduced_within_range(r: ReducedImage)
    requires
        r.wf(),
    ensures
        forall|p: int|
            0 <= p < r.samples@.len() ==> r.min <= #[trigger] r.samples@[p] <= r.max,
{
}

} // verus!

//! Rescaling a reduced plane into a displayable byte buffer.
//!
//! Every sample is mapped to `round(sample / max * 255)` clamped into
//! `0..=255`, dividing by the maximum alone (the minimum is reported to
//! the caller but takes no part in the rescale).  A plane whose maximum
//! is zero or below is rendered as all-zero bytes rather than letting an
//! invalid quotient through.  The byte is replicated across three
//! channels per pixel, row-major, stride `width * 3`.

use vstd::prelude::*;

use crate::reduce::{reduce, reduced_sample, ReducedImage};
use crate::stack::ImageStack;

verus! {

/// The display byte for a sample `s` of a plane whose maximum is `max`:
/// `round(s / max * 255)` clamped into `0..=255`, and `0` whenever the
/// maximum is not positive.  Rounding is half-up, written over integers
/// as `(510 * s + max) / (2 * max)`.
pub open spec fn scaled_byte(s: int, max: int) -> int {
    if max <= 0 {
        0
    } else if s <= 0 {
        0
    } else if s >= max {
        255
    } else {
        (510 * s + max) / (2 * max)
    }
}

/// Computes `scaled_byte` on machine integers.
fn scale_sample(s: i64, max: i64) -> (r: u8)
    requires
        -crate::stack::SAMPLE_LIMIT <= s <= crate::stack::SAMPLE_LIMIT,
        -crate::stack::SAMPLE_LIMIT <= max <= crate::stack::SAMPLE_LIMIT,
    ensures
        r == scaled_byte(s as int, max as int),
{
    if max <= 0 {
        0
    } else if s <= 0 {
        0
    } else if s >= max {
        255
    } else {
        let num: u64 = 510 * (s as u64) + (max as u64);
        let den: u64 = 2 * (max as u64);
        let q: u64 = num / den;
        proof {
            assert(510 * s + max < 256 * (2 * max)) by (nonlinear_arith)
                requires
                    0 < s < max,
            ;
            assert((num as int) / (den as int) < 256) by {
                vstd::arithmetic::div_mod::lemma_multiply_divide_lt(
                    num as int,
                    den as int,
                    256,
                );
            }
        }
        q as u8
    }
}

/// Rescales every sample of a reduced plane into one byte, tripled
/// across the three channels of a row-major RGB buffer.
pub fn normalize(r: &ReducedImage) -> (out: Vec<u8>)
    requires
        r.wf(),
    ensures
        out@.len() == r.samples@.len() * 3,
        forall|j: int|
            0 <= j < out@.len() ==> #[trigger] out@[j] == scaled_byte(
                r.samples@[j / 3] as int,
                r.max as int,
            ),
{
    let count: usize = r.samples.len();
    let mut out: Vec<u8> = Vec::new();
    let mut p: usize = 0;
    while p < count
        invariant
            r.wf(),
            count == r.samples@.len(),
            p <= count,
            out@.len() == p * 3,
            forall|j: int|
                0 <= j < out@.len() ==> #[trigger] out@[j] == scaled_byte(
                    r.samples@[j / 3] as int,
                    r.max as int,
                ),
        decreases count - p,
    {
        let b: u8 = scale_sample(r.samples[p], r.max);
        proof {
            assert(p * 3 + 3 == (p + 1) * 3) by (nonlinear_arith);
            assert(count * 3 <= usize::MAX * 3);
            assert forall|j: int| p * 3 <= j < p * 3 + 3 implies #[trigger] (j / 3) == p as int by {
                assert(3 * (p as int) <= j < 3 * (p as int) + 3) by (nonlinear_arith)
                    requires
                        p * 3 <= j < p * 3 + 3,
                ;
            }
        }
        out.push(b);
        out.push(b);
        out.push(b);
        p += 1;
    }
    out
}

/// Reduces a stack and rescales the result in one step, handing back
/// both the reduced plane (for its dimensions and value range) and the
/// display buffer.
pub fn render_stack(stack: &ImageStack) -> (r: (ReducedImage, Vec<u8>))
    requires
        stack.wf(),
    ensures
        r.0.wf(),
        r.0.width == stack.width,
        r.0.height == stack.height,
        forall|p: int|
            0 <= p < r.0.samples@.len() ==> #[trigger] r.0.samples@[p] == reduced_sample(*stack, p),
        r.1@.len() == r.0.samples@.len() * 3,
        forall|j: int|
            0 <= j < r.1@.len() ==> #[trigger] r.1@[j] == scaled_byte(
                r.0.samples@[j / 3] as int,
                r.0.max as int,
            ),
{
    let reduced = reduce(stack);
    let pixels = normalize(&reduced);
    (reduced, pixels)
}

/// A plane whose maximum is zero rescales to a buffer of zero bytes
/// only: no sample can be mapped above zero when the divisor would be
/// zero.
pub proof fn lemma_zero_max_blank(r: ReducedImage)
    requires
        r.wf(),
        r.max == 0,
    ensures
        forall|p: int|
            0 <= p < r.samples@.len() ==> scaled_byte(#[trigger] r.samples@[p] as int, r.max as int) == 0,
{
}

/// A uniform plane of positive value `255 * k`, whose maximum is that
/// same value, rescales every pixel to the full byte 255.
pub proof fn lemma_uniform_full_scale(r: ReducedImage, k: int)
    requires
        r.wf(),
        1 <= k,
        r.max == 255 * k,
        forall|p: int| 0 <= p < r.samples@.len() ==> #[trigger] r.samples@[p] == 255 * k,
    ensures
        forall|p: int|
            0 <= p < r.samples@.len() ==> scaled_byte(#[trigger] r.samples@[p] as int, r.max as int)
                == 255,
{
}

} // verus!

//! Building a stack from the primary data unit of a FITS file.
//!
//! The caller reads the file and hands over the unit's declared shape
//! and its raw 32-bit floating-point samples as bit patterns; pixel
//! data of any other encoding arrives as [`FitsPayload::Other`].  The
//! shape must be two-dimensional, `[height, width]`, and the data must
//! hold at least `width * height` samples; exactly one frame is
//! produced.

use vstd::prelude::*;

use crate::sample::{fixed_from_bits, fixed_of_bits};
use crate::stack::{ImageStack, SAMPLE_LIMIT};
use crate::DecodeError;

verus! {

/// The pixel data of the data unit at index 0 of a FITS file, reduced
/// to plain values: the declared axis lengths `[height, width]` and the
/// bit patterns of the 32-bit floating-point samples, or `Other` for a
/// unit whose samples have any other encoding.
pub enum FitsPayload {
    Float32 { shape: Vec<usize>, bits: Vec<u32> },
    Other,
}

/// The declared shape fits the data: two positive axes whose product
/// fits in `usize` and does not exceed the sample count.
pub open spec fn fits_shape_ok(shape: Seq<usize>, bits: Seq<u32>) -> bool {
    &&& shape.len() == 2
    &&& 0 < shape[0]
    &&& 0 < shape[1]
    &&& shape[1] * shape[0] <= usize::MAX
    &&& shape[1] * shape[0] <= bits.len()
}

/// The shape fits the data and every sample of the frame is a finite
/// value within the representable range.
pub open spec fn fits_data_ok(shape: Seq<usize>, bits: Seq<u32>) -> bool {
    &&& fits_shape_ok(shape, bits)
    &&& forall|p: int|
        0 <= p < shape[1] * shape[0] ==> fixed_of_bits(#[trigger] bits[p]) is Some
}

/// Decodes FITS pixel data into a single-frame stack, converting each
/// 32-bit floating-point sample to fixed point, and says exactly which
/// payloads are accepted.
pub fn decode_fits(payload: &FitsPayload) -> (r: Result<ImageStack, DecodeError>)
    ensures
        match *payload {
            FitsPayload::Float32 { ref shape, ref bits } => {
                match r {
                    Ok(s) => {
                        &&& fits_data_ok(shape@, bits@)
                        &&& s.wf()
                        &&& s.width == shape@[1]
                        &&& s.height == shape@[0]
                        &&& s.frames@.len() == 1
                        &&& forall|p: int|
                            0 <= p < s.frame_len() ==> fixed_of_bits(#[trigger] bits@[p]) == Some(
                                s.frames@[0]@[p] as int,
                            )
                    },
                    Err(e) => {
                        &&& !fits_data_ok(shape@, bits@)
                        &&& e == DecodeError::UnexpectedPixelFormat
                    },
                }
            },
            FitsPayload::Other => r === Err(DecodeError::UnexpectedPixelFormat),
        },
{
    let (shape, bits) = match payload {
        FitsPayload::Float32 { shape, bits } => (shape, bits),
        FitsPayload::Other => {
            return Err(DecodeError::UnexpectedPixelFormat);
        },
    };
    if shape.len() != 2 {
        return Err(DecodeError::UnexpectedPixelFormat);
    }
    let height: usize = shape[0];
    let width: usize = shape[1];
    if width == 0 || height == 0 {
        return Err(DecodeError::UnexpectedPixelFormat);
    }
    let wh: usize = match width.checked_mul(height) {
        Some(wh) => wh,
        None => {
            return Err(DecodeError::UnexpectedPixelFormat);
        },
    };
    if bits.len() < wh {
        return Err(DecodeError::UnexpectedPixelFormat);
    }
    let mut frame: Vec<i64> = Vec::new();
    let mut p: usize = 0;
    while p < wh
        invariant
            p <= wh,
            payload matches FitsPayload::Float32 { shape: s2, bits: b2 } && s2 == shape && b2
                == bits,
            shape@.len() == 2,
            width == shape@[1],
            height == shape@[0],
            wh == width * height,
            wh <= bits@.len(),
            frame@.len() == p,
            forall|q: int|
                0 <= q < p ==> fixed_of_bits(#[trigger] bits@[q]) == Some(frame@[q] as int),
            forall|q: int| 0 <= q < p ==> -SAMPLE_LIMIT <= #[trigger] frame@[q] <= SAMPLE_LIMIT,
        decreases wh - p,
    {
        let v: i64 = match fixed_from_bits(bits[p]) {
            Some(v) => v,
            None => {
                return Err(DecodeError::UnexpectedPixelFormat);
            },
        };
        frame.push(v);
        p += 1;
    }
    let mut frames: Vec<Vec<i64>> = Vec::new();
    frames.push(frame);
    match ImageStack::from_frames(width, height, frames) {
        Ok(s) => Ok(s),
        Err(e) => Err(e),
    }
}

} // verus!

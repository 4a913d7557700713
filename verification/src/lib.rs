//! A small library for viewing directories of scientific images
//! (multi-page 16-bit grayscale TIFF stacks and 32-bit floating-point
//! FITS images).  It decodes a file into a stack of same-sized frames,
//! averages the stack into one intensity plane, finds the plane's value
//! range, and rescales every sample into an 8-bit grayscale byte buffer
//! that a display layer can show as RGB.
//!
//! Sample values are held in fixed point: an intensity `v` is stored as
//! the integer `v * 256` (see [`stack::SAMPLE_SCALE`]).  A 16-bit TIFF
//! sample converts exactly; a FITS 32-bit floating-point sample is
//! converted from its bit pattern by [`sample::fixed_from_bits`],
//! rounding to the nearest representable step.

use vstd::prelude::*;

pub mod display;
pub mod explorer;
pub mod fits_stack;
pub mod reduce;
pub mod sample;
pub mod scan;
pub mod stack;
pub mod tiff_stack;

verus! {

/// Errors raised while decoding or rendering one image file.
#[derive(Clone, Copy, PartialEq, Eq, Structural, Debug)]
pub enum DecodeError {
    /// The file's extension names no format this viewer understands.
    UnsupportedFormat,
    /// The file could not be opened or read.
    IOFailure,
    /// The decoded samples are not 16-bit grayscale (TIFF) or
    /// 32-bit floating point (FITS), or the declared shape does not
    /// match the data, or a sample is outside the representable range.
    UnexpectedPixelFormat,
}

} // verus!

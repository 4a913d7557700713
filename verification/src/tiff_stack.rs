//! Decoding a multi-page 16-bit grayscale TIFF, held in memory, into a
//! stack of frames.
//!
//! The container work is done by the `tiff` crate through the trusted
//! wrappers below.  Decoding an in-memory buffer is deterministic, so
//! each wrapper's result is given a name: what the buffer parses to,
//! the first page's dimensions, colour type, samples and the count of
//! pages beyond it.  `decode_tiff`'s contract then says exactly which
//! error each failing condition produces, and that a well-shaped
//! single-page buffer must decode to its samples.  (The decoder value
//! itself carries per-process hasher state, so the names speak of
//! these observables, never of the decoder value as a function of the
//! bytes.)

use vstd::prelude::*;

use crate::stack::{ImageStack, SAMPLE_LIMIT, SAMPLE_SCALE};
use crate::DecodeError;

verus! {

/// A TIFF decoder over an in-memory byte buffer.  The decoder type of
/// the `tiff` crate cannot be declared to the verifier (its reader
/// parameter is bound by traits the verifier does not know), so it is
/// held opaquely in this wrapper struct.
#[verifier::external_body]
pub struct TiffReader {
    inner: tiff::decoder::Decoder<std::io::Cursor<Vec<u8>>>,
}

#[verifier::external_type_specification]
#[verifier::external_body]
pub struct ExDecodingResult(tiff::decoder::DecodingResult);

#[verifier::external_type_specification]
#[verifier::external_body]
pub struct ExTiffError(tiff::TiffError);

/// The number of pages a decoder can still advance over: the length of
/// the chain of distinct image file directories ahead of the current
/// one (a repeated directory ends the chain, as the decoder refuses
/// such cycles).
pub uninterp spec fn tiff_pages(d: TiffReader) -> nat;

/// What `Decoder::dimensions` returns on a decoder in this state:
/// the current page's width and height, or `None` if the call fails.
pub uninterp spec fn tiff_dims_of(d: TiffReader) -> Option<(u32, u32)>;

/// What `Decoder::colortype` returns on a decoder in this state:
/// `None` if the call fails, `Some(Some(bits))` for a grayscale page
/// of that bit depth, `Some(None)` for any other colour type.
pub uninterp spec fn tiff_gray_bits_of(d: TiffReader) -> Option<Option<u8>>;

/// Whether `Decoder::read_image` succeeds on a decoder in this state.
pub uninterp spec fn tiff_read_ok_of(d: TiffReader) -> bool;

/// The current page's samples when `Decoder::read_image` on a decoder
/// in this state yields unsigned 16-bit data; `None` when the read
/// fails or yields any other sample type.
pub uninterp spec fn tiff_image_of(d: TiffReader) -> Option<Seq<u16>>;

/// The unsigned 16-bit sample buffer held by a `DecodingResult`,
/// `None` for every other variant.
pub uninterp spec fn tiff_u16_of(res: tiff::decoder::DecodingResult) -> Option<Seq<u16>>;

/// Whether `Decoder::new` accepts this byte buffer (signature, header
/// and first directory parse).
pub uninterp spec fn tiff_parses(bytes: Seq<u8>) -> bool;

/// `tiff_dims_of` for a freshly opened decoder over these bytes.
pub uninterp spec fn tiff_first_dims(bytes: Seq<u8>) -> Option<(u32, u32)>;

/// `tiff_gray_bits_of` for a freshly opened decoder over these bytes.
pub uninterp spec fn tiff_first_gray(bytes: Seq<u8>) -> Option<Option<u8>>;

/// `tiff_read_ok_of` for a freshly opened decoder over these bytes.
pub uninterp spec fn tiff_first_read_ok(bytes: Seq<u8>) -> bool;

/// `tiff_image_of` for a freshly opened decoder over these bytes.
pub uninterp spec fn tiff_first_image(bytes: Seq<u8>) -> Option<Seq<u16>>;

/// `tiff_pages` for a freshly opened decoder over these bytes.
pub uninterp spec fn tiff_first_pages(bytes: Seq<u8>) -> nat;

/// Relies on tiff's `Decoder::new`: parses the byte buffer's header
/// and first directory deterministically, so success and the opened
/// decoder's observable state are functions of the bytes alone.
#[verifier::external_body]
fn tiff_open(bytes: &Vec<u8>) -> (r: Result<TiffReader, tiff::TiffError>)
    ensures
        r is Ok <==> tiff_parses(bytes@),
        r matches Ok(d) ==> {
            &&& tiff_dims_of(d) == tiff_first_dims(bytes@)
            &&& tiff_gray_bits_of(d) == tiff_first_gray(bytes@)
            &&& tiff_read_ok_of(d) == tiff_first_read_ok(bytes@)
            &&& tiff_image_of(d) == tiff_first_image(bytes@)
            &&& tiff_pages(d) == tiff_first_pages(bytes@)
        },
{
    match tiff::decoder::Decoder::new(std::io::Cursor::new(bytes.clone())) {
        Ok(inner) => Ok(TiffReader { inner }),
        Err(e) => Err(e),
    }
}

/// Relies on tiff's `Decoder::dimensions`: reads the current page's
/// cached width and height without changing the decoder.
#[verifier::external_body]
fn tiff_dimensions(d: &mut TiffReader) -> (r: Result<(u32, u32), tiff::TiffError>)
    ensures
        *final(d) == *old(d),
        r matches Ok(p) ==> tiff_dims_of(*old(d)) == Some(p),
        r is Err ==> tiff_dims_of(*old(d)) is None,
{
    d.inner.dimensions()
}

/// Relies on tiff's `Decoder::colortype`: computes the current page's
/// colour type from cached fields without changing the decoder; the
/// bit depth is handed out for grayscale pages, `None` for every other
/// colour type.
#[verifier::external_body]
fn tiff_gray_bits(d: &mut TiffReader) -> (r: Result<Option<u8>, tiff::TiffError>)
    ensures
        *final(d) == *old(d),
        r matches Ok(g) ==> tiff_gray_bits_of(*old(d)) == Some(g),
        r is Err ==> tiff_gray_bits_of(*old(d)) is None,
{
    match d.inner.colortype() {
        Ok(tiff::ColorType::Gray(bits)) => Ok(Some(bits)),
        Ok(_) => Ok(None),
        Err(e) => Err(e),
    }
}

/// Relies on tiff's `Decoder::read_image`: decodes the current page's
/// samples, moving only the reader position, never the page chain.
#[verifier::external_body]
fn tiff_read_image(d: &mut TiffReader) -> (r: Result<
    tiff::decoder::DecodingResult,
    tiff::TiffError,
>)
    ensures
        tiff_pages(*final(d)) == tiff_pages(*old(d)),
        r is Ok <==> tiff_read_ok_of(*old(d)),
        r matches Ok(res) ==> tiff_u16_of(res) == tiff_image_of(*old(d)),
{
    d.inner.read_image()
}

/// Relies on tiff's `DecodingResult`: hands out the sample buffer of a
/// page decoded to unsigned 16-bit samples, `None` for any other
/// sample type.
#[verifier::external_body]
fn tiff_u16_samples(res: tiff::decoder::DecodingResult) -> (r: Option<Vec<u16>>)
    ensures
        r matches Some(v) ==> tiff_u16_of(res) == Some(v@),
        r is None ==> tiff_u16_of(res) is None,
{
    match res {
        tiff::decoder::DecodingResult::U16(v) => Some(v),
        _ => None,
    }
}

/// Relies on tiff's `Decoder::more_images`: whether a further page
/// follows the current one, which is exactly a non-empty page chain.
#[verifier::external_body]
fn tiff_more_images(d: &TiffReader) -> (r: bool)
    ensures
        r == (tiff_pages(*d) > 0),
{
    d.inner.more_images()
}

/// Relies on tiff's `Decoder::next_image`: advances to the next page,
/// consuming one link of the page chain on success (the decoder takes
/// the pending directory offset, refuses repeats, and reads the
/// directory there).
#[verifier::external_body]
fn tiff_next_image(d: &mut TiffReader) -> (r: Result<(), tiff::TiffError>)
    ensures
        r is Ok ==> tiff_pages(*final(d)) < tiff_pages(*old(d)),
{
    d.inner.next_image()
}

/// The first page of these bytes parses as 16-bit grayscale.
pub open spec fn tiff_first_gray16(bytes: Seq<u8>) -> bool {
    &&& tiff_parses(bytes)
    &&& tiff_first_gray(bytes) == Some(Some(16u8))
}

/// The first page declares positive dimensions whose product fits the
/// machine.
pub open spec fn tiff_first_dims_ok(bytes: Seq<u8>) -> bool {
    tiff_first_dims(bytes) matches Some(dims) && 0 < dims.0 && 0 < dims.1 && dims.0 * dims.1
        <= usize::MAX
}

/// The first page of these bytes is acceptable: 16-bit grayscale,
/// sound dimensions, and a sample buffer of exactly that size.
pub open spec fn tiff_accepts(bytes: Seq<u8>) -> bool {
    &&& tiff_first_gray16(bytes)
    &&& tiff_first_dims_ok(bytes)
    &&& tiff_first_read_ok(bytes)
    &&& (tiff_first_dims(bytes) matches Some(dims) && (tiff_first_image(bytes) matches Some(img)
        && img.len() == dims.0 * dims.1))
}

/// Converts one page of unsigned 16-bit samples to fixed point: each
/// sample scales exactly to `sample * SAMPLE_SCALE`.
pub fn frame_from_u16(data: &Vec<u16>) -> (r: Vec<i64>)
    ensures
        r@.len() == data@.len(),
        forall|p: int|
            0 <= p < data@.len() ==> #[trigger] r@[p] == SAMPLE_SCALE * data@[p],
        forall|p: int| 0 <= p < data@.len() ==> 0 <= #[trigger] r@[p] <= SAMPLE_LIMIT,
{
    let mut out: Vec<i64> = Vec::new();
    let mut p: usize = 0;
    while p < data.len()
        invariant
            p <= data@.len(),
            out@.len() == p,
            forall|q: int|
                0 <= q < p ==> #[trigger] out@[q] == SAMPLE_SCALE * data@[q],
            forall|q: int| 0 <= q < p ==> 0 <= #[trigger] out@[q] <= SAMPLE_LIMIT,
        decreases data@.len() - p,
    {
        let v: i64 = (data[p] as i64) * SAMPLE_SCALE;
        proof {
            assert(SAMPLE_SCALE * (data@[p as int] as int) == (data@[p as int] as int)
                * SAMPLE_SCALE);
        }
        out.push(v);
        p += 1;
    }
    out
}

/// Decodes an in-memory TIFF into a stack: the first page fixes the
/// dimensions, every page must be 16-bit grayscale of those dimensions,
/// and each sample converts exactly to fixed point.  Container and read
/// failures surface as `IOFailure`; a wrong colour type, sample type or
/// shape as `UnexpectedPixelFormat`, each tied below to the condition
/// that raises it.  An acceptable single-page buffer must decode to
/// exactly its scaled samples; pages past the first are validated the
/// same way, shown by the well-formedness of every decoded stack.
pub fn decode_tiff(bytes: Vec<u8>) -> (r: Result<ImageStack, DecodeError>)
    ensures
        match r {
            Ok(s) => {
                &&& s.wf()
                &&& forall|f: int, p: int|
                    0 <= f < s.frames@.len() && 0 <= p < s.frame_len() ==> {
                        &&& 0 <= #[trigger] s.frames@[f]@[p]
                        &&& s.frames@[f]@[p] <= 65535 * SAMPLE_SCALE
                        &&& s.frames@[f]@[p] % SAMPLE_SCALE == 0
                    }
            },
            Err(e) => e == DecodeError::IOFailure || e == DecodeError::UnexpectedPixelFormat,
        },
        !tiff_parses(bytes@) ==> r === Err(DecodeError::IOFailure),
        tiff_parses(bytes@) && tiff_first_dims(bytes@) is None ==> r === Err(
            DecodeError::IOFailure,
        ),
        tiff_parses(bytes@) && tiff_first_dims(bytes@) is Some && tiff_first_gray(bytes@) is None
            ==> r === Err(DecodeError::IOFailure),
        tiff_parses(bytes@) && tiff_first_dims(bytes@) is Some && (tiff_first_gray(bytes@) matches
            Some(g) && g != Some(16u8)) ==> r === Err(DecodeError::UnexpectedPixelFormat),
        tiff_first_gray16(bytes@) && tiff_first_dims(bytes@) is Some && !tiff_first_dims_ok(bytes@)
            ==> r === Err(DecodeError::UnexpectedPixelFormat),
        tiff_first_gray16(bytes@) && tiff_first_dims_ok(bytes@) && !tiff_first_read_ok(bytes@)
            ==> r === Err(DecodeError::IOFailure),
        tiff_first_gray16(bytes@) && tiff_first_dims_ok(bytes@) && tiff_first_read_ok(bytes@)
            && tiff_first_image(bytes@) is None ==> r === Err(DecodeError::UnexpectedPixelFormat),
        tiff_first_gray16(bytes@) && tiff_first_dims_ok(bytes@) && tiff_first_read_ok(bytes@) && (
        tiff_first_image(bytes@) matches Some(img) && (tiff_first_dims(bytes@) matches Some(dims)
            && img.len() != dims.0 * dims.1)) ==> r === Err(DecodeError::UnexpectedPixelFormat),
        tiff_accepts(bytes@) && tiff_first_pages(bytes@) == 0 ==> (r matches Ok(s) && (
        tiff_first_dims(bytes@) matches Some(dims) && s.width == dims.0 as usize && s.height
            == dims.1 as usize) && s.frames@.len() == 1 && (tiff_first_image(bytes@) matches Some(
            img,
        ) && forall|p: int| 0 <= p < img.len() ==> s.frames@[0]@[p] == SAMPLE_SCALE * img[p])),
{
    let mut dec = match tiff_open(&bytes) {
        Ok(d) => d,
        Err(_) => {
            return Err(DecodeError::IOFailure);
        },
    };
    let (width32, height32) = match tiff_dimensions(&mut dec) {
        Ok(d) => d,
        Err(_) => {
            return Err(DecodeError::IOFailure);
        },
    };
    match tiff_gray_bits(&mut dec) {
        Ok(Some(16u8)) => (),
        Ok(_) => {
            return Err(DecodeError::UnexpectedPixelFormat);
        },
        Err(_) => {
            return Err(DecodeError::IOFailure);
        },
    }
    if width32 == 0 || height32 == 0 {
        return Err(DecodeError::UnexpectedPixelFormat);
    }
    let width: usize = width32 as usize;
    let height: usize = height32 as usize;
    let wh: usize = match width.checked_mul(height) {
        Some(wh) => wh,
        None => {
            return Err(DecodeError::UnexpectedPixelFormat);
        },
    };
    let mut frames: Vec<Vec<i64>> = Vec::new();
    let first_res = match tiff_read_image(&mut dec) {
        Ok(res) => res,
        Err(_) => {
            return Err(DecodeError::IOFailure);
        },
    };
    let first = match tiff_u16_samples(first_res) {
        Some(v) => v,
        None => {
            return Err(DecodeError::UnexpectedPixelFormat);
        },
    };
    if first.len() != wh {
        return Err(DecodeError::UnexpectedPixelFormat);
    }
    frames.push(frame_from_u16(&first));
    let ghost frame0: Vec<i64> = frames@[0];
    while tiff_more_images(&dec)
        invariant
            0 < width,
            0 < height,
            wh == width * height,
            width == width32 as usize,
            height == height32 as usize,
            tiff_parses(bytes@),
            tiff_first_gray16(bytes@),
            tiff_first_dims(bytes@) == Some((width32, height32)),
            tiff_first_dims_ok(bytes@),
            tiff_first_read_ok(bytes@),
            (tiff_first_image(bytes@) matches Some(img) && frame0@.len() == img.len() && img.len()
                == wh && forall|p: int|
                0 <= p < img.len() ==> frame0@[p] == SAMPLE_SCALE * img[p]),
            1 <= frames@.len(),
            frames@[0] == frame0,
            tiff_pages(dec) <= tiff_first_pages(bytes@),
            tiff_first_pages(bytes@) == 0 ==> frames@.len() == 1,
            forall|f: int| 0 <= f < frames@.len() ==> (#[trigger] frames@[f])@.len() == wh,
            forall|f: int, p: int|
                0 <= f < frames@.len() && 0 <= p < wh ==> {
                    &&& 0 <= #[trigger] frames@[f]@[p]
                    &&& frames@[f]@[p] <= 65535 * SAMPLE_SCALE
                    &&& frames@[f]@[p] % SAMPLE_SCALE == 0
                },
        decreases tiff_pages(dec),
    {
        match tiff_next_image(&mut dec) {
            Ok(()) => (),
            Err(_) => {
                return Err(DecodeError::IOFailure);
            },
        }
        let (w2, h2) = match tiff_dimensions(&mut dec) {
            Ok(d) => d,
            Err(_) => {
                return Err(DecodeError::IOFailure);
            },
        };
        if w2 != width32 || h2 != height32 {
            return Err(DecodeError::UnexpectedPixelFormat);
        }
        let res = match tiff_read_image(&mut dec) {
            Ok(res) => res,
            Err(_) => {
                return Err(DecodeError::IOFailure);
            },
        };
        let page = match tiff_u16_samples(res) {
            Some(v) => v,
            None => {
                return Err(DecodeError::UnexpectedPixelFormat);
            },
        };
        if page.len() != wh {
            return Err(DecodeError::UnexpectedPixelFormat);
        }
        frames.push(frame_from_u16(&page));
    }
    proof {
        assert forall|f: int, p: int|
            0 <= f < frames@.len() && 0 <= p < wh implies -SAMPLE_LIMIT
            <= #[trigger] frames@[f]@[p] <= SAMPLE_LIMIT by {
            assert(frames@[f]@[p] <= 65535 * SAMPLE_SCALE);
        }
        assert(width * height <= usize::MAX);
    }
    match ImageStack::from_frames(width, height, frames) {
        Ok(s) => Ok(s),
        Err(e) => Err(e),
    }
}

} // verus!

//! Choosing which directory entries are images and which decoder a
//! file is dispatched to.
//!
//! File names are handled as byte strings: a name is kept when it
//! contains the substring `tif` or `fits`, and the decoder is chosen
//! by the extension `fits`, `tif` or `tiff`; any other extension is
//! unsupported and never reaches a decoder.

use vstd::prelude::*;

verus! {

/// `needle` occurs contiguously somewhere in `hay`.
pub open spec fn contains_seq(hay: Seq<u8>, needle: Seq<u8>) -> bool {
    exists|i: int|
        0 <= i <= hay.len() - needle.len() && #[trigger] hay.subrange(i, i + needle.len())
            == needle
}

/// The bytes of `tif`.
pub open spec fn tif_bytes() -> Seq<u8> {
    seq![116u8, 105u8, 102u8]
}

/// The bytes of `fits`.
pub open spec fn fits_bytes() -> Seq<u8> {
    seq![102u8, 105u8, 116u8, 115u8]
}

/// The bytes of `tiff`.
pub open spec fn tiff_bytes() -> Seq<u8> {
    seq![116u8, 105u8, 102u8, 102u8]
}

/// Whether `needle` occurs in `hay`, by direct search.
pub fn contains_bytes(hay: &[u8], needle: &[u8]) -> (r: bool)
    ensures
        r == contains_seq(hay@, needle@),
{
    let m: usize = needle.len();
    let n: usize = hay.len();
    if m > n {
        proof {
            assert(!contains_seq(hay@, needle@));
        }
        return false;
    }
    let mut i: usize = 0;
    while i <= n - m
        invariant
            m <= n,
            m == needle@.len(),
            n == hay@.len(),
            i <= n - m + 1,
            forall|s: int|
                0 <= s < i ==> #[trigger] hay@.subrange(s, s + needle@.len()) != needle@,
        decreases n + 1 - i,
    {
        let mut j: usize = 0;
        let mut matched: bool = true;
        while j < m
            invariant
                m <= n,
                m == needle@.len(),
                n == hay@.len(),
                i <= n - m,
                j <= m,
                matched == forall|t: int| 0 <= t < j ==> hay@[i + t] == needle@[t],
            decreases m - j,
        {
            if hay[i + j] != needle[j] {
                proof {
                    assert(hay@[i + j] != needle@[j as int]);
                }
                matched = false;
                j = m;
            } else {
                proof {
                    assert(hay@[i + j as int] == needle@[j as int]);
                }
                j += 1;
            }
        }
        if matched {
            proof {
                assert(hay@.subrange(i as int, i + needle@.len()) =~= needle@);
            }
            return true;
        }
        proof {
            if hay@.subrange(i as int, i + needle@.len()) == needle@ {
                assert(forall|t: int|
                    0 <= t < m ==> hay@.subrange(i as int, i + needle@.len())[t] == needle@[t]);
                assert(forall|t: int| 0 <= t < m ==> hay@[i + t] == needle@[t]);
            }
        }
        i += 1;
    }
    proof {
        assert(!contains_seq(hay@, needle@));
    }
    false
}

/// Whether a directory entry with this name is treated as an image
/// file: its name contains `tif` or `fits`.
pub fn is_image_name(name: &[u8]) -> (r: bool)
    ensures
        r == (contains_seq(name@, tif_bytes()) || contains_seq(name@, fits_bytes())),
{
    let tif: [u8; 3] = [116u8, 105u8, 102u8];
    let fits: [u8; 4] = [102u8, 105u8, 116u8, 115u8];
    proof {
        assert(tif@ =~= tif_bytes());
        assert(fits@ =~= fits_bytes());
    }
    contains_bytes(name, tif.as_slice()) || contains_bytes(name, fits.as_slice())
}

/// The two formats a file can be decoded as.
#[derive(Clone, Copy, PartialEq, Eq, Structural, Debug)]
pub enum ImageFormat {
    Tiff,
    Fits,
}

/// The format an extension dispatches to: `fits` is FITS, `tif` and
/// `tiff` are TIFF, anything else is unsupported.
pub open spec fn format_of_extension(ext: Seq<u8>) -> Option<ImageFormat> {
    if ext == fits_bytes() {
        Some(ImageFormat::Fits)
    } else if ext == tif_bytes() || ext == tiff_bytes() {
        Some(ImageFormat::Tiff)
    } else {
        None
    }
}

/// Whether two byte strings hold the same bytes.
fn eq_bytes(a: &[u8], b: &[u8]) -> (r: bool)
    ensures
        r == (a@ == b@),
{
    if a.len() != b.len() {
        proof {
            assert(a@ != b@);
        }
        return false;
    }
    let mut i: usize = 0;
    while i < a.len()
        invariant
            a@.len() == b@.len(),
            i <= a@.len(),
            forall|t: int| 0 <= t < i ==> a@[t] == b@[t],
        decreases a@.len() - i,
    {
        if a[i] != b[i] {
            proof {
                assert(a@[i as int] != b@[i as int]);
            }
            return false;
        }
        i += 1;
    }
    proof {
        assert(a@ =~= b@);
    }
    true
}

/// Chooses the decoder for a file extension.
pub fn detect_format(ext: &[u8]) -> (r: Option<ImageFormat>)
    ensures
        r == format_of_extension(ext@),
{
    let fits: [u8; 4] = [102u8, 105u8, 116u8, 115u8];
    let tif: [u8; 3] = [116u8, 105u8, 102u8];
    let tiff: [u8; 4] = [116u8, 105u8, 102u8, 102u8];
    proof {
        assert(fits@ =~= fits_bytes());
        assert(tif@ =~= tif_bytes());
        assert(tiff@ =~= tiff_bytes());
    }
    if eq_bytes(ext, fits.as_slice()) {
        Some(ImageFormat::Fits)
    } else if eq_bytes(ext, tif.as_slice()) || eq_bytes(ext, tiff.as_slice()) {
        Some(ImageFormat::Tiff)
    } else {
        None
    }
}

/// Chooses the decoder for a file extension, reporting an unrecognised
/// extension as `UnsupportedFormat`.
pub fn format_or_error(ext: &[u8]) -> (r: Result<ImageFormat, crate::DecodeError>)
    ensures
        match format_of_extension(ext@) {
            Some(f) => r === Ok(f),
            None => r === Err(crate::DecodeError::UnsupportedFormat),
        },
{
    match detect_format(ext) {
        Some(f) => Ok(f),
        None => Err(crate::DecodeError::UnsupportedFormat),
    }
}

} // verus!

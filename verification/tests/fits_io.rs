use fitrs::{Fits, FitsData, Hdu};

use fex::display::normalize;
use fex::fits_stack::{decode_fits, FitsPayload};
use fex::reduce::reduce;
use fex::DecodeError;

/// Writes a FITS file, reads it back, and reduces its primary data
/// unit to the plain values the library takes.
fn payload_from_file(name: &str, hdu: Hdu) -> FitsPayload {
    let dir = tempfile::tempdir().expect("temporary directory");
    let path = dir.path().join(name);
    Fits::create(&path, hdu).expect("write fits");
    let fits = Fits::open(&path).expect("open fits");
    let primary = fits.get(0).expect("primary unit");
    match primary.read_data() {
        FitsData::FloatingPoint32(arr) => FitsPayload::Float32 {
            shape: arr.shape.clone(),
            bits: arr.data.iter().map(|v| v.to_bits()).collect(),
        },
        _ => FitsPayload::Other,
    }
}

#[test]
fn one_pixel_fits_round_trip() {
    let payload = payload_from_file("probe.fits", Hdu::new(&[1, 1], vec![42.0f32]));
    let stack = decode_fits(&payload).expect("decode");
    assert_eq!(stack.width, 1);
    assert_eq!(stack.height, 1);
    assert_eq!(stack.frames.len(), 1);
    assert_eq!(stack.frames[0], vec![42 * 256]);
    let reduced = reduce(&stack);
    assert_eq!(reduced.min, 42 * 256);
    assert_eq!(reduced.max, 42 * 256);
    assert_eq!(normalize(&reduced), vec![255u8, 255, 255]);
}

#[test]
fn two_by_two_fits_keeps_its_values() {
    let payload = payload_from_file(
        "plane.fits",
        Hdu::new(&[2, 2], vec![0.0f32, 1.0, 2.0, 4.0]),
    );
    let stack = decode_fits(&payload).expect("decode");
    assert_eq!(stack.width, 2);
    assert_eq!(stack.height, 2);
    assert_eq!(stack.frames[0], vec![0, 256, 512, 1024]);
    let reduced = reduce(&stack);
    assert_eq!(reduced.min, 0);
    assert_eq!(reduced.max, 1024);
}

#[test]
fn integer_fits_data_is_the_wrong_pixel_format() {
    let payload = payload_from_file("ints.fits", Hdu::new(&[2, 1], vec![3i32, 4]));
    assert!(matches!(payload, FitsPayload::Other));
    assert_eq!(
        decode_fits(&payload).unwrap_err(),
        DecodeError::UnexpectedPixelFormat
    );
}

#[test]
fn short_data_is_rejected() {
    let payload = FitsPayload::Float32 {
        shape: vec![2, 2],
        bits: vec![0u32; 3],
    };
    assert_eq!(
        decode_fits(&payload).unwrap_err(),
        DecodeError::UnexpectedPixelFormat
    );
}

#[test]
fn non_finite_samples_are_rejected() {
    let payload = FitsPayload::Float32 {
        shape: vec![1, 1],
        bits: vec![f32::NAN.to_bits()],
    };
    assert_eq!(
        decode_fits(&payload).unwrap_err(),
        DecodeError::UnexpectedPixelFormat
    );
}

#[test]
fn one_dimensional_shapes_are_rejected() {
    let payload = FitsPayload::Float32 {
        shape: vec![4],
        bits: vec![0u32; 4],
    };
    assert_eq!(
        decode_fits(&payload).unwrap_err(),
        DecodeError::UnexpectedPixelFormat
    );
}

use fex::display::normalize;
use fex::explorer::Explorer;
use fex::reduce::reduce;
use fex::sample::fixed_from_bits;
use fex::scan::{detect_format, format_or_error, is_image_name, ImageFormat};
use fex::stack::{copy_buffer, ImageStack, SAMPLE_LIMIT};
use fex::DecodeError;

fn stack(width: usize, height: usize, frames: Vec<Vec<i64>>) -> ImageStack {
    ImageStack::from_frames(width, height, frames).expect("well-formed stack")
}

#[test]
fn single_frame_reduces_to_itself() {
    let s = stack(3, 2, vec![vec![5, -7, 0, 12, 99, 3]]);
    let r = reduce(&s);
    assert_eq!(r.samples, vec![5, -7, 0, 12, 99, 3]);
    assert_eq!(r.width, 3);
    assert_eq!(r.height, 2);
    assert_eq!(r.min, -7);
    assert_eq!(r.max, 99);
}

#[test]
fn uniform_frames_average_to_the_common_value() {
    let frames = vec![vec![777; 4], vec![777; 4], vec![777; 4]];
    let r = reduce(&stack(2, 2, frames));
    assert_eq!(r.samples, vec![777; 4]);
    assert_eq!(r.min, 777);
    assert_eq!(r.max, 777);
}

#[test]
fn uniform_negative_frames_average_to_the_common_value() {
    let frames = vec![vec![-41; 2], vec![-41; 2]];
    let r = reduce(&stack(2, 1, frames));
    assert_eq!(r.samples, vec![-41, -41]);
}

#[test]
fn two_frames_average_elementwise() {
    let frames = vec![vec![0, 100, 200, 300], vec![10, 300, 200, 100]];
    let r = reduce(&stack(2, 2, frames));
    assert_eq!(r.samples, vec![5, 200, 200, 200]);
    assert_eq!(r.min, 5);
    assert_eq!(r.max, 200);
}

#[test]
fn min_and_max_bound_every_sample() {
    let frames = vec![vec![4, -9, 33, 2, 0, 15]];
    let r = reduce(&stack(3, 2, frames));
    for &v in &r.samples {
        assert!(r.min <= v && v <= r.max);
    }
    assert_eq!(r.min, -9);
    assert_eq!(r.max, 33);
}

#[test]
fn zero_max_normalizes_to_all_zero_bytes() {
    let r = reduce(&stack(2, 2, vec![vec![0, 0, 0, 0]]));
    assert_eq!(r.max, 0);
    let bytes = normalize(&r);
    assert_eq!(bytes, vec![0u8; 12]);
}

#[test]
fn negative_plane_normalizes_to_all_zero_bytes() {
    let r = reduce(&stack(2, 1, vec![vec![-500, -2]]));
    assert!(r.max <= 0);
    assert_eq!(normalize(&r), vec![0u8; 6]);
}

#[test]
fn uniform_full_value_normalizes_to_255() {
    // 65280 == 255 * 256: a uniform plane at its own maximum.
    let r = reduce(&stack(2, 2, vec![vec![65280; 4]]));
    assert_eq!(r.max, 65280);
    assert_eq!(normalize(&r), vec![255u8; 12]);
}

#[test]
fn normalization_rescales_linearly() {
    let r = reduce(&stack(2, 2, vec![vec![0, 100, 200, 300]]));
    let bytes = normalize(&r);
    assert_eq!(
        bytes,
        vec![0, 0, 0, 85, 85, 85, 170, 170, 170, 255, 255, 255]
    );
}

#[test]
fn from_frames_rejects_bad_shapes() {
    assert_eq!(
        ImageStack::from_frames(0, 4, vec![vec![]]).unwrap_err(),
        DecodeError::UnexpectedPixelFormat
    );
    assert_eq!(
        ImageStack::from_frames(2, 2, vec![]).unwrap_err(),
        DecodeError::UnexpectedPixelFormat
    );
    assert_eq!(
        ImageStack::from_frames(2, 2, vec![vec![1, 2, 3]]).unwrap_err(),
        DecodeError::UnexpectedPixelFormat
    );
    assert_eq!(
        ImageStack::from_frames(2, 2, vec![vec![0, 0, 0, SAMPLE_LIMIT + 1]]).unwrap_err(),
        DecodeError::UnexpectedPixelFormat
    );
}

#[test]
fn fixed_from_bits_converts_exact_values() {
    assert_eq!(fixed_from_bits(42.0f32.to_bits()), Some(42 * 256));
    assert_eq!(fixed_from_bits(0.0f32.to_bits()), Some(0));
    assert_eq!(fixed_from_bits((-0.0f32).to_bits()), Some(0));
    assert_eq!(fixed_from_bits(0.5f32.to_bits()), Some(128));
    assert_eq!(fixed_from_bits((-1.5f32).to_bits()), Some(-384));
    assert_eq!(fixed_from_bits(65535.0f32.to_bits()), Some(65535 * 256));
}

#[test]
fn fixed_from_bits_rounds_half_up_in_magnitude() {
    // 2^-9 is half a fixed-point step: rounds away from zero.
    assert_eq!(fixed_from_bits(0.001953125f32.to_bits()), Some(1));
    assert_eq!(fixed_from_bits((-0.001953125f32).to_bits()), Some(-1));
    // 2^-10 is a quarter step: rounds to zero.
    assert_eq!(fixed_from_bits(0.0009765625f32.to_bits()), Some(0));
    // Subnormal values are far below one step.
    assert_eq!(fixed_from_bits(1.0e-40f32.to_bits()), Some(0));
}

#[test]
fn fixed_from_bits_refuses_unrepresentable_values() {
    assert_eq!(fixed_from_bits(f32::NAN.to_bits()), None);
    assert_eq!(fixed_from_bits(f32::INFINITY.to_bits()), None);
    assert_eq!(fixed_from_bits(f32::NEG_INFINITY.to_bits()), None);
    assert_eq!(fixed_from_bits(1.0e30f32.to_bits()), None);
    assert_eq!(fixed_from_bits((-1.0e30f32).to_bits()), None);
}

#[test]
fn unknown_extension_is_not_an_image() {
    assert!(!is_image_name(b"foo.bar"));
    assert_eq!(detect_format(b"bar"), None);
    assert_eq!(
        format_or_error(b"bar").unwrap_err(),
        DecodeError::UnsupportedFormat
    );
}

#[test]
fn image_names_are_matched_by_substring() {
    assert!(is_image_name(b"scan.tif"));
    assert!(is_image_name(b"scan.tiff"));
    assert!(is_image_name(b"galaxy.fits"));
    assert!(is_image_name(b"my_tiffs_01.dat"));
    assert!(!is_image_name(b"notes.txt"));
    assert!(!is_image_name(b""));
}

#[test]
fn extensions_dispatch_to_their_decoders() {
    assert_eq!(detect_format(b"fits"), Some(ImageFormat::Fits));
    assert_eq!(detect_format(b"tif"), Some(ImageFormat::Tiff));
    assert_eq!(detect_format(b"tiff"), Some(ImageFormat::Tiff));
    assert_eq!(detect_format(b"FITS"), None);
    assert_eq!(format_or_error(b"tif").unwrap(), ImageFormat::Tiff);
}

#[test]
fn explorer_advances_and_wraps() {
    let mut e = Explorer::new(3);
    assert_eq!(e.current(), 0);
    assert_eq!(e.advance(), 1);
    assert_eq!(e.advance(), 2);
    assert_eq!(e.advance(), 0);
    assert_eq!(e.current(), 0);
}

#[test]
fn copy_buffer_copies_the_region_only() {
    let src = vec![vec![1, 2, 9], vec![3, 4, 9], vec![9, 9, 9]];
    let mut dst = vec![vec![0, 0, 7], vec![0, 0, 7], vec![5, 5, 5]];
    copy_buffer(&src, &mut dst, 2, 2);
    assert_eq!(dst, vec![vec![1, 2, 7], vec![3, 4, 7], vec![5, 5, 5]]);
}

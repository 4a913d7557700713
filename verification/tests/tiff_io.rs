use std::io::Cursor;

use tiff::encoder::colortype::{Gray16, Gray8, RGB8};
use tiff::encoder::TiffEncoder;

use fex::display::{normalize, render_stack};
use fex::reduce::reduce;
use fex::tiff_stack::decode_tiff;
use fex::DecodeError;

fn encode_gray16_pages(width: u32, height: u32, pages: &[Vec<u16>]) -> Vec<u8> {
    let mut buf: Vec<u8> = Vec::new();
    {
        let mut enc = TiffEncoder::new(Cursor::new(&mut buf)).expect("encoder");
        for page in pages {
            enc.write_image::<Gray16>(width, height, page).expect("page");
        }
    }
    buf
}

#[test]
fn two_identical_pages_round_trip() {
    let page = vec![0u16, 100, 200, 300];
    let bytes = encode_gray16_pages(2, 2, &[page.clone(), page]);
    let stack = decode_tiff(bytes).expect("decode");
    assert_eq!(stack.width, 2);
    assert_eq!(stack.height, 2);
    assert_eq!(stack.frames.len(), 2);
    for frame in &stack.frames {
        assert_eq!(frame, &vec![0, 100 * 256, 200 * 256, 300 * 256]);
    }
    let reduced = reduce(&stack);
    assert_eq!(reduced.samples, vec![0, 100 * 256, 200 * 256, 300 * 256]);
    assert_eq!(reduced.min, 0);
    assert_eq!(reduced.max, 300 * 256);
    let bytes = normalize(&reduced);
    assert_eq!(
        bytes,
        vec![0, 0, 0, 85, 85, 85, 170, 170, 170, 255, 255, 255]
    );
}

#[test]
fn render_stack_matches_the_two_steps() {
    let page = vec![7u16, 7, 7, 7, 7, 7];
    let bytes = encode_gray16_pages(3, 2, &[page]);
    let stack = decode_tiff(bytes).expect("decode");
    let (reduced, pixels) = render_stack(&stack);
    assert_eq!(reduced.min, 7 * 256);
    assert_eq!(reduced.max, 7 * 256);
    assert_eq!(pixels, vec![255u8; 18]);
}

#[test]
fn single_page_tiff_gives_one_frame() {
    let bytes = encode_gray16_pages(1, 2, &[vec![12u16, 40]]);
    let stack = decode_tiff(bytes).expect("decode");
    assert_eq!(stack.frames.len(), 1);
    assert_eq!(stack.frames[0], vec![12 * 256, 40 * 256]);
}

#[test]
fn garbage_bytes_fail_as_io() {
    assert_eq!(
        decode_tiff(b"not a tiff at all".to_vec()).unwrap_err(),
        DecodeError::IOFailure
    );
}

#[test]
fn eight_bit_pages_are_the_wrong_pixel_format() {
    let mut buf: Vec<u8> = Vec::new();
    {
        let mut enc = TiffEncoder::new(Cursor::new(&mut buf)).expect("encoder");
        enc.write_image::<Gray8>(2, 1, &[1u8, 2]).expect("page");
    }
    assert_eq!(
        decode_tiff(buf).unwrap_err(),
        DecodeError::UnexpectedPixelFormat
    );
}

#[test]
fn color_pages_are_the_wrong_pixel_format() {
    let mut buf: Vec<u8> = Vec::new();
    {
        let mut enc = TiffEncoder::new(Cursor::new(&mut buf)).expect("encoder");
        enc.write_image::<RGB8>(1, 1, &[1u8, 2, 3]).expect("page");
    }
    assert_eq!(
        decode_tiff(buf).unwrap_err(),
        DecodeError::UnexpectedPixelFormat
    );
}

use std::io::Cursor;

use image::{ImageFormat, RgbaImage};
use terrain_editor::heightmap::{decode_height16, heights_from_rgba, load_heightmap};

fn encoded(width: u32, height: u32, rgba: Vec<u8>, format: ImageFormat) -> Vec<u8> {
    let img = RgbaImage::from_raw(width, height, rgba).unwrap();
    let mut out = Cursor::new(Vec::new());
    img.write_to(&mut out, format).unwrap();
    out.into_inner()
}

fn png_bytes(width: u32, height: u32, rgba: Vec<u8>) -> Vec<u8> {
    encoded(width, height, rgba, ImageFormat::Png)
}

#[test]
fn red_is_low_byte_green_is_high_byte() {
    assert_eq!(decode_height16(0x34, 0x12), 0x1234);
    assert_eq!(decode_height16(0, 0), 0);
    assert_eq!(decode_height16(255, 255), 65535);
    assert_eq!(decode_height16(1, 0), 1);
    assert_eq!(decode_height16(0, 1), 256);
}

#[test]
fn bytes_can_be_read_back() {
    for r in [0u8, 1, 17, 128, 255] {
        for g in [0u8, 2, 99, 200, 255] {
            let h = decode_height16(r, g);
            assert_eq!((h % 256) as u8, r);
            assert_eq!((h / 256) as u8, g);
        }
    }
}

#[test]
fn samples_follow_pixels_row_by_row() {
    // 2 columns, 2 rows; blue and alpha are ignored.
    let rgba = vec![
        1, 0, 9, 255, /* (0,0) */ 2, 1, 9, 255, /* (1,0) */
        0, 2, 9, 0, /* (0,1) */ 255, 255, 7, 7, /* (1,1) */
    ];
    let grid = heights_from_rgba(2, 2, &rgba);
    assert_eq!(grid.width, 2);
    assert_eq!(grid.height, 2);
    assert_eq!(grid.samples, vec![1, 258, 512, 65535]);
}

#[test]
fn longer_buffer_is_read_up_to_the_image() {
    let rgba = vec![5, 1, 0, 0, 6, 0, 0, 0, 99, 99, 99, 99];
    let grid = heights_from_rgba(2, 1, &rgba);
    assert_eq!(grid.samples, vec![261, 6]);
}

#[test]
fn empty_image_has_no_samples() {
    let grid = heights_from_rgba(0, 3, &Vec::new());
    assert!(grid.samples.is_empty());
}

#[test]
fn png_is_decoded_into_samples() {
    let rgba = vec![
        0x34, 0x12, 0, 255, 0xff, 0x00, 0, 255, 0x00, 0x01, 0, 255, //
        0x10, 0x20, 5, 255, 0x00, 0x00, 0, 0, 0xff, 0xff, 9, 255,
    ];
    let bytes = png_bytes(3, 2, rgba);
    let grid = load_heightmap(&bytes).unwrap();
    assert_eq!(grid.width, 3);
    assert_eq!(grid.height, 2);
    assert_eq!(grid.samples, vec![0x1234, 0x00ff, 0x0100, 0x2010, 0, 0xffff]);
}

#[test]
fn decoded_buffer_has_four_bytes_per_pixel() {
    let rgba: Vec<u8> = (0..5 * 3 * 4).map(|i| i as u8).collect();
    let grid = load_heightmap(&png_bytes(5, 3, rgba.clone())).unwrap();
    assert_eq!(grid.samples.len(), 15);
    assert_eq!(grid.samples, heights_from_rgba(5, 3, &rgba).samples);
}

#[test]
fn other_formats_are_recognised_by_their_magic_bytes() {
    let rgba = vec![0x34, 0x12, 0, 255, 0x01, 0x02, 0, 255];
    let bmp = encoded(2, 1, rgba.clone(), ImageFormat::Bmp);
    let grid = load_heightmap(&bmp).unwrap();
    assert_eq!((grid.width, grid.height), (2, 1));
    assert_eq!(grid.samples, vec![0x1234, 0x0201]);
    let qoi = encoded(2, 1, rgba, ImageFormat::Qoi);
    assert_eq!(load_heightmap(&qoi).unwrap().samples, vec![0x1234, 0x0201]);
}

#[test]
fn garbage_is_not_an_image() {
    assert!(load_heightmap(&[1, 2, 3, 4, 5]).is_none());
    assert!(load_heightmap(&[]).is_none());
}

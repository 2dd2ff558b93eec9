//! Pixel addressing and bulk replacement of the framebuffer.

use ssd1315::draw_buffer::FrameBuffer;
use ssd1315::draw_buffer::PixelOutOfRange;

#[test]
fn set_pixel_reads_back_at_every_coordinate() {
    let mut fb = FrameBuffer::new();
    for x in 0u8..128 {
        for y in 0u8..64 {
            assert!(fb.set_pixel(x, y, true).is_ok());
            let byte = fb.byte_at(y / 8, x);
            assert_ne!(byte & (1 << (y % 8)), 0, "pixel ({x}, {y}) did not read back");
        }
    }
    for page in 0u8..8 {
        for col in 0u8..128 {
            assert_eq!(fb.byte_at(page, col), 0xff);
        }
    }
}

#[test]
fn set_pixel_maps_to_page_and_bit() {
    let mut fb = FrameBuffer::new();
    assert!(fb.set_pixel(5, 12, true).is_ok());
    assert_eq!(fb.byte_at(1, 5), 0x10);
    assert_eq!(fb.byte_at(1, 4), 0x00);
    assert_eq!(fb.byte_at(0, 5), 0x00);
    assert_eq!(fb.byte_at(2, 5), 0x00);
}

#[test]
fn set_pixel_out_of_range_is_reported_not_fatal() {
    let mut fb = FrameBuffer::new();
    assert!(fb.set_pixel(3, 10, true).is_ok());
    assert_eq!(fb.set_pixel(128, 0, true), Err(PixelOutOfRange { x: 128, y: 0 }));
    assert_eq!(fb.set_pixel(0, 64, true), Err(PixelOutOfRange { x: 0, y: 64 }));
    assert_eq!(fb.set_pixel(255, 255, true), Err(PixelOutOfRange { x: 255, y: 255 }));
    for page in 0u8..8 {
        for col in 0u8..128 {
            let expected = if page == 1 && col == 3 { 0x04 } else { 0x00 };
            assert_eq!(fb.byte_at(page, col), expected);
        }
    }
}

#[test]
fn set_pixel_off_clears_only_its_bit() {
    let mut fb = FrameBuffer::new();
    assert!(fb.set_pixel(7, 0, true).is_ok());
    assert!(fb.set_pixel(7, 1, true).is_ok());
    assert!(fb.set_pixel(7, 2, true).is_ok());
    assert_eq!(fb.byte_at(0, 7), 0b0000_0111);
    assert!(fb.set_pixel(7, 1, false).is_ok());
    assert_eq!(fb.byte_at(0, 7), 0b0000_0101);
}

#[test]
fn replace_from_raw_round_trips() {
    let mut fb = FrameBuffer::new();
    let mut raw = [[0u8; 128]; 8];
    for (p, row) in raw.iter_mut().enumerate() {
        for (c, byte) in row.iter_mut().enumerate() {
            *byte = (p * 31 + c) as u8;
        }
    }
    fb.replace_from_raw(&raw);
    for page in 0u8..8 {
        for col in 0u8..128 {
            assert_eq!(fb.byte_at(page, col), raw[page as usize][col as usize]);
        }
    }
}

#[test]
fn replace_from_raw_overwrites_previous_contents() {
    let mut fb = FrameBuffer::new();
    assert!(fb.set_pixel(0, 0, true).is_ok());
    let raw = [[0u8; 128]; 8];
    fb.replace_from_raw(&raw);
    for page in 0u8..8 {
        for col in 0u8..128 {
            assert_eq!(fb.byte_at(page, col), 0);
        }
    }
}

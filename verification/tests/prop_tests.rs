use thepalace::messages::flags::{PropFlags, PropFormat};
use thepalace::prop::{Color, PropRec};

#[test]
fn test_color_argb_conversion() {
    let color = Color::new(255, 128, 64, 32);
    assert_eq!(color.to_argb(), 0xFF804020);

    let color2 = Color::from_argb(0xFF804020);
    assert_eq!(color2, color);
}

#[test]
fn test_prop_header_big_endian() {
    let mut buf: Vec<u8> = vec![];
    buf.extend_from_slice(&44u16.to_be_bytes()); // width
    buf.extend_from_slice(&44u16.to_be_bytes()); // height
    buf.extend_from_slice(&0i16.to_be_bytes()); // h_offset
    buf.extend_from_slice(&0i16.to_be_bytes()); // v_offset
    buf.extend_from_slice(&0u16.to_be_bytes()); // script_offset
    buf.extend_from_slice(&PropFlags::FORMAT_S20BIT().bits().to_be_bytes()); // flags

    let prop = PropRec::from_bytes(&buf).unwrap();
    assert_eq!(prop.width, 44);
    assert_eq!(prop.height, 44);
    assert_eq!(prop.format(), PropFormat::S20Bit);
}

use std::io::Write;
use thepalace::prop::{
    alpha_of_level, decode_32bit, decode_8bit, encode_s20bit_levels, levels_20bit, levels_s20bit, pack_s20bit,
    Levels, PROP_HEIGHT, PROP_PIXELS, PROP_WIDTH,
};
use thepalace::buffer::ErrorKind;

fn zlib(data: &[u8]) -> Vec<u8> {
    let mut e = flate2::write::ZlibEncoder::new(Vec::new(), flate2::Compression::default());
    e.write_all(data).unwrap();
    e.finish().unwrap()
}

fn quantize(c: u8) -> u8 {
    const SCALE_S20BIT: f32 = 31.0 / 255.0;
    (((c as f32 * SCALE_S20BIT).round() as u32) & 31) as u8
}

fn scale5(v: u8) -> u8 {
    const DITHER_S20BIT: f32 = 255.0 / 31.0;
    (v as f32 * DITHER_S20BIT) as u8
}

#[test]
fn test_s20bit_encode_decode_roundtrip() {
    // Create a simple test pattern
    let mut pixels = vec![Color::new(0, 0, 0, 0); PROP_PIXELS];

    // Set some colored pixels
    pixels[0] = Color::new(255, 255, 0, 0); // Red
    pixels[1] = Color::new(255, 0, 255, 0); // Green
    pixels[2] = Color::new(255, 0, 0, 255); // Blue
    pixels[3] = Color::new(128, 128, 128, 128); // Gray

    // Encode
    let levels: Vec<Levels> =
        pixels.iter().map(|c| Levels { a: quantize(c.a), r: quantize(c.r), g: quantize(c.g), b: quantize(c.b) }).collect();
    let data = encode_s20bit_levels(&levels, PROP_WIDTH as u16, PROP_HEIGHT as u16).expect("Failed to encode");
    let prop = PropRec::new(PROP_WIDTH as u16, PROP_HEIGHT as u16, 0, 0, PropFlags::FORMAT_S20BIT(), data);

    // Decode
    let decoded_levels = levels_s20bit(&prop.image_data, prop.width, prop.height).expect("Failed to decode");
    let decoded: Vec<Color> =
        decoded_levels.iter().map(|l| Color::new(scale5(l.a), scale5(l.r), scale5(l.g), scale5(l.b))).collect();
    assert_eq!(decoded.len(), PROP_PIXELS);

    // Check colors are approximately correct (some precision loss expected)
    // S20-bit uses 5 bits per channel, so expect rounding
    assert!((decoded[0].r as i16 - 255).abs() <= 8);
    assert!((decoded[1].g as i16 - 255).abs() <= 8);
    assert!((decoded[2].b as i16 - 255).abs() <= 8);
    assert_eq!(decoded_levels, levels);
}

#[test]
fn prop_s20_pack_layout() {
    let levels = vec![Levels { a: 31, r: 1, g: 2, b: 3 }, Levels { a: 4, r: 5, g: 6, b: 7 }];
    let packed = pack_s20bit(&levels, 2, 1);
    // r1=1 at bit 19, g1=2 at bit 14, b1=3 at bit 9, a1=31 at bit 4: 0x0887F0;
    // then a1's low bits, r2=5, g2=6, b2=7, a2=4: 0xF298E4.
    assert_eq!(packed, vec![0x08, 0x87, 0xF2, 0x98, 0xE4]);
}

#[test]
fn prop_s20_odd_width_pads_with_zero_levels() {
    let levels = vec![Levels { a: 1, r: 1, g: 1, b: 1 }; 3];
    let packed = pack_s20bit(&levels, 3, 1);
    assert_eq!(packed.len(), 10);
    let back = levels_s20bit(&zlib(&packed), 3, 1).unwrap();
    // Three pixels ask for one pair; the third pixel is padding.
    assert_eq!(back.len(), 3);
    assert_eq!(back[0], levels[0]);
    assert_eq!(back[1], levels[1]);
    assert_eq!(back[2], Levels { a: 0, r: 0, g: 0, b: 0 });
}

#[test]
fn prop_s20_reads_a_pair_even_for_one_pixel() {
    let levels = vec![Levels { a: 2, r: 3, g: 4, b: 5 }, Levels { a: 6, r: 7, g: 8, b: 9 }];
    let packed = pack_s20bit(&levels, 2, 1);
    let back = levels_s20bit(&zlib(&packed), 1, 1).unwrap();
    assert_eq!(back, levels);
}

#[test]
fn prop_20bit_levels() {
    let data = [0xFC, 0x00, 0xFF, 0xF0, 0x42];
    let back = levels_20bit(&zlib(&data), 2, 1).unwrap();
    assert_eq!(back[0], Levels { r: 63, g: 0, b: 3, a: 3 });
    assert_eq!(back[1], Levels { r: 63, g: 48, b: 16, a: 2 });
    assert_eq!(alpha_of_level(3), 255);
    assert_eq!(alpha_of_level(1), 85);
}

#[test]
fn prop_20bit_short_data_pads() {
    let back = levels_20bit(&zlib(&[1, 2, 3]), 2, 2).unwrap();
    assert_eq!(back, vec![Levels { a: 0, r: 0, g: 0, b: 0 }; 4]);
}

#[test]
fn prop_compressed_garbage_is_invalid_data() {
    let err = levels_s20bit(&[1, 2, 3, 4], 2, 2).unwrap_err();
    assert_eq!(err.kind(), ErrorKind::InvalidData);
    let err = decode_32bit(&[0xff, 0xff], 2, 2).unwrap_err();
    assert_eq!(err.kind(), ErrorKind::InvalidData);
}

#[test]
fn prop_32bit_decode() {
    let raw = [10, 20, 30, 40, 50, 60, 70, 80, 1, 2];
    let pixels = decode_32bit(&zlib(&raw), 3, 1).unwrap();
    assert_eq!(pixels, vec![Color::new(40, 10, 20, 30), Color::new(80, 50, 60, 70), Color::new(0, 0, 0, 0)]);
}

#[test]
fn prop_8bit_decode_starts_on_second_row() {
    // 2x2 image: one run copies two grays (7 and 9); the next skips 2.
    let data = [0x02, 7, 9, 0x20];
    let pixels = decode_8bit(&data, 2, 2).unwrap();
    assert_eq!(pixels[0], Color::new(0, 0, 0, 0));
    assert_eq!(pixels[1], Color::new(0, 0, 0, 0));
    assert_eq!(pixels[2], Color::new(255, 7, 7, 7));
    assert_eq!(pixels[3], Color::new(255, 9, 9, 9));
}

#[test]
fn prop_8bit_run_past_row_is_invalid() {
    let err = decode_8bit(&[0x03, 1, 2, 3], 2, 1).unwrap_err();
    assert_eq!(err.kind(), ErrorKind::InvalidData);
}

#[test]
fn prop_8bit_short_data_is_eof() {
    let err = decode_8bit(&[0x02, 1], 2, 1).unwrap_err();
    assert_eq!(err.kind(), ErrorKind::UnexpectedEof);
    let err = decode_8bit(&[], 2, 1).unwrap_err();
    assert_eq!(err.kind(), ErrorKind::UnexpectedEof);
}

#[test]
fn prop_8bit_runaway_is_invalid() {
    let data = vec![0u8; 7000];
    let err = decode_8bit(&data, 1, 1).unwrap_err();
    assert_eq!(err.kind(), ErrorKind::InvalidData);
}

#[test]
fn prop_header_little_endian_and_write() {
    let bytes = [44, 0, 44, 0, 0xfe, 0xff, 2, 0, 0, 0, 0, 1, 9, 8];
    let prop = PropRec::from_bytes(&bytes).unwrap();
    assert_eq!(prop.width, 44);
    assert_eq!(prop.h_offset, -2);
    assert_eq!(prop.v_offset, 2);
    assert_eq!(prop.format(), PropFormat::Rgb32);
    assert_eq!(prop.image_data, vec![9, 8]);
    let mut out = Vec::new();
    prop.to_bytes(&mut out);
    assert_eq!(out, vec![0, 44, 0, 44, 0xff, 0xfe, 0, 2, 0, 0, 1, 0, 9, 8]);
}

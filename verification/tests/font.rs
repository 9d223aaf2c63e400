use zzt::binary::BinaryAsset;
use zzt::error::DosError;
use zzt::font::{DosFont, GlyphImage};

fn patterned(len: usize) -> Vec<u8> {
    (0..len).map(|i| ((i * 37 + 11) % 256) as u8).collect()
}

fn font(data: Vec<u8>, columns: u32, rows: u32, width: u32, height: u32, bytes: u32) -> DosFont {
    DosFont {
        image: BinaryAsset { data },
        num_columns: columns,
        num_rows: rows,
        char_width: width,
        char_height: height,
        bytes_per_char: bytes,
    }
}

fn decode(font: DosFont) -> GlyphImage {
    match font.into_image() {
        Ok(image) => image,
        Err(error) => panic!("the font does not decode: {:?}", error),
    }
}

fn by_the_formula(data: &[u8], columns: u32, rows: u32, width: u32, height: u32, bytes: u32) -> image::GrayAlphaImage {
    image::GrayAlphaImage::from_fn(columns * width, rows * height, |x, y| {
        let glyph = (x / width) + ((y / height) * columns);
        let glyph_row = glyph / columns;
        let y_offset = y - (glyph_row * height);
        let place = ((glyph * bytes) + y_offset) as usize;
        let luma: u8 = if (data[place] >> (x % 8)) & 1 == 1 { 255 } else { 0 };
        image::LumaA([luma, luma])
    })
}

#[test]
fn new_8bit_is_a_sixteen_by_sixteen_page_of_eight_by_eight_glyphs() {
    let font = DosFont::new_8bit(BinaryAsset { data: vec![1, 2, 3] });
    assert_eq!(font.image.data, vec![1, 2, 3]);
    assert_eq!(font.num_columns, 16);
    assert_eq!(font.num_rows, 16);
    assert_eq!(font.char_width, 8);
    assert_eq!(font.char_height, 8);
    assert_eq!(font.bytes_per_char, 8);
    assert!(font.is_valid());
    assert!(!font.has_all_glyphs());
}

#[test]
fn decoded_image_has_the_declared_size_and_two_kinds_of_pixel() {
    let image = decode(DosFont::new_8bit(BinaryAsset { data: patterned(2048) }));
    assert_eq!(image.width(), 128);
    assert_eq!(image.height(), 128);
    assert_eq!(image.as_raw().len(), 2 * 128 * 128);
    let mut ink = 0;
    let mut clear = 0;
    for y in 0..128 {
        for x in 0..128 {
            match image.get_pixel(x, y) {
                Some((255, 255)) => ink += 1,
                Some((0, 0)) => clear += 1,
                other => panic!("pixel ({}, {}) is {:?}", x, y, other),
            }
        }
    }
    assert_eq!(ink + clear, 128 * 128);
    assert!(ink > 0 && clear > 0);
}

#[test]
fn decoded_image_of_another_layout_has_its_declared_size() {
    let image = decode(font(patterned(3 * 2 * 5), 3, 2, 6, 4, 5));
    assert_eq!(image.width(), 18);
    assert_eq!(image.height(), 8);
    assert_eq!(image.into_raw().len(), 2 * 18 * 8);
}

#[test]
fn a_single_set_bit_is_a_single_white_pixel() {
    let mut data = vec![0u8; 2048];
    data[0] = 0b0000_0001;
    let image = decode(font(data, 16, 16, 8, 8, 8));
    assert_eq!(image.get_pixel(0, 0), Some((255, 255)));
    for y in 0..8 {
        for x in 0..8 {
            if (x, y) != (0, 0) {
                assert_eq!(image.get_pixel(x, y), Some((0, 0)), "pixel ({}, {})", x, y);
            }
        }
    }
    let raw = image.into_raw();
    assert_eq!(&raw[0..2], &[255, 255]);
    assert!(raw[2..].iter().all(|sample| *sample == 0));
}

#[test]
fn the_lowest_bit_is_the_leftmost_pixel() {
    let mut data = vec![0u8; 2048];
    data[0] = 0b0000_0010;
    data[1] = 0b1000_0000;
    let image = decode(DosFont::new_8bit(BinaryAsset { data }));
    assert_eq!(image.get_pixel(0, 0), Some((0, 0)));
    assert_eq!(image.get_pixel(1, 0), Some((255, 255)));
    assert_eq!(image.get_pixel(7, 1), Some((255, 255)));
    assert_eq!(image.get_pixel(6, 1), Some((0, 0)));
}

#[test]
fn a_glyph_stands_at_its_column_and_row() {
    let mut data = vec![0u8; 2048];
    data[17 * 8 + 3] = 0b0010_0000;
    data[255 * 8 + 7] = 0b1000_0000;
    let image = decode(DosFont::new_8bit(BinaryAsset { data }));
    assert_eq!(image.get_pixel(8 + 5, 8 + 3), Some((255, 255)));
    assert_eq!(image.get_pixel(127, 127), Some((255, 255)));
    let raw = image.as_raw();
    let ink: Vec<usize> = (0..128 * 128).filter(|place| raw[2 * place] == 255).collect();
    assert_eq!(ink, vec![(8 + 3) * 128 + 8 + 5, 127 * 128 + 127]);
}

#[test]
fn a_narrow_glyph_takes_its_bit_by_the_column_of_the_image() {
    // Two glyphs, four pixels wide: pixel 4 of the image is the first of the
    // second glyph and is read from bit 4 of that glyph's byte.
    let image = decode(font(vec![0b0000_1111, 0b0001_0000], 2, 1, 4, 1, 1));
    let row: Vec<Option<(u8, u8)>> = (0..8).map(|x| image.get_pixel(x, 0)).collect();
    let ink = Some((255, 255));
    let clear = Some((0, 0));
    assert_eq!(row, vec![ink, ink, ink, ink, ink, clear, clear, clear]);
}

#[test]
fn bytes_past_the_glyph_height_are_not_drawn() {
    // Three bytes a glyph, two rows a glyph: the third byte of each glyph is skipped.
    let image = decode(font(vec![1, 2, 255, 4, 8, 255], 2, 1, 8, 2, 3));
    assert_eq!(image.width(), 16);
    assert_eq!(image.height(), 2);
    let raw = image.as_raw();
    let ink: Vec<usize> = (0..32).filter(|place| raw[2 * place] == 255).collect();
    assert_eq!(ink, vec![0, 8 + 2, 16 + 1, 16 + 8 + 3]);
}

#[test]
fn pixels_outside_the_image_are_none() {
    let image = decode(DosFont::new_8bit(BinaryAsset { data: vec![255u8; 2048] }));
    assert_eq!(image.get_pixel(127, 127), Some((255, 255)));
    assert_eq!(image.get_pixel(128, 0), None);
    assert_eq!(image.get_pixel(0, 128), None);
    assert_eq!(image.get_pixel(u32::MAX, u32::MAX), None);
}

#[test]
fn a_buffer_one_byte_short_is_malformed() {
    let short = DosFont::new_8bit(BinaryAsset { data: patterned(2047) });
    assert!(!short.has_all_glyphs());
    assert_eq!(short.into_image().err(), Some(DosError::MalformedFont));
}

#[test]
fn an_empty_buffer_is_malformed() {
    let empty = DosFont::new_8bit(BinaryAsset { data: Vec::new() });
    assert_eq!(empty.into_image().err(), Some(DosError::MalformedFont));
}

#[test]
fn a_short_buffer_is_malformed_whatever_the_layout() {
    assert_eq!(font(patterned(7), 1, 1, 9, 8, 8).into_image().err(), Some(DosError::MalformedFont));
    assert_eq!(
        font(patterned(100), u32::MAX, u32::MAX, u32::MAX, u32::MAX, u32::MAX).into_image().err(),
        Some(DosError::MalformedFont)
    );
}

#[test]
fn a_longer_buffer_decodes_as_its_first_bytes_do() {
    let mut data = patterned(2048);
    let exact = decode(DosFont::new_8bit(BinaryAsset { data: data.clone() })).into_raw();
    data.extend_from_slice(&[255, 255, 255]);
    let longer = DosFont::new_8bit(BinaryAsset { data });
    assert!(longer.has_all_glyphs());
    assert_eq!(decode(longer).into_raw(), exact);
}

#[test]
fn a_layout_that_cannot_be_decoded_is_refused() {
    let wide = font(patterned(64), 1, 1, 9, 8, 8);
    assert!(!wide.is_valid());
    assert_eq!(wide.into_image().err(), Some(DosError::InvalidDescriptor));
    let tall = font(patterned(64), 1, 1, 8, 9, 8);
    assert!(!tall.is_valid());
    assert_eq!(tall.into_image().err(), Some(DosError::InvalidDescriptor));
    for layout in [(0, 1, 8, 8, 8), (1, 0, 8, 8, 8), (1, 1, 0, 8, 8), (1, 1, 8, 0, 8), (1, 1, 8, 0, 0)] {
        let (columns, rows, width, height, bytes) = layout;
        let empty = font(patterned(64), columns, rows, width, height, bytes);
        assert!(!empty.is_valid());
        assert_eq!(empty.into_image().err(), Some(DosError::InvalidDescriptor));
    }
    let huge = font(Vec::new(), u32::MAX, 1, 2, 1, 0);
    assert!(huge.has_all_glyphs());
    assert_eq!(huge.into_image().err(), Some(DosError::InvalidDescriptor));
}

#[test]
fn the_widest_and_the_narrowest_glyphs_decode() {
    assert!(font(patterned(8), 1, 1, 8, 8, 8).is_valid());
    assert!(font(patterned(1), 1, 1, 1, 1, 1).is_valid());
    let image = decode(font(vec![0b1111_1110], 1, 1, 1, 1, 1));
    assert_eq!(image.into_raw(), vec![0, 0]);
}

#[test]
fn decoding_and_encoding_a_glyph_again_gives_its_bytes() {
    let data = patterned(2048);
    let image = decode(DosFont::new_8bit(BinaryAsset { data: data.clone() }));
    for code in [0u32, 1, 17, 65, 254, 255] {
        let mut encoded = Vec::new();
        for row in 0..8 {
            let mut byte = 0u8;
            for bit in 0..8 {
                let x = (code % 16) * 8 + bit;
                let y = (code / 16) * 8 + row;
                if image.get_pixel(x, y) == Some((255, 255)) {
                    byte |= 1 << bit;
                }
            }
            encoded.push(byte);
        }
        let start = (code * 8) as usize;
        assert_eq!(encoded, data[start..start + 8].to_vec(), "glyph {}", code);
    }
}

#[test]
fn the_buffer_holds_what_the_formula_gives_pixel_by_pixel() {
    let data = patterned(2048);
    let expected = by_the_formula(&data, 16, 16, 8, 8, 8);
    let image = decode(DosFont::new_8bit(BinaryAsset { data }));
    assert_eq!((image.width(), image.height()), expected.dimensions());
    assert_eq!(image.as_raw(), expected.as_raw());
    for (x, y, pixel) in expected.enumerate_pixels() {
        assert_eq!(image.get_pixel(x, y), Some((pixel.0[0], pixel.0[1])));
    }
}

#[test]
fn the_buffer_of_an_odd_layout_holds_what_the_formula_gives() {
    let data = patterned(7 * 3 * 11);
    let expected = by_the_formula(&data, 7, 3, 5, 9, 11);
    let image = decode(font(data, 7, 3, 5, 9, 11));
    assert_eq!((image.width(), image.height()), (35, 27));
    assert_eq!(image.into_raw(), expected.into_raw());
}

#[test]
fn the_raw_samples_make_the_same_image_again() {
    let image = decode(DosFont::new_8bit(BinaryAsset { data: patterned(2048) }));
    let (width, height) = (image.width(), image.height());
    let copy = image.as_raw().clone();
    let rebuilt = image::GrayAlphaImage::from_raw(width, height, image.into_raw());
    let rebuilt = rebuilt.expect("the samples fill the image");
    assert_eq!(rebuilt.as_raw(), &copy);
    assert_eq!(rebuilt.get_pixel(5, 0).0, [copy[10], copy[11]]);
}

#[test]
fn bytes_are_copied_as_they_are() {
    let bytes = [9u8, 8, 7, 0, 255];
    assert_eq!(BinaryAsset::from_bytes(&bytes).data, bytes.to_vec());
    assert_eq!(BinaryAsset::from_bytes(&[]).data, Vec::<u8>::new());
}

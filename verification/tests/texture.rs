use snuff::png_layout::is_admitted_png;
use snuff::{DecodedImage, SamplerFilter, Texture2D};

fn tiny_png() -> Vec<u8> {
    vec![
        137, 80, 78, 71, 13, 10, 26, 10, 0, 0, 0, 13, 73, 72, 68, 82, 0, 0, 0, 2, 0, 0, 0, 3, 8,
        6, 0, 0, 0, 185, 234, 222, 129, 0, 0, 0, 29, 73, 68, 65, 84, 120, 156, 99, 248, 207, 192,
        240, 31, 12, 129, 52, 16, 48, 52, 48, 48, 50, 49, 179, 176, 178, 177, 115, 0, 0, 148, 4,
        8, 157, 65, 123, 100, 245, 0, 0, 0, 0, 73, 69, 78, 68, 174, 66, 96, 130,
    ]
}

#[test]
fn empty_texture_has_size_and_linear_filters() {
    let texture = Texture2D::empty(7, 4, 5);
    assert_eq!(texture.texture(), 7);
    assert_eq!(texture.dimensions(), (4, 5));
    assert_eq!(texture.filtering(), (SamplerFilter::Linear, SamplerFilter::Linear));
    assert!(texture.pixels().is_empty());
}

#[test]
fn nearest_filter_switches_both_filters_only() {
    let texture = Texture2D::empty(7, 4, 5).with_nearest_filter();
    assert_eq!(texture.filtering(), (SamplerFilter::Nearest, SamplerFilter::Nearest));
    assert_eq!(texture.dimensions(), (4, 5));
    assert_eq!(texture.texture(), 7);
}

#[test]
fn from_data_turns_the_rows_upside_down() {
    let data: Vec<u8> = vec![
        1, 1, 1, 1, 2, 2, 2, 2, // top row
        3, 3, 3, 3, 4, 4, 4, 4, // middle row
        5, 5, 5, 5, 6, 6, 6, 6, // bottom row
    ];
    let texture = Texture2D::from_data(1, &data, 2, 3);
    assert_eq!(texture.dimensions(), (2, 3));
    assert_eq!(
        texture.pixels(),
        &vec![5, 5, 5, 5, 6, 6, 6, 6, 3, 3, 3, 3, 4, 4, 4, 4, 1, 1, 1, 1, 2, 2, 2, 2]
    );
}

#[test]
fn from_data_keeps_a_short_last_row_first() {
    let data: Vec<u8> = vec![1, 1, 1, 1, 2, 2, 2, 2, 9, 9];
    let texture = Texture2D::from_data(1, &data, 1, 3);
    assert_eq!(texture.pixels(), &vec![9, 9, 2, 2, 2, 2, 1, 1, 1, 1]);
}

#[test]
fn single_pixel_is_unchanged() {
    let texture = Texture2D::from_data(0, &vec![255, 255, 255, 255], 1, 1);
    assert_eq!(texture.pixels(), &vec![255, 255, 255, 255]);
}

#[test]
fn from_image_decodes_and_flips() {
    let texture = Texture2D::from_image(3, &tiny_png()).expect("a valid image decodes");
    assert_eq!(texture.texture(), 3);
    assert_eq!(texture.dimensions(), (2, 3));
    assert_eq!(texture.filtering(), (SamplerFilter::Linear, SamplerFilter::Linear));
    assert_eq!(
        texture.pixels(),
        &vec![
            1, 2, 3, 4, 5, 6, 7, 8, // bottom row of the file
            0, 0, 255, 255, 255, 255, 0, 128, // middle row
            255, 0, 0, 255, 0, 255, 0, 255, // top row
        ]
    );
}

#[test]
fn from_image_rejects_what_is_no_image() {
    assert!(Texture2D::from_image(3, &vec![1, 2, 3, 4, 5]).is_none());
    assert!(Texture2D::from_image(3, &vec![]).is_none());
}

#[test]
fn from_decoded_refuses_dimensions_beyond_sixteen_bits() {
    let wide = DecodedImage { width: 0x1_0001, height: 1, pixels: vec![1, 2, 3, 4] };
    assert!(Texture2D::from_decoded(9, &wide).is_none());
    let tall = DecodedImage { width: 1, height: 0x1_0000, pixels: vec![1, 2, 3, 4] };
    assert!(Texture2D::from_decoded(9, &tall).is_none());
    let zero = DecodedImage { width: 0, height: 4, pixels: vec![] };
    assert!(Texture2D::from_decoded(9, &zero).is_none());
}

#[test]
fn from_decoded_takes_the_largest_size_that_fits() {
    let image = DecodedImage { width: 0xFFFF, height: 0xFFFF, pixels: vec![1, 2, 3, 4] };
    let texture = Texture2D::from_decoded(9, &image).expect("the size fits");
    assert_eq!(texture.dimensions(), (0xFFFF, 0xFFFF));
    assert_eq!(texture.pixels(), &vec![1, 2, 3, 4]);
}

fn crc32(bytes: &[u8]) -> u32 {
    let mut crc: u32 = 0xFFFF_FFFF;
    for byte in bytes {
        crc ^= u32::from(*byte);
        for _ in 0..8 {
            crc = if crc & 1 == 1 { (crc >> 1) ^ 0xEDB8_8320 } else { crc >> 1 };
        }
    }
    !crc
}

fn adler32(bytes: &[u8]) -> u32 {
    let (mut a, mut b) = (1u32, 0u32);
    for byte in bytes {
        a = (a + u32::from(*byte)) % 65521;
        b = (b + a) % 65521;
    }
    (b << 16) | a
}

/// `raw` as a zlib stream of one stored block.
fn zlib_stored(raw: &[u8]) -> Vec<u8> {
    let length = raw.len() as u16;
    let mut out = vec![0x78, 0x01, 0x01];
    out.extend_from_slice(&length.to_le_bytes());
    out.extend_from_slice(&(!length).to_le_bytes());
    out.extend_from_slice(raw);
    out.extend_from_slice(&adler32(raw).to_be_bytes());
    out
}

fn chunk(kind: &[u8; 4], data: &[u8]) -> Vec<u8> {
    let mut out = (data.len() as u32).to_be_bytes().to_vec();
    let mut body = kind.to_vec();
    body.extend_from_slice(data);
    out.extend_from_slice(&body);
    out.extend_from_slice(&crc32(&body).to_be_bytes());
    out
}

fn header(width: u32, height: u32, depth: u8, color: u8, interlace: u8) -> Vec<u8> {
    let mut data = width.to_be_bytes().to_vec();
    data.extend_from_slice(&height.to_be_bytes());
    data.extend_from_slice(&[depth, color, 0, 0, interlace]);
    chunk(b"IHDR", &data)
}

/// A PNG file: the header, then `extra` chunks, then the rows (each with
/// its filter byte) stored in one data chunk, then the end chunk.
fn png(head: Vec<u8>, extra: &[Vec<u8>], rows: &[u8]) -> Vec<u8> {
    let mut out = vec![137, 80, 78, 71, 13, 10, 26, 10];
    out.extend(head);
    for chunk in extra {
        out.extend_from_slice(chunk);
    }
    out.extend(chunk(b"IDAT", &zlib_stored(rows)));
    out.extend(chunk(b"IEND", &[]));
    out
}

#[test]
fn rgba_png_decodes() {
    let rows = [0, 10, 20, 30, 40, 50, 60, 70, 80, 0, 1, 2, 3, 4, 5, 6, 7, 8];
    let file = png(header(2, 2, 8, 6, 0), &[], &rows);
    assert!(is_admitted_png(&file));
    let texture = Texture2D::from_image(1, &file).expect("decodes");
    assert_eq!(texture.dimensions(), (2, 2));
    assert_eq!(
        texture.pixels(),
        &vec![1, 2, 3, 4, 5, 6, 7, 8, 10, 20, 30, 40, 50, 60, 70, 80]
    );
}

#[test]
fn rgb_png_gets_an_opaque_alpha() {
    let rows = [0, 10, 20, 30, 40, 50, 60];
    let file = png(header(2, 1, 8, 2, 0), &[], &rows);
    let texture = Texture2D::from_image(1, &file).expect("decodes");
    assert_eq!(texture.dimensions(), (2, 1));
    assert_eq!(texture.pixels(), &vec![10, 20, 30, 255, 40, 50, 60, 255]);
}

#[test]
fn grey_png_is_spread_over_the_colours() {
    let file = png(header(1, 2, 8, 0, 0), &[], &[0, 7, 0, 9]);
    let texture = Texture2D::from_image(1, &file).expect("decodes");
    assert_eq!(texture.dimensions(), (1, 2));
    assert_eq!(texture.pixels(), &vec![9, 9, 9, 255, 7, 7, 7, 255]);

    let file = png(header(1, 1, 8, 4, 0), &[], &[0, 7, 100]);
    let texture = Texture2D::from_image(1, &file).expect("decodes");
    assert_eq!(texture.pixels(), &vec![7, 7, 7, 100]);
}

#[test]
fn filtered_rows_are_undone() {
    // the second row is stored as the difference to the row above
    let rows = [0, 10, 20, 30, 40, 2, 1, 1, 1, 1];
    let file = png(header(1, 2, 8, 6, 0), &[], &rows);
    let texture = Texture2D::from_image(1, &file).expect("decodes");
    assert_eq!(texture.pixels(), &vec![11, 21, 31, 41, 10, 20, 30, 40]);
}

#[test]
fn chunks_that_carry_no_pixels_are_passed_over() {
    let extra = [chunk(b"gAMA", &[0, 0, 177, 143]), chunk(b"tEXt", b"Title\0t")];
    let file = png(header(1, 1, 8, 6, 0), &extra, &[0, 1, 2, 3, 4]);
    assert!(is_admitted_png(&file));
    let texture = Texture2D::from_image(1, &file).expect("decodes");
    assert_eq!(texture.pixels(), &vec![1, 2, 3, 4]);
}

#[test]
fn palette_png_decodes() {
    let palette = chunk(b"PLTE", &[10, 20, 30, 40, 50, 60, 70, 80, 90]);
    let file = png(header(3, 1, 8, 3, 0), &[palette.clone()], &[0, 2, 0, 1]);
    assert!(is_admitted_png(&file));
    let texture = Texture2D::from_image(1, &file).expect("decodes");
    assert_eq!(texture.dimensions(), (3, 1));
    assert_eq!(
        texture.pixels(),
        &vec![70, 80, 90, 255, 10, 20, 30, 255, 40, 50, 60, 255]
    );

    // two bits per pixel: the four pixels of a row share one byte
    let file = png(header(4, 1, 2, 3, 0), &[palette.clone()], &[0, 0b00_01_10_01]);
    let texture = Texture2D::from_image(1, &file).expect("decodes");
    assert_eq!(
        texture.pixels(),
        &vec![10, 20, 30, 255, 40, 50, 60, 255, 70, 80, 90, 255, 40, 50, 60, 255]
    );

    // with transparency for the first two entries; an index without an
    // entry is black
    let transparency = chunk(b"tRNS", &[0, 128]);
    let file = png(header(4, 1, 8, 3, 0), &[palette, transparency], &[0, 0, 1, 2, 9]);
    let texture = Texture2D::from_image(1, &file).expect("decodes");
    assert_eq!(
        texture.pixels(),
        &vec![10, 20, 30, 0, 40, 50, 60, 128, 70, 80, 90, 255, 0, 0, 0, 255]
    );
}

#[test]
fn grey_png_of_few_bits_is_scaled_up() {
    let file = png(header(3, 1, 1, 0, 0), &[], &[0, 0b101_00000]);
    let texture = Texture2D::from_image(1, &file).expect("decodes");
    assert_eq!(
        texture.pixels(),
        &vec![255, 255, 255, 255, 0, 0, 0, 255, 255, 255, 255, 255]
    );
    let file = png(header(2, 1, 4, 0, 0), &[], &[0, 0x3F]);
    let texture = Texture2D::from_image(1, &file).expect("decodes");
    assert_eq!(texture.pixels(), &vec![51, 51, 51, 255, 255, 255, 255, 255]);
}

#[test]
fn sixteen_bits_are_cut_to_the_upper_eight() {
    let file = png(header(1, 1, 16, 6, 0), &[], &[0, 1, 200, 2, 201, 3, 202, 4, 203]);
    let texture = Texture2D::from_image(1, &file).expect("decodes");
    assert_eq!(texture.pixels(), &vec![1, 2, 3, 4]);
    let file = png(header(2, 1, 16, 0, 0), &[], &[0, 5, 200, 6, 201]);
    let texture = Texture2D::from_image(1, &file).expect("decodes");
    assert_eq!(texture.pixels(), &vec![5, 5, 5, 255, 6, 6, 6, 255]);
}

#[test]
fn interlaced_png_is_put_in_order() {
    // the passes of a two by two image: the first pixel, the one to its
    // right, then the second row
    let file = png(header(2, 2, 8, 0, 1), &[], &[0, 1, 0, 2, 0, 3, 4]);
    let texture = Texture2D::from_image(1, &file).expect("decodes");
    assert_eq!(texture.dimensions(), (2, 2));
    assert_eq!(
        texture.pixels(),
        &vec![3, 3, 3, 255, 4, 4, 4, 255, 1, 1, 1, 255, 2, 2, 2, 255]
    );
}

#[test]
fn transparent_colour_gets_no_alpha() {
    let see_through = chunk(b"tRNS", &[0, 1, 0, 2, 0, 3]);
    let file = png(header(2, 1, 8, 2, 0), &[see_through], &[0, 1, 2, 3, 4, 5, 6]);
    let texture = Texture2D::from_image(1, &file).expect("decodes");
    assert_eq!(texture.pixels(), &vec![1, 2, 3, 0, 4, 5, 6, 255]);

    let see_through = chunk(b"tRNS", &[0, 7]);
    let file = png(header(2, 1, 8, 0, 0), &[see_through], &[0, 7, 8]);
    let texture = Texture2D::from_image(1, &file).expect("decodes");
    assert_eq!(texture.pixels(), &vec![7, 7, 7, 0, 8, 8, 8, 255]);
}

#[test]
fn admitted_files_that_do_not_decode_give_nothing() {
    let not_decoded = [
        // a palette image without a palette
        png(header(1, 1, 8, 3, 0), &[], &[0, 0]),
        // transparency too short for the colour type
        png(header(1, 1, 8, 0, 0), &[chunk(b"tRNS", &[1])], &[0, 1]),
        png(header(1, 1, 8, 2, 0), &[chunk(b"tRNS", &[1, 2, 3])], &[0, 1, 2, 3]),
        // transparency where the image has its own alpha
        png(header(1, 1, 8, 6, 0), &[chunk(b"tRNS", &[1, 2])], &[0, 1, 2, 3, 4]),
    ];
    for file in not_decoded.iter() {
        assert!(is_admitted_png(file));
        assert!(Texture2D::from_image(1, file).is_none());
    }
}

/// A file in which `late` follows the first chunk of image data.
fn png_with_late_chunk(head: Vec<u8>, early: &[Vec<u8>], late: Vec<u8>, rows: &[u8]) -> Vec<u8> {
    let mut out = vec![137, 80, 78, 71, 13, 10, 26, 10];
    out.extend(head);
    for chunk in early {
        out.extend_from_slice(chunk);
    }
    out.extend(chunk(b"IDAT", &zlib_stored(rows)));
    out.extend(late);
    out.extend(chunk(b"IEND", &[]));
    out
}

#[test]
fn layouts_that_are_not_decoded_are_refused() {
    let pixel = [0u8, 1, 2, 3, 4];
    let palette = chunk(b"PLTE", &[1, 2, 3]);
    let refused = [
        png(header(1, 1, 16, 3, 0), &[palette.clone()], &[0, 1, 2]),
        png(header(1, 1, 4, 2, 0), &[], &[0, 1, 2]),
        png(header(1, 1, 4, 4, 0), &[], &[0, 1]),
        png(header(1, 1, 4, 6, 0), &[], &[0, 1, 2]),
        png(header(1, 1, 3, 0, 0), &[], &[0, 1]),
        png(header(1, 1, 8, 1, 0), &[], &[0, 1]),
        png(header(1, 1, 8, 5, 0), &[], &[0, 1]),
        png(header(1, 1, 8, 6, 2), &[], &pixel),
        png(header(1, 1, 8, 6, 0), &[chunk(b"acTL", &[0, 0, 0, 1, 0, 0, 0, 0])], &pixel),
        png(header(1, 1, 8, 6, 0), &[chunk(b"fdAT", &[0])], &pixel),
        png(header(1, 1, 8, 6, 0), &[chunk(b"fcTL", &[0, 0, 0, 0])], &pixel),
        png(header(1, 1, 8, 6, 0), &[header(9, 9, 8, 0, 0)], &pixel),
        png_with_late_chunk(header(1, 1, 8, 3, 0), &[palette.clone()], palette.clone(), &[0, 0]),
        png_with_late_chunk(header(1, 1, 8, 3, 0), &[palette], chunk(b"tRNS", &[9]), &[0, 0]),
        png_with_late_chunk(header(1, 1, 8, 0, 0), &[], chunk(b"tRNS", &[0, 1]), &[0, 1]),
        png_with_late_chunk(header(1, 1, 8, 6, 0), &[], header(1, 1, 8, 6, 0), &pixel),
        png(header(0, 1, 8, 6, 0), &[], &[0]),
        png(header(1, 0, 8, 6, 0), &[], &[]),
        png(header(0x1_0000, 1, 8, 6, 0), &[], &pixel),
        png(header(1, 0x1_0000, 8, 6, 0), &[], &pixel),
        png(header(0xFFFF_FFFF, 0xFFFF_FFFF, 8, 6, 0), &[], &pixel),
        png(header(8193, 8192, 8, 6, 0), &[], &pixel),
    ];
    for file in refused.iter() {
        assert!(!is_admitted_png(file));
        assert!(Texture2D::from_image(1, file).is_none());
    }
}

#[test]
fn empty_transparency_is_passed_over() {
    let file = png(header(1, 1, 8, 0, 0), &[chunk(b"tRNS", &[])], &[0, 9]);
    let texture = Texture2D::from_image(1, &file).expect("decodes");
    assert_eq!(texture.pixels(), &vec![9, 9, 9, 255]);
}

#[test]
fn chunks_behind_the_end_are_not_looked_at() {
    let mut file = png(header(1, 1, 8, 6, 0), &[], &[0, 1, 2, 3, 4]);
    file.extend(chunk(b"fdAT", &[0]));
    assert!(is_admitted_png(&file));
    assert!(Texture2D::from_image(1, &file).is_some());
}

#[test]
fn the_pixel_limit_is_two_to_the_twenty_sixth() {
    let pixel = [0u8, 1, 2, 3, 4];
    assert!(is_admitted_png(&png(header(8192, 8192, 8, 6, 0), &[], &pixel)));
    assert!(is_admitted_png(&png(header(0xFFFF, 1024, 8, 6, 0), &[], &pixel)));
    assert!(!is_admitted_png(&png(header(0xFFFF, 1025, 8, 6, 0), &[], &pixel)));
}

#[test]
fn other_formats_are_refused_before_any_decoder_sees_them() {
    let radiance = b"#?RADIANCE\n\n-Y 4294967295 +X 4294967295\n".to_vec();
    assert!(!is_admitted_png(&radiance));
    assert!(Texture2D::from_image(1, &radiance).is_none());
    let pnm = b"P5\n65536 65536\n255\n".to_vec();
    assert!(Texture2D::from_image(1, &pnm).is_none());
    let jpeg_start: Vec<u8> = vec![0xFF, 0xD8, 0xFF, 0xE0, 0, 16, 74, 70, 73, 70, 0];
    assert!(Texture2D::from_image(1, &jpeg_start).is_none());
    let gif_start = b"GIF89a\x01\x00\x01\x00\x00\x00\x00;".to_vec();
    assert!(Texture2D::from_image(1, &gif_start).is_none());
}

#[test]
fn damaged_files_give_nothing() {
    let good = png(header(2, 2, 8, 6, 0), &[], &[0, 1, 2, 3, 4, 5, 6, 7, 8, 0, 1, 2, 3, 4, 5, 6, 7, 8]);
    assert!(Texture2D::from_image(1, &good).is_some());
    // cut short at every length
    for length in 0..good.len() {
        assert!(Texture2D::from_image(1, &good[..length].to_vec()).is_none());
    }
    // one byte changed at a time: never more than a refusal
    for at in 0..good.len() {
        let mut bad = good.clone();
        bad[at] ^= 0x55;
        let _ = Texture2D::from_image(1, &bad);
    }
    // fewer rows than the header promises: the size still is the header's
    let short = png(header(2, 2, 8, 6, 0), &[], &[0, 1, 2, 3, 4, 5, 6, 7, 8]);
    if let Some(texture) = Texture2D::from_image(1, &short) {
        assert_eq!(texture.dimensions(), (2, 2));
    }
    // a filter type that does not exist
    let filter = png(header(1, 1, 8, 6, 0), &[], &[9, 1, 2, 3, 4]);
    assert!(Texture2D::from_image(1, &filter).is_none());
}

/// The rows of a 16 by 16 RGBA image, compressed with codes that the
/// stream itself defines.
fn compressed_rows() -> Vec<u8> {
    vec![
        120, 218, 117, 208, 177, 25, 131, 48, 12, 132, 81, 1, 153, 35, 181, 107, 106, 15, 161,
        154, 154, 33, 92, 222, 20, 172, 235, 88, 129, 24, 233, 98, 138, 255, 83, 245, 174, 144,
        136, 8, 90, 245, 87, 138, 65, 229, 93, 125, 229, 14, 118, 39, 143, 105, 0, 137, 176, 18,
        46, 146, 235, 252, 48, 240, 197, 15, 3, 29, 91, 203, 96, 160, 227, 193, 64, 192, 214, 75,
        214, 6, 239, 144, 214, 6, 93, 122, 7, 187, 101, 205, 33, 241, 88, 8, 39, 194, 74, 216,
        154, 60, 126, 24, 232, 120, 48, 128, 217, 227, 193, 64, 192, 52, 0, 187, 139, 236, 13,
        186, 210, 29, 236, 234, 158, 67, 229, 12, 215, 109, 79, 28, 15, 224, 188, 121, 52, 208,
        113, 217, 183, 246, 196, 255, 129, 142, 7, 3, 1, 91, 19, 13, 4, 76, 3, 80, 194, 214, 44,
        71, 131, 103, 176, 155, 142, 28, 210, 51, 92, 183, 150, 99, 11, 45, 30, 11, 225, 68, 88,
        9, 183, 240, 242, 120, 48, 16, 48, 13, 192, 174, 120, 76, 3, 72, 132, 149, 176, 245, 1,
        53, 114, 158, 243,
    ]
}

fn png_of_stream(stream: &[u8]) -> Vec<u8> {
    let mut out = vec![137, 80, 78, 71, 13, 10, 26, 10];
    out.extend(header(16, 16, 8, 6, 0));
    out.extend(chunk(b"IDAT", stream));
    out.extend(chunk(b"IEND", &[]));
    out
}

#[test]
fn compressed_png_decodes() {
    let texture = Texture2D::from_image(1, &png_of_stream(&compressed_rows())).expect("decodes");
    assert_eq!(texture.dimensions(), (16, 16));
    assert_eq!(texture.pixels().len(), 16 * 16 * 4);
    // the file's first pixel is the first pixel of the texture's last row
    assert_eq!(texture.pixels()[15 * 64..15 * 64 + 4], [0, 0, 0, 128]);
}

#[test]
fn damaged_compressed_streams_give_an_image_or_nothing() {
    let good = compressed_rows();
    let mut seed: u32 = 0x2545_F491;
    let mut next = move || {
        seed = seed.wrapping_mul(1_664_525).wrapping_add(1_013_904_223);
        (seed >> 8) as usize
    };
    for _ in 0..20_000 {
        let mut stream = good.clone();
        for _ in 0..1 + next() % 3 {
            let at = next() % stream.len();
            stream[at] = (next() % 256) as u8;
        }
        if next() % 4 == 0 {
            stream.truncate(next() % good.len());
        }
        if let Some(texture) = Texture2D::from_image(1, &png_of_stream(&stream)) {
            assert_eq!(texture.dimensions(), (16, 16));
        }
    }
}

#[test]
fn made_up_files_of_every_admitted_kind_give_an_image_or_nothing() {
    let mut seed: u32 = 0x9E37_79B9;
    let mut next = move || {
        seed = seed.wrapping_mul(1_664_525).wrapping_add(1_013_904_223);
        (seed >> 8) as usize
    };
    let kinds: [(u8, u8, usize); 15] = [
        (0, 16, 16),
        (2, 16, 48),
        (4, 16, 32),
        (6, 16, 64),
        (0, 1, 1),
        (0, 2, 2),
        (0, 4, 4),
        (0, 8, 8),
        (3, 1, 1),
        (3, 2, 2),
        (3, 4, 4),
        (3, 8, 8),
        (2, 8, 24),
        (4, 8, 16),
        (6, 8, 32),
    ];
    for _ in 0..20_000 {
        let (color, depth, bits) = kinds[next() % kinds.len()];
        let width = 1 + next() % 9;
        let height = 1 + next() % 5;
        let row = 1 + (width * bits + 7) / 8;
        let mut extra: Vec<Vec<u8>> = Vec::new();
        if next() % 2 == 0 {
            let entries: Vec<u8> = (0..next() % 20).map(|_| (next() % 256) as u8).collect();
            extra.push(chunk(b"PLTE", &entries));
        }
        if next() % 2 == 0 {
            let entries: Vec<u8> = (0..next() % 14).map(|_| (next() % 4) as u8).collect();
            extra.push(chunk(b"tRNS", &entries));
        }
        if next() % 8 == 0 {
            extra.push(chunk(b"pHYs", &[0, 0, 0, 1, 0, 0, 0, 1, (next() % 3) as u8]));
        }
        // mostly the right number of bytes, each row with a filter type
        // that may or may not exist
        let length = match next() % 4 {
            0 => next() % (row * height + 3),
            _ => row * height,
        };
        let rows: Vec<u8> = (0..length)
            .map(|at| if at % row == 0 { (next() % 6) as u8 } else { (next() % 4) as u8 })
            .collect();
        let interlace = (next() % 2) as u8;
        let file =
            png(header(width as u32, height as u32, depth, color, interlace), &extra, &rows);
        if let Some(texture) = Texture2D::from_image(1, &file) {
            assert_eq!(texture.dimensions(), (width as u16, height as u16));
            assert_eq!(texture.pixels().len(), width * height * 4);
        }
    }
}

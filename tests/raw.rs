use agno_raw::bitstream::JpegBitstream;
use agno_raw::load::{decode_sony_raw, detect_image_type, raw_black_level, raw_wb_levels, ImageType};
use agno_raw::sony_decoder::{
    build_sony_huff_table, read_concatenated_strips, sony_arw2_load_raw, sony_arw_load_raw_from_stream,
    sony_uncompressed14_load_raw, DecodeError, Dimensions,
};
use agno_raw::tiff::{classify_variant, detect_sony_raw, SonyVariant, TiffDetectResult, TiffRawInfo};
use agno_raw::exif::ExifContext;

fn le16(v: u16) -> [u8; 2] {
    v.to_le_bytes()
}

fn le32(v: u32) -> [u8; 4] {
    v.to_le_bytes()
}

/// A Sony-like little-endian TIFF: one directory describing a `w` x `h` plane with one
/// strip of `strip_len` bytes, Make "SONY".
fn sony_tiff(w: u32, h: u32, strip_len: u32, compression: u16) -> Vec<u8> {
    let n_entries: u16 = 8;
    let ifd_end = 8 + 2 + 12 * n_entries as u32 + 4;
    let make_off = ifd_end;
    let strip_off = ifd_end + 8;
    let mut v = vec![0x49, 0x49];
    v.extend_from_slice(&le16(42));
    v.extend_from_slice(&le32(8));
    v.extend_from_slice(&le16(n_entries));
    let mut entry = |tag: u16, typ: u16, count: u32, raw: [u8; 4]| {
        v.extend_from_slice(&le16(tag));
        v.extend_from_slice(&le16(typ));
        v.extend_from_slice(&le32(count));
        v.extend_from_slice(&raw);
    };
    entry(256, 4, 1, le32(w));
    entry(257, 4, 1, le32(h));
    entry(258, 3, 1, [14, 0, 0, 0]);
    entry(259, 3, 1, [(compression & 0xff) as u8, (compression >> 8) as u8, 0, 0]);
    entry(271, 2, 5, le32(make_off));
    entry(273, 4, 1, le32(strip_off));
    entry(277, 3, 1, [1, 0, 0, 0]);
    entry(279, 4, 1, le32(strip_len));
    v.extend_from_slice(&le32(0));
    v.extend_from_slice(b"SONY\0\0\0\0");
    v.extend(std::iter::repeat(0u8).take(strip_len as usize));
    v
}

#[test]
fn sixteen_byte_strip_is_arw2() {
    let data = sony_tiff(16, 1, 16, 32767);
    let det = detect_sony_raw(&data).unwrap();
    assert_eq!(det.variant, SonyVariant::Arw2Compressed);
    assert_eq!(det.raw.width, 16);
    assert_eq!(det.raw.total_bytes, 16);
    assert_eq!(det.raw.make.as_deref(), Some("SONY"));
    assert!(det.raw.is_sony);
}

#[test]
fn thirty_two_byte_strip_is_uncompressed14() {
    let data = sony_tiff(16, 1, 32, 32767);
    let det = detect_sony_raw(&data).unwrap();
    assert_eq!(det.variant, SonyVariant::Uncompressed14);
}

#[test]
fn container_detection() {
    assert!(matches!(detect_image_type(&[0xff, 0xd8, 0]), Ok(ImageType::Jpeg)));
    assert!(matches!(detect_image_type(&[0x89, 0x50]), Ok(ImageType::Png)));
    assert!(matches!(detect_image_type(b"RIFF"), Ok(ImageType::Webp)));
    assert!(matches!(detect_image_type(b"%PDF"), Ok(ImageType::Pdf)));
    assert!(matches!(detect_image_type(&sony_tiff(16, 1, 16, 32767)), Ok(ImageType::SonyRaw(_))));
    assert!(matches!(detect_image_type(b"XY"), Err(DecodeError::UnsupportedImage)));
    assert!(matches!(detect_image_type(&[0xff]), Err(DecodeError::UnexpectedEof)));
}

#[test]
fn tiff_without_raw_directory_fails() {
    let data = vec![0x49, 0x49, 0x2a, 0x00, 0x08, 0x00, 0x00, 0x00, 0x00, 0x00, 0x00, 0x00, 0x00, 0x00];
    assert!(matches!(detect_sony_raw(&data), Err(DecodeError::CorruptData(_))));
    let data = vec![0x49, 0x49, 0x2b, 0x00, 0x08, 0x00, 0x00, 0x00];
    assert!(matches!(detect_sony_raw(&data), Err(DecodeError::CorruptData(_))));
    assert!(matches!(detect_sony_raw(&[0x49, 0x49]), Err(DecodeError::UnexpectedEof)));
}

fn info(compression: u16, w: u32, h: u32, bytes: u64, bps: u16, dng: Option<u32>, sony: bool) -> TiffRawInfo {
    TiffRawInfo {
        make: None,
        model: None,
        dng_version: dng,
        width: w,
        height: h,
        bits_per_sample: bps,
        compression,
        strip_offsets: vec![0],
        strip_byte_counts: vec![bytes],
        total_bytes: bytes,
        is_sony: sony,
    }
}

#[test]
fn classifier_table() {
    assert_eq!(classify_variant(&info(32767, 10, 10, 100, 14, None, false)), SonyVariant::Arw2Compressed);
    assert_eq!(classify_variant(&info(32767, 10, 10, 200, 14, None, true)), SonyVariant::Uncompressed14);
    assert_eq!(classify_variant(&info(32767, 10, 10, 200, 14, None, false)), SonyVariant::ArwLjpeg);
    assert_eq!(classify_variant(&info(32767, 10, 10, 175, 14, None, false)), SonyVariant::Unknown);
    assert_eq!(classify_variant(&info(1, 10, 10, 200, 14, None, true)), SonyVariant::Uncompressed14);
    assert_eq!(classify_variant(&info(1, 10, 10, 200, 14, Some(0x01040000), true)), SonyVariant::Unknown);
    assert_eq!(classify_variant(&info(7, 10, 10, 200, 14, None, true)), SonyVariant::Unknown);
}

#[test]
fn unknown_variant_is_unsupported() {
    let det = TiffDetectResult { raw: info(7, 2, 2, 8, 14, None, true), variant: SonyVariant::Unknown };
    assert!(matches!(decode_sony_raw(&det, &[0u8; 8]), Err(DecodeError::UnsupportedFormat(SonyVariant::Unknown))));
}

fn dims(rw: usize, rh: usize, ow: usize, oh: usize) -> Dimensions {
    Dimensions { raw_width: rw, raw_height: rh, output_width: ow, output_height: oh }
}

#[test]
fn uncompressed14_reads_little_endian_words() {
    let data = vec![0x01, 0x02, 0x03, 0x04, 0xff, 0x3f, 0x00, 0x00];
    let r = sony_uncompressed14_load_raw(&data, dims(3, 2, 2, 2)).unwrap();
    assert_eq!(r.white_level, 0x3fff);
    assert_eq!(r.pixels, vec![0x0201, 0x0403, 0, 0x3fff, 0, 0]);
    assert!(matches!(sony_uncompressed14_load_raw(&data[..7], dims(3, 2, 2, 2)), Err(DecodeError::UnexpectedEof)));
    assert!(matches!(sony_uncompressed14_load_raw(&data, dims(1, 2, 2, 2)), Err(DecodeError::CorruptData(_))));
}

/// One ARW2 block: header fields and fourteen 7-bit codes.
fn arw2_block(max: u32, min: u32, imax: u32, imin: u32, codes: &[u32]) -> [u8; 16] {
    let mut bits: u128 = (max | (min << 11) | (imax << 22) | (imin << 26)) as u128;
    let mut pos = 30;
    for c in codes {
        bits |= (*c as u128) << pos;
        pos += 7;
    }
    bits.to_le_bytes()
}

#[test]
fn arw2_block_decodes() {
    let codes: Vec<u32> = (1..=14).collect();
    let block = arw2_block(1000, 100, 0, 15, &codes);
    let r = sony_arw2_load_raw(&block, dims(16, 1, 16, 1)).unwrap();
    assert_eq!(r.white_level, 0x3fff);
    // max - min = 900: shift 3
    assert_eq!(r.pixels[0], 1000);
    assert_eq!(r.pixels[15], 100);
    for i in 1..15 {
        assert_eq!(r.pixels[i], ((i as u16) << 3) + 100);
    }
}

#[test]
fn arw2_flat_block_is_min_everywhere() {
    let block = arw2_block(500, 500, 2, 5, &[0; 14]);
    let r = sony_arw2_load_raw(&block, dims(16, 1, 16, 1)).unwrap();
    assert!(r.pixels.iter().all(|&p| p == 500));
}

#[test]
fn arw2_short_data_and_overread() {
    let block = arw2_block(10, 0, 0, 1, &[0; 14]);
    assert!(matches!(sony_arw2_load_raw(&block[..15], dims(16, 1, 16, 1)), Err(DecodeError::UnexpectedEof)));
    // equal max and min positions read a fifteenth code past the last block
    let block = arw2_block(10, 0, 3, 3, &[0; 14]);
    assert!(matches!(sony_arw2_load_raw(&block, dims(16, 1, 16, 1)), Err(DecodeError::CorruptData(_))));
    // with a wider row the same block reads into the next bytes and succeeds
    let mut row = block.to_vec();
    row.push(0);
    assert!(sony_arw2_load_raw(&row, dims(17, 1, 17, 1)).is_ok());
}

#[test]
fn huffman_table_layout() {
    let t = build_sony_huff_table();
    assert_eq!(t.len(), 32770);
    assert_eq!(t[0], 15);
    assert_eq!(t[1], 0x0f11);
    assert_eq!(t[2], 0x0f10);
    assert_eq!(t[3], 0x0e0f);
    assert_eq!(t[4], 0x0e0f);
    assert_eq!(t[32768], 0x0201);
    assert_eq!(t[32769], 0);
}

#[test]
fn length_sixteen_code_without_dng_is_fixed() {
    let t = build_sony_huff_table();
    let data = [0x00, 0x05, 0x00, 0x02];
    let mut bs = JpegBitstream::new(&data);
    assert_eq!(bs.ljpeg_diff(&t).unwrap(), -32768);
    let mut bs = JpegBitstream::new(&data);
    bs.set_dng_version(Some(0x0101_0000));
    assert_eq!(bs.ljpeg_diff(&t).unwrap(), -32768);
}

#[test]
fn length_sixteen_code_with_old_dng_reads_bits() {
    let t = build_sony_huff_table();
    let data = [0x00, 0x05, 0x00, 0x02];
    let mut bs = JpegBitstream::new(&data);
    bs.set_dng_version(Some(0x0100_0000));
    assert_eq!(bs.ljpeg_diff(&t).unwrap(), 0x8001);
}

#[test]
fn short_code_differences() {
    let t = build_sony_huff_table();
    // peek 111.. selects length 1 and the bit 1: +1; then an all-zero peek selects
    // entry 0 (length 15, no code bits) and fifteen zero bits: -32767
    let data = [0b1110_0000, 0, 0, 0];
    let mut bs = JpegBitstream::new(&data);
    assert_eq!(bs.ljpeg_diff(&t).unwrap(), 1);
    assert_eq!(bs.ljpeg_diff(&t).unwrap(), -32767);
}

#[test]
fn stuffed_ff_is_data() {
    let t = build_sony_huff_table();
    // FF 00 gives the data byte FF: all-one peeks, length 1, bit 1: +1 twice
    let data = [0xff, 0x00, 0xff, 0x00];
    let mut bs = JpegBitstream::new(&data);
    bs.set_zero_after_ff(true);
    assert_eq!(bs.ljpeg_diff(&t).unwrap(), 1);
    assert_eq!(bs.ljpeg_diff(&t).unwrap(), 1);
}

#[test]
fn ljpeg_plane_scan_order() {
    // every step decodes +1; column 1 first (rows 0, 2, .., 8, then 1, 3, .., 9), then column 0
    let data = vec![0xffu8; 64];
    let r = sony_arw_load_raw_from_stream(&data, dims(2, 10, 2, 2), false, None).unwrap();
    assert_eq!(r.white_level, 0x0fff);
    assert_eq!(r.pixels.len(), 20);
    assert_eq!(&r.pixels[0..4], &[11, 1, 16, 6]);
    assert!(r.pixels[4..].iter().all(|&p| p == 0));
}

#[test]
fn ljpeg_accumulator_overflow_is_corrupt() {
    let t = build_sony_huff_table();
    assert!(t.len() > 2);
    // length-16 code: fixed difference -32768 drives the accumulator negative
    let data = vec![0x00, 0x04, 0x00, 0x00, 0x00, 0x00];
    assert!(matches!(
        sony_arw_load_raw_from_stream(&data, dims(1, 2, 1, 2), false, None),
        Err(DecodeError::CorruptData(_))
    ));
    assert!(matches!(
        sony_arw_load_raw_from_stream(&data, dims(1, 2, 2, 2), false, None),
        Err(DecodeError::CorruptData(_))
    ));
}

#[test]
fn strips_concatenate_and_read_back() {
    let data: Vec<u8> = (0..100u8).collect();
    let offsets = [40u64, 10, 90];
    let counts = [5u64, 3, 10];
    let buf = read_concatenated_strips(&data, &offsets, &counts).unwrap();
    assert_eq!(buf.len(), 18);
    assert_eq!(&buf[0..5], &data[40..45]);
    assert_eq!(&buf[5..8], &data[10..13]);
    assert_eq!(&buf[8..18], &data[90..100]);
    assert!(matches!(read_concatenated_strips(&data, &[95], &[10]), Err(DecodeError::UnexpectedEof)));
    assert!(matches!(
        read_concatenated_strips(&data, &[0, 0], &[u64::MAX, 2]),
        Err(DecodeError::CorruptData(_))
    ));
}

#[test]
fn sony_raw_end_to_end_to_mosaic() {
    let mut data = sony_tiff(16, 1, 16, 32767);
    let n = data.len();
    let block = arw2_block(2000, 1000, 1, 2, &[1; 14]);
    data[n - 16..].copy_from_slice(&block);
    let det = detect_sony_raw(&data).unwrap();
    let (res, d) = decode_sony_raw(&det, &data).unwrap();
    assert_eq!(d, dims(16, 1, 16, 1));
    assert_eq!(res.pixels[1], 2000);
    assert_eq!(res.pixels[2], 1000);
    assert_eq!(res.pixels[0], (1 << 3) + 1000);
}

#[test]
fn render_settings_defaults() {
    let ctx = ExifContext::new();
    assert_eq!(raw_black_level(&ctx), 512);
    assert_eq!(raw_wb_levels(&ctx), [1000, 1000, 1000, 1000]);
}

#[test]
fn without_make_the_plane_is_not_sony() {
    let mut data = sony_tiff(16, 1, 32, 32767);
    // retag the Make entry (fifth entry) as Software
    let at = 8 + 2 + 4 * 12;
    data[at..at + 2].copy_from_slice(&0x0131u16.to_le_bytes());
    let det = detect_sony_raw(&data).unwrap();
    assert_eq!(det.raw.make, None);
    assert!(!det.raw.is_sony);
    assert_eq!(det.variant, SonyVariant::ArwLjpeg);
}

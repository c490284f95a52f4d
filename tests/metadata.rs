use agno_raw::endian::Endian;
use agno_raw::exif::{
    from_jpeg, from_png, from_tiff, read_entry_value, read_value_bytes, ExifContext, ExifData,
    ExifError, ExifValue,
};
use agno_raw::ifd::{read_ifd, IfdEntry};
use agno_raw::tags::{get_exif_field, ExifSection, ORIENTATION};

fn le16(v: u16) -> [u8; 2] {
    v.to_le_bytes()
}

fn le32(v: u32) -> [u8; 4] {
    v.to_le_bytes()
}

/// A little-endian TIFF stream: header, one directory at offset 8, then `tail`.
fn tiff_le(entries: &[(u16, u16, u32, [u8; 4])], tail: &[u8]) -> Vec<u8> {
    let mut v = vec![0x49, 0x49];
    v.extend_from_slice(&le16(42));
    v.extend_from_slice(&le32(8));
    v.extend_from_slice(&le16(entries.len() as u16));
    for (tag, typ, count, raw) in entries {
        v.extend_from_slice(&le16(*tag));
        v.extend_from_slice(&le16(*typ));
        v.extend_from_slice(&le32(*count));
        v.extend_from_slice(raw);
    }
    v.extend_from_slice(&le32(0));
    v.extend_from_slice(tail);
    v
}

#[test]
fn empty_tiff_header_builds_empty_context() {
    let data = vec![0x49, 0x49, 0x2a, 0x00, 0x08, 0x00, 0x00, 0x00, 0x00, 0x00, 0x00, 0x00, 0x00, 0x00];
    let (base, e, m) = from_tiff(&data, 0).unwrap();
    assert_eq!(base, 0);
    assert_eq!(e, Endian::Little);
    assert!(m.is_empty());
}

fn jpeg_with_orientation(orientation: u16) -> Vec<u8> {
    let tiff = tiff_le(&[(0x0112, 3, 1, [orientation as u8, (orientation >> 8) as u8, 0, 0])], &[]);
    let mut v = vec![0xff, 0xd8];
    // an APP0 segment that must be skipped
    v.extend_from_slice(&[0xff, 0xe0, 0x00, 0x04, 0x4a, 0x46]);
    v.extend_from_slice(&[0xff, 0xe1]);
    let len = (2 + 6 + tiff.len()) as u16;
    v.extend_from_slice(&len.to_be_bytes());
    v.extend_from_slice(b"Exif\0\0");
    v.extend_from_slice(&tiff);
    v.extend_from_slice(&[0xff, 0xd9]);
    v
}

#[test]
fn jpeg_app1_orientation_is_found() {
    let data = jpeg_with_orientation(6);
    let ctx = ExifContext::from_reader_auto(&data).unwrap();
    match ctx.get_tag_value_by_tag(0x0112) {
        Some(ExifValue::Short(v)) => assert_eq!(v, &vec![6u16]),
        other => panic!("unexpected {:?}", other),
    }
    let field = get_exif_field(ORIENTATION).unwrap();
    assert!(matches!(ctx.get_tag_value(field), Some(ExifValue::Short(_))));
}

#[test]
fn jpeg_base_is_after_exif_marker() {
    let data = jpeg_with_orientation(6);
    let (base, e, _) = from_jpeg(&data).unwrap();
    assert_eq!(base, 2 + 6 + 4 + 6);
    assert_eq!(e, Endian::Little);
}

fn png_header(w: u32, h: u32) -> Vec<u8> {
    let mut v = vec![0x89, 0x50, 0x4e, 0x47, 0x0d, 0x0a, 0x1a, 0x0a, 0x00, 0x00, 0x00, 0x0d, 0x49, 0x48, 0x44, 0x52];
    v.extend_from_slice(&w.to_be_bytes());
    v.extend_from_slice(&h.to_be_bytes());
    v.extend_from_slice(&[8, 2, 0, 0, 0]);
    v
}

#[test]
fn png_dimensions_become_width_and_height() {
    let data = png_header(1920, 1080);
    let ctx = ExifContext::from_reader_auto(&data).unwrap();
    match ctx.get_tag_value_by_tag(0x0100) {
        Some(ExifValue::Long(v)) => assert_eq!(v, &vec![1920u32]),
        other => panic!("unexpected {:?}", other),
    }
    match ctx.get_tag_value_by_tag(0x0101) {
        Some(ExifValue::Long(v)) => assert_eq!(v, &vec![1080u32]),
        other => panic!("unexpected {:?}", other),
    }
}

#[test]
fn png_bad_signature_is_malformed() {
    let mut data = png_header(1, 1);
    data[5] = 0;
    assert!(matches!(from_png(&data), Err(ExifError::Malformed(_))));
}

#[test]
fn jpeg_without_exif_is_not_exif() {
    let data = vec![0xff, 0xd8, 0xff, 0xe0, 0x00, 0x04, 0x00, 0x00, 0xff, 0xda, 0x00, 0x02];
    assert!(matches!(from_jpeg(&data), Err(ExifError::NotExif)));
    let data = vec![0x00, 0xd8, 0xff];
    assert!(matches!(from_jpeg(&data), Err(ExifError::NotExif)));
}

#[test]
fn tiff_bad_magic_is_bad_tiff() {
    let data = vec![0x49, 0x49, 0x2b, 0x00, 0x08, 0x00, 0x00, 0x00, 0x00, 0x00];
    assert!(matches!(from_tiff(&data, 0), Err(ExifError::BadTiff)));
    let data = vec![0x41, 0x41, 0x2a, 0x00, 0x08, 0x00, 0x00, 0x00];
    assert!(matches!(from_tiff(&data, 0), Err(ExifError::BadTiff)));
}

#[test]
fn truncated_directory_is_unexpected_eof() {
    let data = vec![0x49, 0x49, 0x2a, 0x00, 0x08, 0x00, 0x00, 0x00, 0x05, 0x00];
    assert!(matches!(from_tiff(&data, 0), Err(ExifError::UnexpectedEof)));
}

#[test]
fn unknown_container_is_unsupported() {
    let data = vec![0x00, 0x01, 0x02, 0x03];
    assert!(matches!(ExifContext::from_reader_auto(&data), Err(ExifError::Unsupported(_))));
    assert!(matches!(ExifContext::from_reader_auto(&[]), Err(ExifError::Unsupported(_))));
    // a TIFF without a raw plane does not pass the raw detector
    let tiff = vec![0x49, 0x49, 0x2a, 0x00, 0x08, 0x00, 0x00, 0x00, 0x00, 0x00, 0x00, 0x00, 0x00, 0x00];
    assert!(matches!(ExifContext::from_reader_auto(&tiff), Err(ExifError::Unsupported(_))));
}

#[test]
fn webp_and_pdf_give_empty_context() {
    let ctx = ExifContext::from_reader_auto(b"RIFF0000WEBP").unwrap();
    assert!(ctx.get_tag_value_by_tag(0x0100).is_none());
    let ctx = ExifContext::from_reader_auto(b"%PDF-1.7").unwrap();
    assert!(ctx.get_tag_value_by_tag(0x0100).is_none());
}

#[test]
fn every_known_entry_is_kept_and_unknown_types_skipped() {
    // SHORT inline, LONG at an offset, RATIONAL at an offset, ASCII inline, unknown type 11
    let tail_off = 8 + 2 + 5 * 12 + 4;
    let mut tail = Vec::new();
    tail.extend_from_slice(&le32(7));
    tail.extend_from_slice(&le32(9));
    tail.extend_from_slice(&le32(300));
    tail.extend_from_slice(&le32(10));
    let data = tiff_le(
        &[
            (0x0112, 3, 1, [8, 0, 0, 0]),
            (0x0111, 4, 2, le32(tail_off as u32)),
            (0x011a, 5, 1, le32(tail_off as u32 + 8)),
            (0x010f, 2, 3, [b'A', b'B', 0, 0]),
            (0x9999, 11, 1, [1, 2, 3, 4]),
        ],
        &tail,
    );
    let (_, _, m) = from_tiff(&data, 0).unwrap();
    assert_eq!(m.len(), 4);
    assert!(matches!(m.get(&0x0112), Some(ExifValue::Short(v)) if v == &vec![8u16]));
    assert!(matches!(m.get(&0x0111), Some(ExifValue::Long(v)) if v == &vec![7u32, 9]));
    assert!(matches!(m.get(&0x011a), Some(ExifValue::Rational(v)) if v == &vec![(300u32, 10u32)]));
    assert!(matches!(m.get(&0x010f), Some(ExifValue::Ascii(s)) if s == "AB"));
    assert!(m.get(&0x9999).is_none());
}

#[test]
fn inline_and_offset_values_decode_alike() {
    let inline = IfdEntry { tag: 1, typ: 3, count: 2, value_or_offset: u32::from_le_bytes([0x34, 0x12, 0x78, 0x56]) };
    let data = vec![0u8; 16];
    let a = read_value_bytes(&data, 0, Endian::Little, &inline).unwrap();
    let va = read_entry_value(a, Endian::Little, &inline).unwrap();
    let mut data2 = vec![0u8; 16];
    data2[10..14].copy_from_slice(&[0x34, 0x12, 0x78, 0x56]);
    let bytes = data2[10..14].to_vec();
    let vb = read_entry_value(bytes, Endian::Little, &inline).unwrap();
    match (va, vb) {
        (ExifValue::Short(x), ExifValue::Short(y)) => {
            assert_eq!(x, vec![0x1234, 0x5678]);
            assert_eq!(x, y);
        }
        _ => panic!("not SHORT"),
    }
}

#[test]
fn big_endian_inline_short_uses_stored_bytes() {
    // "MM" stream with Orientation stored as 00 06 00 00
    let mut data = vec![0x4d, 0x4d, 0x00, 0x2a, 0x00, 0x00, 0x00, 0x08, 0x00, 0x01];
    data.extend_from_slice(&[0x01, 0x12, 0x00, 0x03, 0x00, 0x00, 0x00, 0x01, 0x00, 0x06, 0x00, 0x00]);
    data.extend_from_slice(&[0, 0, 0, 0]);
    let (_, e, m) = from_tiff(&data, 0).unwrap();
    assert_eq!(e, Endian::Big);
    assert!(matches!(m.get(&0x0112), Some(ExifValue::Short(v)) if v == &vec![6u16]));
}

#[test]
fn zero_count_entry_gives_empty_value() {
    let ent = IfdEntry { tag: 5, typ: 4, count: 0, value_or_offset: 0xffff_fff0 };
    let b = read_value_bytes(&[], 0, Endian::Little, &ent).unwrap();
    assert!(b.is_empty());
    assert!(matches!(read_entry_value(b, Endian::Little, &ent), Ok(ExifValue::Long(v)) if v.is_empty()));
    let ent = IfdEntry { tag: 5, typ: 2, count: 0, value_or_offset: 0 };
    let b = read_value_bytes(&[], 0, Endian::Little, &ent).unwrap();
    assert!(matches!(read_entry_value(b, Endian::Little, &ent), Ok(ExifValue::Ascii(s)) if s.is_empty()));
}

#[test]
fn unknown_type_and_short_value_errors() {
    let ent = IfdEntry { tag: 5, typ: 6, count: 1, value_or_offset: 0 };
    assert!(matches!(read_value_bytes(&[], 0, Endian::Little, &ent), Err(ExifError::Unsupported(_))));
    assert!(matches!(read_entry_value(vec![1], Endian::Little, &ent), Err(ExifError::Unsupported(_))));
    let ent = IfdEntry { tag: 5, typ: 4, count: 2, value_or_offset: 0 };
    assert!(matches!(read_entry_value(vec![1, 2, 3, 4], Endian::Little, &ent), Err(ExifError::Malformed(_))));
    let ent = IfdEntry { tag: 5, typ: 4, count: 2, value_or_offset: 100 };
    assert!(matches!(read_value_bytes(&[0u8; 50], 0, Endian::Little, &ent), Err(ExifError::UnexpectedEof)));
}

#[test]
fn signed_values_decode() {
    let ent = IfdEntry { tag: 5, typ: 10, count: 1, value_or_offset: 0 };
    let mut b = (-3i32).to_be_bytes().to_vec();
    b.extend_from_slice(&7i32.to_be_bytes());
    assert!(matches!(read_entry_value(b, Endian::Big, &ent), Ok(ExifValue::SRational(v)) if v == vec![(-3, 7)]));
    let ent = IfdEntry { tag: 5, typ: 9, count: 1, value_or_offset: 0 };
    let b = (-100000i32).to_le_bytes().to_vec();
    assert!(matches!(read_entry_value(b, Endian::Little, &ent), Ok(ExifValue::SLong(v)) if v == vec![-100000]));
}

#[test]
fn invalid_utf8_text_is_replaced() {
    let data = tiff_le(&[(0x010f, 2, 3, [b'S', 0xff, 0, 0])], &[]);
    let (_, _, m) = from_tiff(&data, 0).unwrap();
    assert!(matches!(m.get(&0x010f), Some(ExifValue::Ascii(s)) if s == "S\u{fffd}"));
}

#[test]
fn extraction_twice_gives_equal_mappings() {
    let data = jpeg_with_orientation(3);
    let a = ExifContext::from_reader_auto(&data).unwrap();
    let b = ExifContext::from_reader_auto(&data).unwrap();
    for tag in 0..=u16::MAX {
        let x = a.get_tag_value_by_tag(tag).map(|v| format!("{:?}", v));
        let y = b.get_tag_value_by_tag(tag).map(|v| format!("{:?}", v));
        assert_eq!(x, y);
    }
}

#[test]
fn directory_entries_are_read_in_order() {
    let data = tiff_le(&[(0x0100, 4, 1, le32(16)), (0x0101, 3, 1, [1, 0, 0, 0])], &[]);
    let ifd = read_ifd(&data, Endian::Little, 8).unwrap();
    assert_eq!(ifd.entries.len(), 2);
    assert_eq!(ifd.entries[0], IfdEntry { tag: 0x0100, typ: 4, count: 1, value_or_offset: 16 });
    assert_eq!(ifd.entries[1].tag, 0x0101);
    assert_eq!(ifd.next_ifd, 0);
    assert!(read_ifd(&data, Endian::Little, data.len() as u64 - 1).is_none());
}

#[test]
fn exif_data_payloads() {
    let d = ExifData::from_exif_value(&ExifValue::Long(vec![1, 0x01020304]));
    assert_eq!(d.data, vec![1, 0, 0, 0, 4, 3, 2, 1]);
    assert_eq!(d.len, 8);
    assert_eq!(d.typ, 4);
    let d = ExifData::from_exif_value(&ExifValue::Short(vec![6, 7]));
    assert_eq!(d.data, vec![6, 0, 0, 0]);
    assert_eq!((d.len, d.typ), (1, 3));
    let d = ExifData::from_exif_value(&ExifValue::Short(vec![]));
    assert_eq!((d.len, d.typ), (0, 0));
    let d = ExifData::from_exif_value(&ExifValue::Byte(vec![0x34, 0x12]));
    assert_eq!(d.data, vec![0x34, 0x12, 0, 0]);
    assert_eq!((d.len, d.typ), (1, 1));
    let d = ExifData::from_exif_value(&ExifValue::Ascii("SONY".to_string()));
    assert_eq!(d.data, b"SONY".to_vec());
    assert_eq!((d.len, d.typ), (4, 2));
    let d = ExifData::from_exif_value(&ExifValue::SRational(vec![(-1, 2)]));
    assert_eq!(d.data, vec![0xff, 0xff, 0xff, 0xff, 2, 0, 0, 0]);
    assert_eq!((d.len, d.typ), (8, 10));
    let d = ExifData::null();
    assert_eq!((d.len, d.typ), (0, 0));
}

#[test]
fn tag_registry_lookup() {
    let f = get_exif_field(0x0112).unwrap();
    assert_eq!(f.name, "Orientation");
    assert_eq!(f.section, ExifSection::IFD0);
    let f = get_exif_field(0x0100).unwrap();
    assert_eq!((f.tag, f.name, f.section), (0x0100, "ImageWidth", ExifSection::IFD0));
    assert!(get_exif_field(0x1234).is_none());
    assert_eq!(ExifContext::new().get_tag_value_by_tag(0x0112).map(|_| ()), None);
}

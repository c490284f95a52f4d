//! Container detection and the raw pipeline up to the mosaic plane and render settings.
use vstd::prelude::*;
use crate::exif::{ExifContext, ExifValue, ExifValueView};
use crate::sony_decoder::{
    DecodeError, Dimensions, SonyLoadResult, read_concatenated_strips, sony_arw2_load_raw,
    sony_arw_load_raw_from_stream, sony_uncompressed14_load_raw, strips_concat, plane_of,
    arw2_plane, u14_plane, plane_index, ljpeg_sample, dims_ok, arw2_rows_ok, ljpeg_run, ljpeg_col_steps,
    strips_in_range,
};
use crate::tiff::sum_of;
use crate::tiff::{SonyVariant, TiffDetectResult, detect_sony_raw, detected, raw_walk_succeeds};

verus! {

/// The container of a file, with the raw-plane summary of a Sony raw file.
pub enum ImageType {
    Jpeg,
    Png,
    Webp,
    Pdf,
    SonyRaw(TiffDetectResult),
}

/// The container that the two leading bytes name; 0 for none. `FF D8` JPEG (1),
/// `89 50` PNG (2), `52 49` WebP (3), `25 50` PDF (4), `II` or `MM` TIFF (5).
pub open spec fn container_kind(b: Seq<u8>) -> int {
    if b.len() < 2 {
        0
    } else if b[0] == 0xff && b[1] == 0xd8 {
        1
    } else if b[0] == 0x89 && b[1] == 0x50 {
        2
    } else if b[0] == 0x52 && b[1] == 0x49 {
        3
    } else if b[0] == 0x25 && b[1] == 0x50 {
        4
    } else if (b[0] == 0x49 && b[1] == 0x49) || (b[0] == 0x4d && b[1] == 0x4d) {
        5
    } else {
        0
    }
}

/// Identifies the container from the first two bytes; a TIFF must also pass the Sony raw
/// detector. Fails with `UnexpectedEof` on fewer than two bytes and `UnsupportedImage`
/// for any other leading pair.
pub fn detect_image_type(data: &[u8]) -> (r: Result<ImageType, DecodeError>)
    ensures
        data@.len() < 2 ==> r matches Err(DecodeError::UnexpectedEof),
        data@.len() >= 2 && container_kind(data@) == 0 ==> r matches Err(DecodeError::UnsupportedImage),
        container_kind(data@) == 1 ==> r matches Ok(ImageType::Jpeg),
        container_kind(data@) == 2 ==> r matches Ok(ImageType::Png),
        container_kind(data@) == 3 ==> r matches Ok(ImageType::Webp),
        container_kind(data@) == 4 ==> r matches Ok(ImageType::Pdf),
        r matches Ok(ImageType::SonyRaw(d)) ==> container_kind(data@) == 5 && detected(data@, d),
        container_kind(data@) == 5 && raw_walk_succeeds(data@) ==> r matches Ok(ImageType::SonyRaw(_)),
        container_kind(data@) == 5 && crate::exif::header_is_bad(data@, 0) ==> r matches Err(DecodeError::CorruptData(_)),
        container_kind(data@) == 5 && data@.len() < 8 ==> r matches Err(DecodeError::UnexpectedEof),
        container_kind(data@) == 5 ==> (r is Ok ==> r matches Ok(ImageType::SonyRaw(_))),
{
    if data.len() < 2 {
        return Err(DecodeError::UnexpectedEof);
    }
    let b0 = data[0];
    let b1 = data[1];
    if b0 == 0xff && b1 == 0xd8 {
        Ok(ImageType::Jpeg)
    } else if b0 == 0x89 && b1 == 0x50 {
        Ok(ImageType::Png)
    } else if b0 == 0x52 && b1 == 0x49 {
        Ok(ImageType::Webp)
    } else if b0 == 0x25 && b1 == 0x50 {
        Ok(ImageType::Pdf)
    } else if (b0 == 0x49 && b1 == 0x49) || (b0 == 0x4d && b1 == 0x4d) {
        match detect_sony_raw(data) {
            Ok(det) => Ok(ImageType::SonyRaw(det)),
            Err(e) => Err(e),
        }
    } else {
        Err(DecodeError::UnsupportedImage)
    }
}

/// The geometry that a raw plane of `w` x `h` pixels is decoded with: the legacy
/// lossless-JPEG path allocates eight extra rows.
pub open spec fn decode_dims(w: u32, h: u32, variant: SonyVariant) -> Dimensions {
    Dimensions {
        raw_width: w as usize,
        raw_height: (if variant == SonyVariant::ArwLjpeg { h + 8 } else { h as int }) as usize,
        output_width: w as usize,
        output_height: h as usize,
    }
}

/// Whether the decoder that `variant` names succeeds on the strip bytes `buf` with
/// geometry `d`.
pub open spec fn decoder_succeeds(variant: SonyVariant, buf: Seq<u8>, d: Dimensions, h: u32, dng_version: Option<u32>) -> bool {
    match variant {
        SonyVariant::Arw2Compressed => dims_ok(d) && buf.len() >= d.output_width * d.output_height
            && arw2_rows_ok(buf, d.output_width as int, d.output_height as int),
        SonyVariant::Uncompressed14 => dims_ok(d) && buf.len() >= 2 * d.output_width * d.output_height,
        SonyVariant::ArwLjpeg => h + 8 <= usize::MAX && dims_ok(d) && d.raw_height <= usize::MAX - 3
            && ljpeg_run(buf, true, dng_version, (d.raw_width * ljpeg_col_steps(d.raw_height as int)) as nat).1 is Ok,
        SonyVariant::Unknown => false,
    }
}

/// Reads the strips of the detected raw plane and runs the decoder its variant names.
/// Fails with `UnsupportedFormat` for the unknown variant, and otherwise as the strip
/// reader and the decoder fail.
pub fn decode_sony_raw(det: &TiffDetectResult, data: &[u8]) -> (r: Result<(SonyLoadResult, Dimensions), DecodeError>)
    ensures
        det.variant == SonyVariant::Unknown ==> r matches Err(DecodeError::UnsupportedFormat(SonyVariant::Unknown)),
        det.variant != SonyVariant::Unknown && det.raw.strip_offsets@.len() == det.raw.strip_byte_counts@.len()
            && strips_in_range(data@, det.raw.strip_offsets@, det.raw.strip_byte_counts@)
            && sum_of(det.raw.strip_byte_counts@) <= usize::MAX
            ==> (r is Ok <==> decoder_succeeds(det.variant,
                strips_concat(data@, det.raw.strip_offsets@, det.raw.strip_byte_counts@),
                decode_dims(det.raw.width, det.raw.height, det.variant), det.raw.height, det.raw.dng_version)),
        r matches Ok((res, d)) ==> {
            let buf = strips_concat(data@, det.raw.strip_offsets@, det.raw.strip_byte_counts@);
            &&& d == decode_dims(det.raw.width, det.raw.height, det.variant)
            &&& det.variant == SonyVariant::Arw2Compressed ==> plane_of(res.pixels@, d, arw2_plane(buf, d.output_width as int))
            &&& det.variant == SonyVariant::Uncompressed14 ==> plane_of(res.pixels@, d, u14_plane(buf, d.output_width as int))
            &&& det.variant == SonyVariant::ArwLjpeg ==> res.pixels@.len() == d.raw_width * d.raw_height
                && forall|y: int, x: int| 0 <= y < d.raw_height && 0 <= x < d.raw_width
                    ==> #[trigger] res.pixels@[plane_index(d.raw_width as int, y, x)] == if y < d.output_height {
                        ljpeg_sample(buf, true, det.raw.dng_version, d.raw_width as int, d.raw_height as int, y, x)
                    } else {
                        0
                    }
        },
{
    if det.variant == SonyVariant::Unknown {
        return Err(DecodeError::UnsupportedFormat(SonyVariant::Unknown));
    }
    if det.raw.strip_offsets.len() != det.raw.strip_byte_counts.len() {
        return Err(DecodeError::CorruptData("strip offsets and byte counts differ in number"));
    }
    let buf = match read_concatenated_strips(data, det.raw.strip_offsets.as_slice(), det.raw.strip_byte_counts.as_slice()) {
        Ok(b) => b,
        Err(e) => return Err(e),
    };
    let w = det.raw.width as usize;
    let h = det.raw.height as usize;
    let mut dims = Dimensions { raw_width: w, raw_height: h, output_width: w, output_height: h };
    match det.variant {
        SonyVariant::Arw2Compressed => match sony_arw2_load_raw(buf.as_slice(), dims) {
            Ok(res) => Ok((res, dims)),
            Err(e) => Err(e),
        },
        SonyVariant::ArwLjpeg => {
            dims.raw_height = match h.checked_add(8) {
                Some(v) => v,
                None => return Err(DecodeError::CorruptData("raster size overflow")),
            };
            match sony_arw_load_raw_from_stream(buf.as_slice(), dims, true, det.raw.dng_version) {
                Ok(res) => Ok((res, dims)),
                Err(e) => Err(e),
            }
        },
        SonyVariant::Uncompressed14 => match sony_uncompressed14_load_raw(buf.as_slice(), dims) {
            Ok(res) => Ok((res, dims)),
            Err(e) => Err(e),
        },
        SonyVariant::Unknown => Err(DecodeError::UnsupportedFormat(SonyVariant::Unknown)),
    }
}

/// Tag of the Sony black level.
pub const BLACK_LEVEL_TAG: u16 = 0x7310;
/// Tag of the Sony white-balance levels in R, G, G, B order.
pub const WB_RGGB_LEVELS_TAG: u16 = 0x7313;

/// The black level a mapping records: the first element of a non-empty SHORT value of
/// tag 0x7310, else 512.
pub open spec fn black_level_of(m: Map<u16, ExifValueView>) -> u16 {
    if m.contains_key(BLACK_LEVEL_TAG) {
        match m[BLACK_LEVEL_TAG] {
            ExifValueView::Short(v) => if v.len() > 0 { v[0] } else { 512 },
            _ => 512,
        }
    } else {
        512
    }
}

/// The white-balance levels a mapping records: the first four elements of a SHORT value
/// of tag 0x7313 with at least four, else four times 1000.
pub open spec fn wb_levels_of(m: Map<u16, ExifValueView>) -> Seq<u16> {
    if m.contains_key(WB_RGGB_LEVELS_TAG) {
        match m[WB_RGGB_LEVELS_TAG] {
            ExifValueView::Short(v) => if v.len() >= 4 { v.take(4) } else { seq![1000u16, 1000, 1000, 1000] },
            _ => seq![1000u16, 1000, 1000, 1000],
        }
    } else {
        seq![1000u16, 1000, 1000, 1000]
    }
}

/// The black level to subtract before demosaicing (see [`black_level_of`]).
pub fn raw_black_level(ctx: &ExifContext) -> (r: u16)
    ensures
        r == black_level_of(ctx@),
{
    match ctx.get_tag_value_by_tag(BLACK_LEVEL_TAG) {
        Some(ExifValue::Short(v)) => if v.len() > 0 { v[0] } else { 512 },
        _ => 512,
    }
}

/// The white-balance levels, R, G, G, B in thousandths (see [`wb_levels_of`]).
pub fn raw_wb_levels(ctx: &ExifContext) -> (r: [u16; 4])
    ensures
        r@ == wb_levels_of(ctx@),
{
    match ctx.get_tag_value_by_tag(WB_RGGB_LEVELS_TAG) {
        Some(ExifValue::Short(v)) => if v.len() >= 4 {
            let r = [v[0], v[1], v[2], v[3]];
            assert(r@ =~= v@.take(4));
            r
        } else {
            let r = [1000u16, 1000, 1000, 1000];
            assert(r@ =~= seq![1000u16, 1000, 1000, 1000]);
            r
        },
        _ => {
            let r = [1000u16, 1000, 1000, 1000];
            assert(r@ =~= seq![1000u16, 1000, 1000, 1000]);
            r
        },
    }
}

} // verus!

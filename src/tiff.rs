//! Sony raw detection: walks the directories of a TIFF file, picks the raw plane and
//! classifies its encoding.
use vstd::prelude::*;
use crate::endian::{Endian, u16_at, u32_at, stored_bytes, u16_from, u32_stored_bytes, read_u16_e, read_u32_e};
use crate::ifd::{Ifd, IfdEntry, read_ifd, ifd_fits, ifd_entries, ifd_next};
use crate::exif::{find_tag, find_entry, utf8_lossy, trim_nul};
use crate::sony_decoder::DecodeError;

verus! {

/// Summary of a directory that holds a single-plane raw image.
#[derive(Clone, Debug)]
pub struct TiffRawInfo {
    pub make: Option<String>,
    pub model: Option<String>,
    /// DNGVersion bytes read as a big-endian word (1.4.0.0 is 0x01040000).
    pub dng_version: Option<u32>,
    pub width: u32,
    pub height: u32,
    pub bits_per_sample: u16,
    pub compression: u16,
    pub strip_offsets: Vec<u64>,
    pub strip_byte_counts: Vec<u64>,
    pub total_bytes: u64,
    pub is_sony: bool,
}

/// The decoding path of a Sony raw plane.
#[derive(Clone, Copy, Debug, PartialEq, Eq, Structural)]
pub enum SonyVariant {
    Arw2Compressed,
    ArwLjpeg,
    Uncompressed14,
    Unknown,
}

/// The chosen raw directory and its decoding path.
#[derive(Clone, Debug)]
pub struct TiffDetectResult {
    pub raw: TiffRawInfo,
    pub variant: SonyVariant,
}

/// Sum of a sequence of byte counts.
pub open spec fn sum_of(s: Seq<u64>) -> int
    decreases s.len(),
{
    if s.len() == 0 {
        0
    } else {
        sum_of(s.drop_last()) + s.last()
    }
}

impl TiffRawInfo {
    /// Strip offsets and byte counts pair up, and `total_bytes` is the sum of the counts.
    pub open spec fn wf(&self) -> bool {
        &&& self.strip_offsets@.len() == self.strip_byte_counts@.len()
        &&& self.total_bytes == sum_of(self.strip_byte_counts@)
    }
}

/// The decoding path for a raw plane with these properties.
pub open spec fn classify_spec(compression: u16, width: u32, height: u32, bits_per_sample: u16,
    total_bytes: u64, has_dng: bool, is_sony: bool) -> SonyVariant
{
    let pixels = width * height;
    if compression == 32767 {
        if !has_dng && total_bytes == pixels {
            SonyVariant::Arw2Compressed
        } else if !has_dng && is_sony && total_bytes == 2 * pixels {
            SonyVariant::Uncompressed14
        } else if total_bytes * 8 != pixels * bits_per_sample {
            SonyVariant::ArwLjpeg
        } else {
            SonyVariant::Unknown
        }
    } else if compression == 0 || compression == 1 {
        if !has_dng && is_sony && total_bytes == 2 * pixels {
            SonyVariant::Uncompressed14
        } else {
            SonyVariant::Unknown
        }
    } else {
        SonyVariant::Unknown
    }
}

/// The decoding path of `raw` (see [`classify_spec`]).
pub fn classify_variant(raw: &TiffRawInfo) -> (r: SonyVariant)
    ensures
        r == classify_spec(raw.compression, raw.width, raw.height, raw.bits_per_sample,
            raw.total_bytes, raw.dng_version is Some, raw.is_sony),
{
    let w = raw.width as u64;
    let h = raw.height as u64;
    assert(w * h <= 0xffff_ffff * 0xffff_ffff) by (nonlinear_arith)
        requires
            w <= 0xffff_ffff,
            h <= 0xffff_ffff,
    ;
    let pixels: u64 = w * h;
    let dng = raw.dng_version.is_some();
    let bytes = raw.total_bytes as u128;
    let px = pixels as u128;
    let bps = raw.bits_per_sample as u128;
    assert(px * bps <= 0xffff_ffff_ffff_ffff * 0xffff) by (nonlinear_arith)
        requires
            px <= 0xffff_ffff_ffff_ffff,
            bps <= 0xffff,
    ;
    if raw.compression == 32767 {
        if !dng && bytes == px {
            SonyVariant::Arw2Compressed
        } else if !dng && raw.is_sony && bytes == 2 * px {
            SonyVariant::Uncompressed14
        } else if bytes * 8 != px * bps {
            SonyVariant::ArwLjpeg
        } else {
            SonyVariant::Unknown
        }
    } else if raw.compression == 0 || raw.compression == 1 {
        if !dng && raw.is_sony && bytes == 2 * px {
            SonyVariant::Uncompressed14
        } else {
            SonyVariant::Unknown
        }
    } else {
        SonyVariant::Unknown
    }
}

/// The LONG array of `ent`: one element inline, more at the offset. `None` past the end.
pub open spec fn long_values(b: Seq<u8>, e: Endian, ent: IfdEntry) -> Option<Seq<u32>> {
    if ent.count == 0 {
        Some(Seq::empty())
    } else if ent.count == 1 {
        Some(seq![ent.value_or_offset])
    } else if ent.value_or_offset + 4 * ent.count <= b.len() {
        Some(Seq::new(ent.count as nat, |i: int| u32_at(e, b, ent.value_or_offset + 4 * i) as u32))
    } else {
        None
    }
}

/// The SHORT array of `ent`: up to two elements inline, more at the offset. `None` past the end.
pub open spec fn short_values(b: Seq<u8>, e: Endian, ent: IfdEntry) -> Option<Seq<u16>> {
    if ent.count <= 2 {
        Some(Seq::new(ent.count as nat, |i: int| u16_at(e, stored_bytes(e, ent.value_or_offset), 2 * i) as u16))
    } else if ent.value_or_offset + 2 * ent.count <= b.len() {
        Some(Seq::new(ent.count as nat, |i: int| u16_at(e, b, ent.value_or_offset + 2 * i) as u16))
    } else {
        None
    }
}

/// The `count` bytes of `ent`: inline up to four, else at the offset. `None` past the end.
pub open spec fn byte_values(b: Seq<u8>, e: Endian, ent: IfdEntry) -> Option<Seq<u8>> {
    if ent.count <= 4 {
        Some(stored_bytes(e, ent.value_or_offset).take(ent.count as int))
    } else if ent.value_or_offset + ent.count <= b.len() {
        Some(b.subrange(ent.value_or_offset as int, ent.value_or_offset + ent.count))
    } else {
        None
    }
}

/// Reads the LONG array of `ent` (see [`long_values`]).
pub fn read_tag_value_u32s(data: &[u8], e: Endian, ent: &IfdEntry) -> (r: Result<Vec<u32>, DecodeError>)
    ensures
        r matches Ok(v) ==> long_values(data@, e, *ent) == Some(v@),
        r is Err <==> long_values(data@, e, *ent) is None,
        r is Err ==> r matches Err(DecodeError::UnexpectedEof),
{
    let mut out: Vec<u32> = Vec::new();
    if ent.count == 0 {
        return Ok(out);
    }
    if ent.count == 1 {
        out.push(ent.value_or_offset);
        assert(out@ =~= seq![ent.value_or_offset]);
        return Ok(out);
    }
    let off = ent.value_or_offset as u64;
    let n = ent.count as u64;
    if (data.len() as u64) < off || (data.len() as u64) - off < 4 * n {
        return Err(DecodeError::UnexpectedEof);
    }
    let mut i: u64 = 0;
    while i < n
        invariant
            off + 4 * n <= data@.len(),
            n == ent.count,
            off == ent.value_or_offset,
            0 <= i <= n,
            out@ == Seq::new(i as nat, |j: int| u32_at(e, data@, off + 4 * j) as u32),
        decreases n - i,
    {
        match read_u32_e(data, off + 4 * i, e) {
            Some(v) => out.push(v),
            None => return Err(DecodeError::UnexpectedEof),
        }
        i = i + 1;
        assert(out@ =~= Seq::new(i as nat, |j: int| u32_at(e, data@, off + 4 * j) as u32));
    }
    Ok(out)
}

/// Reads the SHORT array of `ent` (see [`short_values`]).
pub fn read_tag_value_u16s(data: &[u8], e: Endian, ent: &IfdEntry) -> (r: Result<Vec<u16>, DecodeError>)
    ensures
        r matches Ok(v) ==> short_values(data@, e, *ent) == Some(v@),
        r is Err <==> short_values(data@, e, *ent) is None,
        r is Err ==> r matches Err(DecodeError::UnexpectedEof),
{
    let mut out: Vec<u16> = Vec::new();
    let n = ent.count as u64;
    if n <= 2 {
        let raw = u32_stored_bytes(e, ent.value_or_offset);
        let mut i: usize = 0;
        while i < n as usize
            invariant
                n <= 2,
                n == ent.count,
                raw@ == stored_bytes(e, ent.value_or_offset),
                0 <= i <= n,
                out@ == Seq::new(i as nat, |j: int| u16_at(e, stored_bytes(e, ent.value_or_offset), 2 * j) as u16),
            decreases n - i,
        {
            out.push(u16_from(e, raw[2 * i], raw[2 * i + 1]));
            i = i + 1;
            assert(out@ =~= Seq::new(i as nat, |j: int| u16_at(e, stored_bytes(e, ent.value_or_offset), 2 * j) as u16));
        }
        return Ok(out);
    }
    let off = ent.value_or_offset as u64;
    if (data.len() as u64) < off || (data.len() as u64) - off < 2 * n {
        return Err(DecodeError::UnexpectedEof);
    }
    let mut i: u64 = 0;
    while i < n
        invariant
            off + 2 * n <= data@.len(),
            n == ent.count,
            off == ent.value_or_offset,
            0 <= i <= n,
            out@ == Seq::new(i as nat, |j: int| u16_at(e, data@, off + 2 * j) as u16),
        decreases n - i,
    {
        match read_u16_e(data, off + 2 * i, e) {
            Some(v) => out.push(v),
            None => return Err(DecodeError::UnexpectedEof),
        }
        i = i + 1;
        assert(out@ =~= Seq::new(i as nat, |j: int| u16_at(e, data@, off + 2 * j) as u16));
    }
    Ok(out)
}

/// Reads the `count` bytes of `ent` (see [`byte_values`]).
pub fn read_tag_value_bytes(data: &[u8], e: Endian, ent: &IfdEntry) -> (r: Result<Vec<u8>, DecodeError>)
    ensures
        r matches Ok(v) ==> byte_values(data@, e, *ent) == Some(v@),
        r is Err <==> byte_values(data@, e, *ent) is None,
        r is Err ==> r matches Err(DecodeError::UnexpectedEof),
{
    let mut out: Vec<u8> = Vec::new();
    let n = ent.count as u64;
    if n <= 4 {
        let raw = u32_stored_bytes(e, ent.value_or_offset);
        let mut i: usize = 0;
        while i < n as usize
            invariant
                n <= 4,
                n == ent.count,
                raw@ == stored_bytes(e, ent.value_or_offset),
                0 <= i <= n,
                out@ == raw@.take(i as int),
            decreases n - i,
        {
            out.push(raw[i]);
            i = i + 1;
            assert(out@ =~= raw@.take(i as int));
        }
        return Ok(out);
    }
    let off = ent.value_or_offset as u64;
    if (data.len() as u64) < off || (data.len() as u64) - off < n {
        return Err(DecodeError::UnexpectedEof);
    }
    let start = off as usize;
    let end = start + n as usize;
    let mut i: usize = start;
    while i < end
        invariant
            start <= i <= end <= data@.len(),
            start == ent.value_or_offset,
            end == ent.value_or_offset + ent.count,
            out@ == data@.subrange(start as int, i as int),
        decreases end - i,
    {
        out.push(data[i]);
        i = i + 1;
        assert(out@ =~= data@.subrange(start as int, i as int));
    }
    Ok(out)
}

/// The ASCII value of tag `tag` in `ents` as bytes without its trailing NUL; `None` for a
/// missing tag, another type, a zero count or an empty text. `Err` past the end of `b`.
pub open spec fn ascii_tag_bytes(b: Seq<u8>, e: Endian, ents: Seq<IfdEntry>, tag: u16) -> Result<Option<Seq<u8>>, ()> {
    match find_tag(ents, tag) {
        None => Ok(None),
        Some(ent) => if ent.typ != 2 || ent.count == 0 {
            Ok(None)
        } else {
            match byte_values(b, e, ent) {
                None => Err(()),
                Some(v) => if trim_nul(v).len() == 0 { Ok(None) } else { Ok(Some(trim_nul(v))) },
            }
        },
    }
}

/// Reads the ASCII tag `tag_id` of `ifd` as bytes (see [`ascii_tag_bytes`]).
fn read_ascii_tag_bytes(data: &[u8], e: Endian, ifd: &Ifd, tag_id: u16) -> (r: Result<Option<Vec<u8>>, DecodeError>)
    ensures
        r matches Ok(Some(v)) ==> ascii_tag_bytes(data@, e, ifd.entries@, tag_id) == Ok::<Option<Seq<u8>>, ()>(Some(v@)),
        r matches Ok(None) ==> ascii_tag_bytes(data@, e, ifd.entries@, tag_id) == Ok::<Option<Seq<u8>>, ()>(None),
        r is Err <==> ascii_tag_bytes(data@, e, ifd.entries@, tag_id) is Err,
        r is Err ==> r matches Err(DecodeError::UnexpectedEof),
{
    let ent = match find_entry(&ifd.entries, tag_id) {
        Some(ent) => ent,
        None => return Ok(None),
    };
    if ent.typ != 2 || ent.count == 0 {
        return Ok(None);
    }
    let mut buf = match read_tag_value_bytes(data, e, &ent) {
        Ok(b) => b,
        Err(err) => return Err(err),
    };
    let ghost full = buf@;
    let n = buf.len();
    if n > 0 && buf[n - 1] == 0 {
        buf.pop();
    }
    assert(buf@ =~= trim_nul(full));
    if buf.len() == 0 {
        return Ok(None);
    }
    Ok(Some(buf))
}

/// The text of an ASCII tag (see [`ascii_tag_bytes`]), decoded as UTF-8 with invalid
/// sequences replaced.
pub fn read_ascii_tag(data: &[u8], e: Endian, ifd: &Ifd, tag_id: u16) -> (r: Result<Option<String>, DecodeError>)
    ensures
        r matches Ok(Some(s)) ==> ascii_tag_bytes(data@, e, ifd.entries@, tag_id) matches Ok(Some(v)) && s@ == utf8_lossy(v),
        r matches Ok(None) ==> ascii_tag_bytes(data@, e, ifd.entries@, tag_id) == Ok::<Option<Seq<u8>>, ()>(None),
        r is Err <==> ascii_tag_bytes(data@, e, ifd.entries@, tag_id) is Err,
{
    match read_ascii_tag_bytes(data, e, ifd, tag_id) {
        Ok(Some(b)) => Ok(Some(crate::exif::lossy_string(b.as_slice()))),
        Ok(None) => Ok(None),
        Err(err) => Err(err),
    }
}

/// Reads the LONG array of tag `tag_id`; `Ok(None)` where the tag is absent.
pub fn read_long_array_tag(data: &[u8], e: Endian, ifd: &Ifd, tag_id: u16) -> (r: Result<Option<Vec<u32>>, DecodeError>)
    ensures
        find_tag(ifd.entries@, tag_id) is None ==> r matches Ok(None),
        find_tag(ifd.entries@, tag_id) matches Some(ent) ==> match r {
            Ok(Some(v)) => long_values(data@, e, ent) == Some(v@),
            Ok(None) => false,
            Err(_) => long_values(data@, e, ent) is None,
        },
        r is Err ==> r matches Err(DecodeError::UnexpectedEof),
{
    match find_entry(&ifd.entries, tag_id) {
        Some(ent) => match read_tag_value_u32s(data, e, &ent) {
            Ok(v) => Ok(Some(v)),
            Err(err) => Err(err),
        },
        None => Ok(None),
    }
}

/// Reads the SHORT array of tag `tag_id`; `Ok(None)` where the tag is absent, of another
/// type, or has a zero count.
pub fn read_short_array_tag(data: &[u8], e: Endian, ifd: &Ifd, tag_id: u16) -> (r: Result<Option<Vec<u16>>, DecodeError>)
    ensures
        find_tag(ifd.entries@, tag_id) is None ==> r matches Ok(None),
        find_tag(ifd.entries@, tag_id) matches Some(ent) ==> match r {
            Ok(Some(v)) => ent.typ == 3 && ent.count > 0 && short_values(data@, e, ent) == Some(v@),
            Ok(None) => ent.typ != 3 || ent.count == 0,
            Err(_) => ent.typ == 3 && ent.count > 0 && short_values(data@, e, ent) is None,
        },
        r is Err ==> r matches Err(DecodeError::UnexpectedEof),
{
    match find_entry(&ifd.entries, tag_id) {
        Some(ent) => {
            if ent.typ != 3 || ent.count == 0 {
                return Ok(None);
            }
            match read_tag_value_u16s(data, e, &ent) {
                Ok(v) => Ok(Some(v)),
                Err(err) => Err(err),
            }
        },
        None => Ok(None),
    }
}

/// Four bytes read as a big-endian word.
pub open spec fn dng_word(b: Seq<u8>) -> int {
    16777216 * b[0] + 65536 * b[1] + 256 * b[2] + b[3]
}

/// The DNGVersion of a directory: tag 0xC612 as BYTE with at least four bytes, read as a
/// big-endian word; `Ok(None)` where absent or of another shape; `Err` past the end of `b`.
pub open spec fn dng_tag(b: Seq<u8>, e: Endian, ents: Seq<IfdEntry>) -> Result<Option<u32>, ()> {
    match find_tag(ents, 0xc612) {
        None => Ok(None),
        Some(ent) => if ent.typ != 1 || ent.count < 4 {
            Ok(None)
        } else {
            match byte_values(b, e, ent) {
                None => Err(()),
                Some(v) => Ok(Some(dng_word(v) as u32)),
            }
        },
    }
}

/// The DNGVersion tag (0xC612, BYTE, at least four bytes) read as a big-endian word.
pub fn read_dng_version_tag(data: &[u8], e: Endian, ifd: &Ifd) -> (r: Result<Option<u32>, DecodeError>)
    ensures
        r matches Ok(v) ==> dng_tag(data@, e, ifd.entries@) == Ok::<Option<u32>, ()>(v),
        r is Err <==> dng_tag(data@, e, ifd.entries@) is Err,
        find_tag(ifd.entries@, 0xc612) is None ==> r matches Ok(None),
        find_tag(ifd.entries@, 0xc612) matches Some(ent) ==> match r {
            Ok(Some(v)) => ent.typ == 1 && ent.count >= 4 && byte_values(data@, e, ent) is Some
                && v == dng_word(byte_values(data@, e, ent)->0),
            Ok(None) => ent.typ != 1 || ent.count < 4,
            Err(_) => ent.typ == 1 && ent.count >= 4 && byte_values(data@, e, ent) is None,
        },
{
    let ent = match find_entry(&ifd.entries, 0xc612) {
        Some(ent) => ent,
        None => return Ok(None),
    };
    if ent.typ != 1 || ent.count < 4 {
        return Ok(None);
    }
    let buf = match read_tag_value_bytes(data, e, &ent) {
        Ok(b) => b,
        Err(err) => return Err(err),
    };
    let v = (buf[0] as u32) * 16777216 + (buf[1] as u32) * 65536 + (buf[2] as u32) * 256 + (buf[3] as u32);
    Ok(Some(v))
}

/// The LONG array of tag `tag` in `ents`; `None` where it is absent or runs past the end.
pub open spec fn long_tag(b: Seq<u8>, e: Endian, ents: Seq<IfdEntry>, tag: u16) -> Option<Seq<u32>> {
    match find_tag(ents, tag) {
        Some(ent) => long_values(b, e, ent),
        None => None,
    }
}

/// The first element of SHORT tag `tag` in `ents`, or `default` where it is absent, of
/// another type or empty.
pub open spec fn short_tag_or(b: Seq<u8>, e: Endian, ents: Seq<IfdEntry>, tag: u16, default: u16) -> u16 {
    match find_tag(ents, tag) {
        Some(ent) => if ent.typ == 3 && ent.count > 0 && short_values(b, e, ent) is Some {
            short_values(b, e, ent)->0[0]
        } else {
            default
        },
        None => default,
    }
}

/// `s` widened to 64-bit elements.
pub open spec fn widen(s: Seq<u32>) -> Seq<u64> {
    Seq::new(s.len(), |i: int| s[i] as u64)
}

/// What a raw-plane summary taken from a directory with entries `ents` holds.
pub open spec fn raw_info_from(b: Seq<u8>, e: Endian, ents: Seq<IfdEntry>, is_sony: bool, info: TiffRawInfo) -> bool {
    &&& raw_geometry_from(b, e, ents, info)
    &&& info.is_sony == is_sony
    &&& info.make is None && info.model is None && info.dng_version is None
}

/// The geometry and strips of a raw-plane summary are those that the directory with
/// entries `ents` records.
pub open spec fn raw_geometry_from(b: Seq<u8>, e: Endian, ents: Seq<IfdEntry>, info: TiffRawInfo) -> bool {
    &&& info.wf()
    &&& long_tag(b, e, ents, 256) matches Some(w) && w.len() > 0 && info.width == w[0]
    &&& long_tag(b, e, ents, 257) matches Some(h) && h.len() > 0 && info.height == h[0]
    &&& info.width > 0 && info.height > 0
    &&& short_tag_or(b, e, ents, 277, 1) == 1
    &&& info.compression == short_tag_or(b, e, ents, 259, 1)
    &&& info.bits_per_sample == short_tag_or(b, e, ents, 258, 14)
    &&& long_tag(b, e, ents, 273) matches Some(o) && o.len() > 0 && info.strip_offsets@ == widen(o)
    &&& long_tag(b, e, ents, 279) matches Some(c) && c.len() > 0 && info.strip_byte_counts@ == widen(c)
}

/// The LONG tag `tag`, where present, lies inside `b`.
pub open spec fn long_readable(b: Seq<u8>, e: Endian, ents: Seq<IfdEntry>, tag: u16) -> bool {
    match find_tag(ents, tag) {
        Some(ent) => long_values(b, e, ent) is Some,
        None => true,
    }
}

/// The SHORT tag `tag`, where present as a non-empty SHORT, lies inside `b`.
pub open spec fn short_readable(b: Seq<u8>, e: Endian, ents: Seq<IfdEntry>, tag: u16) -> bool {
    match find_tag(ents, tag) {
        Some(ent) => ent.typ == 3 && ent.count > 0 ==> short_values(b, e, ent) is Some,
        None => true,
    }
}

/// Every tag that the raw-plane check reads lies inside `b`.
pub open spec fn raw_tags_readable(b: Seq<u8>, e: Endian, ents: Seq<IfdEntry>) -> bool {
    &&& long_readable(b, e, ents, 256) && long_readable(b, e, ents, 257)
    &&& long_readable(b, e, ents, 273) && long_readable(b, e, ents, 279)
    &&& short_readable(b, e, ents, 258) && short_readable(b, e, ents, 259) && short_readable(b, e, ents, 277)
}

/// Whether a directory with entries `ents` describes a single-plane raw image: nonzero
/// width and height, one sample per pixel, and as many strip offsets as byte counts.
pub open spec fn raw_ifd_accepted(b: Seq<u8>, e: Endian, ents: Seq<IfdEntry>) -> bool {
    &&& long_tag(b, e, ents, 256) matches Some(w) && w.len() > 0 && w[0] > 0
    &&& long_tag(b, e, ents, 257) matches Some(h) && h.len() > 0 && h[0] > 0
    &&& short_tag_or(b, e, ents, 277, 1) == 1
    &&& long_tag(b, e, ents, 273) matches Some(o) && o.len() > 0
    &&& long_tag(b, e, ents, 279) matches Some(c) && c.len() > 0
    &&& long_tag(b, e, ents, 273)->0.len() == long_tag(b, e, ents, 279)->0.len()
}

fn widen_vec(v: &Vec<u32>) -> (r: Vec<u64>)
    ensures
        r@ == widen(v@),
{
    let mut out: Vec<u64> = Vec::new();
    let mut i: usize = 0;
    while i < v.len()
        invariant
            0 <= i <= v@.len(),
            out@ == widen(v@.take(i as int)),
        decreases v@.len() - i,
    {
        out.push(v[i] as u64);
        i = i + 1;
        assert(out@ =~= widen(v@.take(i as int)));
    }
    assert(v@.take(i as int) =~= v@);
    out
}

fn sum_counts(v: &Vec<u64>) -> (r: u64)
    requires
        v@.len() <= 0xffff_ffff,
        forall|i: int| 0 <= i < v@.len() ==> v@[i] <= 0xffff_ffff,
    ensures
        r == sum_of(v@),
{
    let mut total: u64 = 0;
    let mut i: usize = 0;
    while i < v.len()
        invariant
            v@.len() <= 0xffff_ffff,
            forall|j: int| 0 <= j < v@.len() ==> v@[j] <= 0xffff_ffff,
            0 <= i <= v@.len(),
            total == sum_of(v@.take(i as int)),
            total <= i * 0xffff_ffff,
        decreases v@.len() - i,
    {
        assert(v@.take(i + 1).drop_last() =~= v@.take(i as int));
        total = total + v[i];
        i = i + 1;
    }
    assert(v@.take(i as int) =~= v@);
    total
}

/// First element of a SHORT tag, or `default`.
fn short_or(data: &[u8], e: Endian, ifd: &Ifd, tag: u16, default: u16) -> (r: Result<u16, DecodeError>)
    ensures
        r matches Ok(v) ==> v == short_tag_or(data@, e, ifd.entries@, tag, default),
        r is Ok <==> short_readable(data@, e, ifd.entries@, tag),
        r is Err ==> r matches Err(DecodeError::UnexpectedEof),
{
    match read_short_array_tag(data, e, ifd, tag) {
        Ok(Some(v)) => Ok(v[0]),
        Ok(None) => Ok(default),
        Err(err) => Err(err),
    }
}

/// First element of a LONG tag that is present and non-empty.
fn first_long(data: &[u8], e: Endian, ifd: &Ifd, tag: u16) -> (r: Result<Option<Vec<u32>>, DecodeError>)
    ensures
        r matches Ok(Some(v)) ==> v@.len() > 0 && long_tag(data@, e, ifd.entries@, tag) == Some(v@),
        r matches Ok(None) ==> !(long_tag(data@, e, ifd.entries@, tag) matches Some(v) && v.len() > 0),
        r is Ok <==> long_readable(data@, e, ifd.entries@, tag),
        r is Err ==> r matches Err(DecodeError::UnexpectedEof),
{
    match read_long_array_tag(data, e, ifd, tag) {
        Ok(Some(v)) => if v.len() > 0 { Ok(Some(v)) } else { Ok(None) },
        Ok(None) => Ok(None),
        Err(err) => Err(err),
    }
}

/// The raw-plane summary of `ifd`, where it has a nonzero width (256) and height (257),
/// one sample per pixel (277), and as many strip offsets (273) as strip byte counts (279).
/// Compression (259) defaults to 1 and bits per sample (258) to 14.
pub fn try_extract_raw_info(data: &[u8], e: Endian, ifd: &Ifd, is_sony: bool) -> (r: Result<Option<TiffRawInfo>, DecodeError>)
    ensures
        r matches Ok(Some(info)) ==> raw_info_from(data@, e, ifd.entries@, is_sony, info),
        r matches Ok(None) ==> !raw_ifd_accepted(data@, e, ifd.entries@),
        raw_tags_readable(data@, e, ifd.entries@) ==> (r is Ok
            && (r matches Ok(Some(_)) <==> raw_ifd_accepted(data@, e, ifd.entries@))),
        r is Err ==> !raw_tags_readable(data@, e, ifd.entries@) && r matches Err(DecodeError::UnexpectedEof),
{
    let width = match first_long(data, e, ifd, 256) {
        Ok(Some(v)) => v[0],
        Ok(None) => return Ok(None),
        Err(err) => return Err(err),
    };
    let height = match first_long(data, e, ifd, 257) {
        Ok(Some(v)) => v[0],
        Ok(None) => return Ok(None),
        Err(err) => return Err(err),
    };
    if width == 0 || height == 0 {
        return Ok(None);
    }
    let compression = match short_or(data, e, ifd, 259, 1) {
        Ok(v) => v,
        Err(err) => return Err(err),
    };
    let samples_per_pixel = match short_or(data, e, ifd, 277, 1) {
        Ok(v) => v,
        Err(err) => return Err(err),
    };
    if samples_per_pixel != 1 {
        return Ok(None);
    }
    let bits_per_sample = match short_or(data, e, ifd, 258, 14) {
        Ok(v) => v,
        Err(err) => return Err(err),
    };
    let offsets = match first_long(data, e, ifd, 273) {
        Ok(Some(v)) => v,
        Ok(None) => return Ok(None),
        Err(err) => return Err(err),
    };
    let counts = match first_long(data, e, ifd, 279) {
        Ok(Some(v)) => v,
        Ok(None) => return Ok(None),
        Err(err) => return Err(err),
    };
    if offsets.len() != counts.len() {
        return Ok(None);
    }
    let strip_offsets = widen_vec(&offsets);
    let strip_byte_counts = widen_vec(&counts);
    proof {
        let ent = find_tag(ifd.entries@, 279)->0;
        assert(counts@.len() <= ent.count);
    }
    let total_bytes = sum_counts(&strip_byte_counts);
    Ok(Some(TiffRawInfo {
        make: None,
        model: None,
        dng_version: None,
        width,
        height,
        bits_per_sample,
        compression,
        strip_offsets,
        strip_byte_counts,
        total_bytes,
        is_sony,
    }))
}

/// ASCII lower case of a byte.
pub open spec fn ascii_lower(c: u8) -> u8 {
    if 0x41 <= c <= 0x5a { (c + 32) as u8 } else { c }
}

/// Whether a Make text starts with "sony", ignoring ASCII case.
pub open spec fn sony_make(b: Seq<u8>) -> bool {
    &&& b.len() >= 4
    &&& ascii_lower(b[0]) == 0x73 && ascii_lower(b[1]) == 0x6f
    &&& ascii_lower(b[2]) == 0x6e && ascii_lower(b[3]) == 0x79
}

fn lower_byte(c: u8) -> (r: u8)
    ensures
        r == ascii_lower(c),
{
    if 0x41 <= c && c <= 0x5a { c + 32 } else { c }
}

/// Whether the Make bytes start with "sony", ignoring ASCII case.
pub fn is_sony_make(b: &Vec<u8>) -> (r: bool)
    ensures
        r == sony_make(b@),
{
    b.len() >= 4 && lower_byte(b[0]) == 0x73 && lower_byte(b[1]) == 0x6f && lower_byte(b[2]) == 0x6e
        && lower_byte(b[3]) == 0x79
}

/// Reads the TIFF header at the start of `data`: byte order and first directory offset.
pub fn read_tiff_header(data: &[u8]) -> (r: Result<(Endian, u64), DecodeError>)
    ensures
        data@.len() < 8 ==> r matches Err(DecodeError::UnexpectedEof),
        r matches Ok((e, off)) ==> crate::exif::header_at(data@, 0) == Some((Some(e), off as int)),
        crate::exif::header_at(data@, 0) matches Some((Some(e), off)) ==> r matches Ok((e2, off2)) && e2 == e && off2 == off,
        crate::exif::header_is_bad(data@, 0) ==> r matches Err(DecodeError::CorruptData(_)),
{
    if data.len() < 8 {
        return Err(DecodeError::UnexpectedEof);
    }
    let e = if data[0] == 0x49 && data[1] == 0x49 {
        Endian::Little
    } else if data[0] == 0x4d && data[1] == 0x4d {
        Endian::Big
    } else {
        return Err(DecodeError::CorruptData("Not a TIFF/ARW file"));
    };
    let magic = u16_from(e, data[2], data[3]);
    if magic != 42 {
        return Err(DecodeError::CorruptData("Bad TIFF magic"));
    }
    let off = crate::endian::u32_from(e, data[4], data[5], data[6], data[7]);
    Ok((e, off as u64))
}

/// The byte order that the TIFF header at the start of `b` names.
pub open spec fn header_endian(b: Seq<u8>) -> Endian {
    match crate::exif::header_at(b, 0) {
        Some((Some(e), _)) => e,
        _ => Endian::Little,
    }
}

/// A sequence of distinct values below `n` has at most `n` elements.
proof fn lemma_distinct_below(s: Seq<u64>, n: int)
    requires
        n >= 0,
        s.no_duplicates(),
        forall|i: int| 0 <= i < s.len() ==> s[i] < n,
    ensures
        s.len() <= n,
    decreases s.len(),
{
    if s.len() > 0 {
        let x = s.last();
        assert(x < n);
        let t = s.drop_last();
        let u = t.map_values(|v: u64| if v > x { (v - 1) as u64 } else { v });
        assert forall|i: int, j: int| 0 <= i < u.len() && 0 <= j < u.len() && i != j implies u[i] != u[j] by {
            assert(t[i] != t[j]);
            assert(t[i] == s[i] && t[j] == s[j]);
            assert(s[i] != x && s[j] != x);
        }
        assert forall|i: int| 0 <= i < u.len() implies u[i] < n - 1 by {
            assert(t[i] == s[i]);
            assert(s[i] != x);
        }
        assert(u.len() == s.len() - 1);
        lemma_distinct_below(u, n - 1);
    }
}

fn contains_offset(v: &Vec<u64>, x: u64) -> (r: bool)
    ensures
        r == v@.contains(x),
{
    let mut i: usize = 0;
    while i < v.len()
        invariant
            0 <= i <= v@.len(),
            forall|j: int| 0 <= j < i ==> v@[j] != x,
        decreases v@.len() - i,
    {
        if v[i] == x {
            return true;
        }
        i = i + 1;
    }
    false
}

/// Whether `x` is an element of `s`.
pub open spec fn in_seq(s: Seq<u64>, x: int) -> bool {
    exists|i: int| 0 <= i < s.len() && s[i] as int == x
}

proof fn lemma_in_seq_push(s: Seq<u64>, x: u64)
    ensures
        forall|o: int| #[trigger] in_seq(s.push(x), o) <==> (in_seq(s, o) || o == x as int),
{
    assert forall|o: int| #[trigger] in_seq(s.push(x), o) <==> (in_seq(s, o) || o == x as int) by {
        if in_seq(s, o) {
            let i = choose|i: int| 0 <= i < s.len() && s[i] as int == o;
            assert(s.push(x)[i] == s[i]);
        }
        if o == x as int {
            assert(s.push(x)[s.len() as int] == x);
        }
        if in_seq(s.push(x), o) {
            let i = choose|i: int| 0 <= i < s.len() + 1 && s.push(x)[i] as int == o;
            if i < s.len() {
                assert(s.push(x)[i] == s[i]);
            }
        }
    }
}

/// Whether the directory at `o` links to `p`: through a nonzero next-directory pointer or
/// an element of its SubIFD (330) array.
pub open spec fn is_link(b: Seq<u8>, e: Endian, o: int, p: int) -> bool {
    ||| (ifd_next(e, b, o) != 0 && p == ifd_next(e, b, o))
    ||| (long_tag(b, e, ifd_entries(e, b, o), 330) matches Some(s) && exists|k: int| 0 <= k < s.len() && s[k] == p)
}

/// Every directory of `v` that lies inside `b` has all its links in `v`.
pub open spec fn walk_closed(b: Seq<u8>, e: Endian, v: Set<int>) -> bool {
    forall|o: int, p: int| v.contains(o) && ifd_fits(e, b, o) && #[trigger] is_link(b, e, o, p) ==> v.contains(p)
}

/// Whether the directory at `o` is reachable from `root` by links: it lies in every
/// link-closed set that holds `root`.
pub open spec fn reachable(b: Seq<u8>, e: Endian, root: int, o: int) -> bool {
    forall|v: Set<int>| #[trigger] walk_closed(b, e, v) && v.contains(root) ==> v.contains(o)
}

/// Every tag that the walk reads from the directory at `o` lies inside `b`.
pub open spec fn ifd_readable(b: Seq<u8>, e: Endian, o: int) -> bool {
    let ents = ifd_entries(e, b, o);
    &&& ifd_fits(e, b, o)
    &&& ascii_tag_bytes(b, e, ents, 271) is Ok
    &&& ascii_tag_bytes(b, e, ents, 272) is Ok
    &&& dng_tag(b, e, ents) is Ok
    &&& long_readable(b, e, ents, 330)
    &&& raw_tags_readable(b, e, ents)
}

/// The strip payload that the directory at `o` records.
pub open spec fn ifd_total(b: Seq<u8>, e: Endian, o: int) -> int {
    sum_of(widen(long_tag(b, e, ifd_entries(e, b, o), 279)->0))
}

/// The directory at `o` describes a raw plane with a nonzero payload.
pub open spec fn raw_candidate(b: Seq<u8>, e: Endian, o: int) -> bool {
    ifd_fits(e, b, o) && raw_ifd_accepted(b, e, ifd_entries(e, b, o)) && ifd_total(b, e, o) > 0
}

/// The first directory offset of the TIFF header at the start of `b`.
pub open spec fn header_root(b: Seq<u8>) -> int {
    match crate::exif::header_at(b, 0) {
        Some((Some(_), off)) => off,
        _ => 0,
    }
}

/// Walks every directory reachable from the first one through next-directory links and
/// SubIFD (330) arrays, each offset once, and picks a directory with the largest strip
/// payload as the raw plane. Make, model and DNG version are taken from directories of
/// the walk; `is_sony` says whether the make starts with "sony", ignoring ASCII case.
/// Fails with `CorruptData` for a bad header or where no directory holds a raw plane, and
/// with `UnexpectedEof` where a read runs past the data.
/// The walk's frontier: visited directories lie inside `b` and are reachable, pending
/// offsets are reachable, the first directory is visited or pending, and every link of a
/// visited directory is visited or pending.
#[verifier::opaque]
pub open spec fn walk_frontier(b: Seq<u8>, e: Endian, root: int, visited: Seq<u64>, pending: Seq<u64>) -> bool {
    &&& forall|o: int| #[trigger] in_seq(visited, o) ==> ifd_fits(e, b, o) && reachable(b, e, root, o)
    &&& forall|k: int| 0 <= k < pending.len() ==> reachable(b, e, root, #[trigger] pending[k] as int)
    &&& in_seq(visited, root) || in_seq(pending, root)
    &&& forall|o: int, p: int| in_seq(visited, o) && #[trigger] is_link(b, e, o, p) ==> in_seq(visited, p) || in_seq(pending, p)
}

proof fn lemma_frontier_start(b: Seq<u8>, e: Endian, root: u64)
    ensures
        walk_frontier(b, e, root as int, Seq::empty(), seq![root]),
{
    reveal(walk_frontier);
    assert(seq![root][0] == root);
    assert forall|k: int| 0 <= k < 1 implies reachable(b, e, root as int, #[trigger] seq![root][k] as int) by {
        assert forall|v: Set<int>| #[trigger] walk_closed(b, e, v) && v.contains(root as int) implies v.contains(root as int) by {}
    }
}

proof fn lemma_frontier_pending_reachable(b: Seq<u8>, e: Endian, root: int, visited: Seq<u64>, pending: Seq<u64>)
    requires
        walk_frontier(b, e, root, visited, pending),
        pending.len() > 0,
    ensures
        reachable(b, e, root, pending.last() as int),
{
    reveal(walk_frontier);
    assert(pending[pending.len() - 1] == pending.last());
}

proof fn lemma_frontier_skip(b: Seq<u8>, e: Endian, root: int, visited: Seq<u64>, pending: Seq<u64>)
    requires
        walk_frontier(b, e, root, visited, pending),
        pending.len() > 0,
        in_seq(visited, pending.last() as int),
    ensures
        walk_frontier(b, e, root, visited, pending.drop_last()),
{
    reveal(walk_frontier);
    let q = pending.drop_last();
    assert forall|x: int| in_seq(pending, x) && x != pending.last() as int implies in_seq(q, x) by {
        let k = choose|k: int| 0 <= k < pending.len() && pending[k] as int == x;
        assert(k != pending.len() - 1);
        assert(q[k] == pending[k]);
    }
    assert forall|k: int| 0 <= k < q.len() implies reachable(b, e, root, #[trigger] q[k] as int) by {
        assert(q[k] == pending[k]);
    }
    assert forall|o: int, p: int| in_seq(visited, o) && #[trigger] is_link(b, e, o, p) implies in_seq(visited, p) || in_seq(q, p) by {
        if !in_seq(visited, p) {
            assert(in_seq(pending, p));
        }
    }
    if !in_seq(visited, root) {
        assert(in_seq(pending, root));
    }
}

/// Visiting the last pending directory `o` and queueing its links `links` keeps the frontier.
proof fn lemma_frontier_visit(b: Seq<u8>, e: Endian, root: int, visited: Seq<u64>, pending: Seq<u64>, links: Seq<u64>)
    requires
        walk_frontier(b, e, root, visited, pending),
        pending.len() > 0,
        ifd_fits(e, b, pending.last() as int),
        forall|p: int| #[trigger] is_link(b, e, pending.last() as int, p) ==> in_seq(links, p),
        forall|k: int| 0 <= k < links.len() ==> is_link(b, e, pending.last() as int, #[trigger] links[k] as int),
    ensures
        walk_frontier(b, e, root, visited.push(pending.last()), pending.drop_last() + links),
{
    reveal(walk_frontier);
    let o = pending.last();
    let v2 = visited.push(o);
    let q = pending.drop_last() + links;
    lemma_in_seq_push(visited, o);
    assert(reachable(b, e, root, o as int)) by {
        assert(pending[pending.len() - 1] == o);
    }
    assert forall|x: int| in_seq(pending, x) && x != o as int implies in_seq(q, x) by {
        let k = choose|k: int| 0 <= k < pending.len() && pending[k] as int == x;
        assert(k != pending.len() - 1);
        assert(q[k] == pending[k]);
    }
    assert forall|x: int| in_seq(links, x) implies in_seq(q, x) by {
        let k = choose|k: int| 0 <= k < links.len() && links[k] as int == x;
        assert(q[pending.len() - 1 + k] == links[k]);
    }
    assert forall|k: int| 0 <= k < q.len() implies reachable(b, e, root, #[trigger] q[k] as int) by {
        if k < pending.len() - 1 {
            assert(q[k] == pending[k]);
        } else {
            let p = q[k] as int;
            assert(q[k] == links[k - (pending.len() - 1)]);
            assert(is_link(b, e, o as int, p));
            assert forall|v: Set<int>| #[trigger] walk_closed(b, e, v) && v.contains(root) implies v.contains(p) by {
                assert(v.contains(o as int));
            }
        }
    }
    assert forall|x: int, p: int| in_seq(v2, x) && #[trigger] is_link(b, e, x, p) implies in_seq(v2, p) || in_seq(q, p) by {
        if x == o as int {
            assert(in_seq(links, p));
        } else if !in_seq(v2, p) {
            assert(in_seq(pending, p));
        }
    }
    if !in_seq(v2, root) {
        assert(in_seq(pending, root));
    }
}

/// With nothing pending, every reachable directory has been visited.
proof fn lemma_frontier_done(b: Seq<u8>, e: Endian, root: int, visited: Seq<u64>)
    requires
        walk_frontier(b, e, root, visited, Seq::empty()),
    ensures
        forall|o: int| #[trigger] reachable(b, e, root, o) ==> in_seq(visited, o),
        forall|o: int| #[trigger] in_seq(visited, o) ==> reachable(b, e, root, o) && ifd_fits(e, b, o),
{
    reveal(walk_frontier);
    let w = Set::new(|x: int| in_seq(visited, x));
    assert forall|x: int, p: int| w.contains(x) && ifd_fits(e, b, x) && #[trigger] is_link(b, e, x, p) implies w.contains(p) by {
        assert(!in_seq(Seq::<u64>::empty(), p));
    }
    assert(walk_closed(b, e, w));
    assert(!in_seq(Seq::<u64>::empty(), root));
    assert(w.contains(root));
    assert forall|o: int| #[trigger] reachable(b, e, root, o) implies in_seq(visited, o) by {
        assert(walk_closed(b, e, w) && w.contains(root));
    }
}

/// Walks every directory reachable from the first one through next-directory links and
/// SubIFD (330) arrays, each offset once, and picks a directory with the largest strip
/// payload as the raw plane. Make, model and DNG version are taken from directories of
/// the walk; `is_sony` says whether the make starts with "sony", ignoring ASCII case.
/// Fails with `CorruptData` for a bad header or where no directory holds a raw plane, and
/// with `UnexpectedEof` where a read runs past the data.
#[verifier::rlimit(100)]
pub fn detect_sony_raw(data: &[u8]) -> (r: Result<TiffDetectResult, DecodeError>)
    ensures
        data@.len() < 8 ==> r matches Err(DecodeError::UnexpectedEof),
        crate::exif::header_is_bad(data@, 0) ==> r matches Err(DecodeError::CorruptData(_)),
        r matches Ok(d) ==> detected(data@, d),
        raw_walk_succeeds(data@) ==> r is Ok,
{
    let (e, ifd0) = match read_tiff_header(data) {
        Ok(h) => h,
        Err(err) => return Err(err),
    };
    let ghost b = data@;
    let ghost root = ifd0 as int;
    assert(header_endian(b) == e && header_root(b) == root);
    let mut pending: Vec<u64> = vec![ifd0];
    let mut visited: Vec<u64> = Vec::new();
    let mut chosen: Option<TiffRawInfo> = None;
    let ghost mut chosen_off: int = 0;
    let mut make: Option<String> = None;
    let mut make_bytes: Option<Vec<u8>> = None;
    let ghost mut make_off: int = 0;
    let mut model: Option<String> = None;
    let ghost mut model_off: int = 0;
    let mut dng_version: Option<u32> = None;
    let ghost mut dng_off: int = 0;
    proof {
        assert(pending@ =~= seq![ifd0]);
        assert(visited@ =~= Seq::<u64>::empty());
        lemma_frontier_start(b, e, ifd0);
    }
    while pending.len() > 0
        invariant
            b == data@,
            !crate::exif::header_is_bad(data@, 0),
            data@.len() >= 8,
            header_endian(b) == e,
            header_root(b) == root,
            visited@.no_duplicates(),
            forall|i: int| 0 <= i < visited@.len() ==> visited@[i] < data@.len(),
            visited@.len() <= data@.len(),
            walk_frontier(b, e, root, visited@, pending@),
            forall|o: int| #[trigger] in_seq(visited@, o) && raw_candidate(b, e, o) ==>
                chosen is Some && ifd_total(b, e, o) <= chosen->0.total_bytes,
            chosen matches Some(c) ==> in_seq(visited@, chosen_off) && raw_geometry_from(b, e, ifd_entries(e, b, chosen_off), c)
                && c.total_bytes > 0,
            make_bytes matches Some(mb) ==> make matches Some(s) && s@ == utf8_lossy(mb@) && in_seq(visited@, make_off)
                && ascii_tag_bytes(b, e, ifd_entries(e, b, make_off), 271) == Ok::<Option<Seq<u8>>, ()>(Some(mb@)),
            make_bytes is None ==> make is None
                && forall|o: int| #[trigger] in_seq(visited@, o) ==> ascii_tag_bytes(b, e, ifd_entries(e, b, o), 271) == Ok::<Option<Seq<u8>>, ()>(None),
            model matches Some(s) ==> in_seq(visited@, model_off)
                && (ascii_tag_bytes(b, e, ifd_entries(e, b, model_off), 272) matches Ok(Some(v)) && s@ == utf8_lossy(v)),
            model is None ==> forall|o: int| #[trigger] in_seq(visited@, o) ==> ascii_tag_bytes(b, e, ifd_entries(e, b, o), 272) == Ok::<Option<Seq<u8>>, ()>(None),
            dng_version is Some ==> in_seq(visited@, dng_off) && dng_tag(b, e, ifd_entries(e, b, dng_off)) == Ok::<Option<u32>, ()>(dng_version),
            dng_version is None ==> forall|o: int| #[trigger] in_seq(visited@, o) ==> dng_tag(b, e, ifd_entries(e, b, o)) == Ok::<Option<u32>, ()>(None),
        decreases data@.len() - visited@.len(), pending@.len(),
    {
        let ghost old_pending = pending@;
        let ghost old_visited = visited@;
        let last = pending.len() - 1;
        let ofs = pending.remove(last);
        assert(pending@ =~= old_pending.drop_last());
        assert(ofs == old_pending.last());
        proof { lemma_frontier_pending_reachable(b, e, root, old_visited, old_pending); }
        if contains_offset(&visited, ofs) {
            proof {
                let i = choose|i: int| 0 <= i < visited@.len() && visited@[i] == ofs;
                assert(in_seq(visited@, ofs as int));
                lemma_frontier_skip(b, e, root, old_visited, old_pending);
            }
            continue;
        }
        let ifd = match read_ifd(data, e, ofs) {
            Some(ifd) => ifd,
            None => return Err(DecodeError::UnexpectedEof),
        };
        proof {
            let s = visited@.push(ofs);
            assert forall|i: int| 0 <= i < s.len() implies s[i] < data@.len() by {
                if i < visited@.len() {
                    assert(s[i] == visited@[i]);
                }
            }
            assert forall|i: int, j: int| 0 <= i < s.len() && 0 <= j < s.len() && i != j implies s[i] != s[j] by {
                if i < visited@.len() && j < visited@.len() {
                    assert(s[i] == visited@[i] && s[j] == visited@[j]);
                } else if i < visited@.len() {
                    assert(s[i] == visited@[i]);
                } else if j < visited@.len() {
                    assert(s[j] == visited@[j]);
                }
            }
            lemma_distinct_below(s, data@.len() as int);
        }
        visited.push(ofs);
        proof { lemma_in_seq_push(old_visited, ofs); }
        let ghost o = ofs as int;
        let ghost ents = ifd.entries@;
        assert(ents == ifd_entries(e, b, o));
        if make.is_none() {
            match read_ascii_tag_bytes(data, e, &ifd, 271) {
                Ok(Some(mb)) => {
                    make = Some(crate::exif::lossy_string(mb.as_slice()));
                    make_bytes = Some(mb);
                    proof { make_off = o; }
                },
                Ok(None) => {},
                Err(err) => return Err(err),
            }
        }
        if model.is_none() {
            match read_ascii_tag(data, e, &ifd, 272) {
                Ok(Some(m)) => {
                    model = Some(m);
                    proof { model_off = o; }
                },
                Ok(None) => {},
                Err(err) => return Err(err),
            }
        }
        if dng_version.is_none() {
            match read_dng_version_tag(data, e, &ifd) {
                Ok(Some(v)) => {
                    dng_version = Some(v);
                    proof { dng_off = o; }
                },
                Ok(None) => {},
                Err(err) => return Err(err),
            }
        }
        let mut links: Vec<u64> = Vec::new();
        match read_long_array_tag(data, e, &ifd, 330) {
            Ok(Some(subs)) => {
                let mut k: usize = 0;
                while k < subs.len()
                    invariant
                        0 <= k <= subs@.len(),
                        links@.len() == k,
                        forall|i: int| 0 <= i < k ==> links@[i] as int == subs@[i] as int,
                    decreases subs@.len() - k,
                {
                    links.push(subs[k] as u64);
                    k = k + 1;
                }
                assert(long_tag(b, e, ents, 330) == Some(subs@));
            },
            Ok(None) => {
                assert(long_tag(b, e, ents, 330) is None);
            },
            Err(err) => return Err(err),
        }
        let ghost sub_links = links@;
        match try_extract_raw_info(data, e, &ifd, false) {
            Ok(Some(info)) => {
                let best = match &chosen {
                    Some(c) => c.total_bytes,
                    None => 0,
                };
                if best < info.total_bytes {
                    chosen = Some(info);
                    proof { chosen_off = o; }
                }
            },
            Ok(None) => {},
            Err(err) => return Err(err),
        }
        if ifd.next_ifd != 0 {
            links.push(ifd.next_ifd as u64);
        }
        proof {
            assert forall|p: int| #[trigger] is_link(b, e, o, p) implies in_seq(links@, p) by {
                if ifd_next(e, b, o) != 0 && p == ifd_next(e, b, o) {
                    assert(links@[links@.len() - 1] as int == p);
                } else {
                    let sl = long_tag(b, e, ents, 330)->0;
                    let k = choose|k: int| 0 <= k < sl.len() && sl[k] == p;
                    assert(links@[k] == sub_links[k]);
                }
            }
            assert forall|k: int| 0 <= k < links@.len() implies is_link(b, e, o, #[trigger] links@[k] as int) by {
                if k < sub_links.len() {
                    assert(links@[k] == sub_links[k]);
                    let sl = long_tag(b, e, ents, 330)->0;
                    assert(sl[k] as int == links@[k] as int);
                }
            }
            lemma_frontier_visit(b, e, root, old_visited, old_pending, links@);
        }
        let mut m: usize = 0;
        let ghost base = pending@;
        while m < links.len()
            invariant
                0 <= m <= links@.len(),
                pending@ == base + links@.take(m as int),
            decreases links@.len() - m,
        {
            pending.push(links[m]);
            m = m + 1;
            assert(pending@ =~= base + links@.take(m as int));
        }
        assert(links@.take(m as int) =~= links@);
    }
    proof {
        assert(pending@ =~= Seq::<u64>::empty());
        lemma_frontier_done(b, e, root, visited@);
    }
    let mut raw = match chosen {
        Some(c) => c,
        None => return Err(DecodeError::CorruptData("No RAW IFD found")),
    };
    let is_sony = match &make_bytes {
        Some(mb) => is_sony_make(mb),
        None => false,
    };
    raw.make = make;
    raw.model = model;
    raw.dng_version = dng_version;
    raw.is_sony = is_sony;
    assert(raw_geometry_from(b, e, ifd_entries(e, b, chosen_off), raw));
    let variant = classify_variant(&raw);
    let d = TiffDetectResult { raw, variant };
    assert(detected(data@, d));
    Ok(d)
}

/// The header is valid, every directory reachable from the first one can be read, and
/// one of them describes a raw plane with a nonzero payload.
pub open spec fn raw_walk_succeeds(b: Seq<u8>) -> bool {
    &&& !crate::exif::header_is_bad(b, 0) && b.len() >= 8
    &&& forall|o: int| #[trigger] reachable(b, header_endian(b), header_root(b), o) ==> ifd_readable(b, header_endian(b), o)
    &&& exists|o: int| #[trigger] reachable(b, header_endian(b), header_root(b), o) && raw_candidate(b, header_endian(b), o)
}

/// What a successful detection yields: the raw plane of a reachable directory with the
/// largest payload among the reachable raw planes, its classification, and the make,
/// model and DNG version of reachable directories (`None` where none has one).
pub open spec fn detected(b: Seq<u8>, d: TiffDetectResult) -> bool {
    let e = header_endian(b);
    let root = header_root(b);
    &&& d.raw.wf()
    &&& d.raw.width > 0 && d.raw.height > 0
    &&& d.raw.strip_offsets@.len() > 0
    &&& d.raw.total_bytes > 0
    &&& exists|o: int| #[trigger] reachable(b, e, root, o) && ifd_fits(e, b, o)
        && raw_geometry_from(b, e, ifd_entries(e, b, o), d.raw)
    &&& forall|o: int| #[trigger] reachable(b, e, root, o) && raw_candidate(b, e, o) ==> ifd_total(b, e, o) <= d.raw.total_bytes
    &&& match d.raw.make {
        Some(s) => exists|o: int| #[trigger] reachable(b, e, root, o)
            && (ascii_tag_bytes(b, e, ifd_entries(e, b, o), 271) matches Ok(Some(mb))
            && s@ == utf8_lossy(mb) && d.raw.is_sony == sony_make(mb)),
        None => !d.raw.is_sony && forall|o: int| #[trigger] reachable(b, e, root, o) && ifd_fits(e, b, o)
            ==> ascii_tag_bytes(b, e, ifd_entries(e, b, o), 271) == Ok::<Option<Seq<u8>>, ()>(None),
    }
    &&& match d.raw.model {
        Some(s) => exists|o: int| #[trigger] reachable(b, e, root, o)
            && (ascii_tag_bytes(b, e, ifd_entries(e, b, o), 272) matches Ok(Some(v)) && s@ == utf8_lossy(v)),
        None => forall|o: int| #[trigger] reachable(b, e, root, o) && ifd_fits(e, b, o)
            ==> ascii_tag_bytes(b, e, ifd_entries(e, b, o), 272) == Ok::<Option<Seq<u8>>, ()>(None),
    }
    &&& match d.raw.dng_version {
        Some(_) => exists|o: int| #[trigger] reachable(b, e, root, o)
            && dng_tag(b, e, ifd_entries(e, b, o)) == Ok::<Option<u32>, ()>(d.raw.dng_version),
        None => forall|o: int| #[trigger] reachable(b, e, root, o) && ifd_fits(e, b, o)
            ==> dng_tag(b, e, ifd_entries(e, b, o)) == Ok::<Option<u32>, ()>(None),
    }
    &&& d.variant == classify_spec(d.raw.compression, d.raw.width, d.raw.height,
        d.raw.bits_per_sample, d.raw.total_bytes, d.raw.dng_version is Some, d.raw.is_sony)
}

} // verus!

//! Exif metadata: typed entry values, per-container extraction, and lookup by tag.
use vstd::prelude::*;
use vstd::utf8::encode_utf8;
use std::collections::HashMap;
use crate::endian::{
    Endian, u16_at, u32_at, i32_at, le_bytes, stored_bytes, u16_from, u32_from, to_i32, u32_le_bytes,
    u32_stored_bytes, read_u16_e, read_u32_e, read_be_u16,
};
use crate::ifd::{IfdEntry, Ifd, read_ifd, ifd_fits, ifd_entries};
use crate::tags::ExifField;

verus! {

/// A decoded entry value, one variant per family of TIFF type codes.
#[derive(Clone, Debug)]
pub enum ExifValue {
    /// BYTE (1) or UNDEFINED (7)
    Byte(Vec<u8>),
    /// ASCII (2), trailing NUL removed
    Ascii(String),
    /// SHORT (3) or SSHORT (8)
    Short(Vec<u16>),
    /// LONG (4)
    Long(Vec<u32>),
    /// RATIONAL (5)
    Rational(Vec<(u32, u32)>),
    /// SLONG (9)
    SLong(Vec<i32>),
    /// SRATIONAL (10)
    SRational(Vec<(i32, i32)>),
}

/// Mathematical model of an [`ExifValue`].
pub enum ExifValueView {
    Byte(Seq<u8>),
    Ascii(Seq<char>),
    Short(Seq<u16>),
    Long(Seq<u32>),
    Rational(Seq<(u32, u32)>),
    SLong(Seq<i32>),
    SRational(Seq<(i32, i32)>),
}

impl View for ExifValue {
    type V = ExifValueView;

    open spec fn view(&self) -> ExifValueView {
        match self {
            ExifValue::Byte(v) => ExifValueView::Byte(v@),
            ExifValue::Ascii(s) => ExifValueView::Ascii(s@),
            ExifValue::Short(v) => ExifValueView::Short(v@),
            ExifValue::Long(v) => ExifValueView::Long(v@),
            ExifValue::Rational(v) => ExifValueView::Rational(v@),
            ExifValue::SLong(v) => ExifValueView::SLong(v@),
            ExifValue::SRational(v) => ExifValueView::SRational(v@),
        }
    }
}

/// Errors of Exif extraction.
#[derive(Clone, Copy, Debug)]
pub enum ExifError {
    /// The data ended before a value that had to be read.
    UnexpectedEof,
    /// No Exif segment where one was looked for.
    NotExif,
    /// The TIFF header is not `II`/`MM` followed by 42.
    BadTiff,
    Unsupported(&'static str),
    Malformed(&'static str),
}

/// The text that `String::from_utf8_lossy` makes of `b`.
pub uninterp spec fn utf8_lossy(b: Seq<u8>) -> Seq<char>;

/// Relies on `String::from_utf8_lossy`: decodes UTF-8, replacing invalid sequences.
#[verifier::external_body]
pub(crate) fn lossy_string(b: &[u8]) -> (r: String)
    ensures
        r@ == utf8_lossy(b@),
{
    String::from_utf8_lossy(b).into_owned()
}

/// Size in bytes of one element of TIFF type `typ`; `None` for unknown codes.
pub open spec fn type_size_spec(typ: u16) -> Option<nat> {
    if typ == 1 || typ == 2 || typ == 7 {
        Some(1)
    } else if typ == 3 || typ == 8 {
        Some(2)
    } else if typ == 4 || typ == 9 {
        Some(4)
    } else if typ == 5 || typ == 10 {
        Some(8)
    } else {
        None
    }
}

/// `b` without one trailing NUL byte.
pub open spec fn trim_nul(b: Seq<u8>) -> Seq<u8> {
    if b.len() > 0 && b.last() == 0 {
        b.drop_last()
    } else {
        b
    }
}

/// The value that `count` elements of type `typ`, stored in `b` in byte order `e`, decode to.
/// `None` for an unknown type, or where `b` holds fewer than `count` elements.
pub open spec fn decode_value(b: Seq<u8>, e: Endian, typ: u16, count: u32) -> Option<ExifValueView> {
    if typ == 1 || typ == 7 {
        Some(ExifValueView::Byte(b))
    } else if typ == 2 {
        Some(ExifValueView::Ascii(utf8_lossy(trim_nul(b))))
    } else if type_size_spec(typ) is None || b.len() < count * type_size_spec(typ)->0 {
        None
    } else if typ == 3 || typ == 8 {
        Some(ExifValueView::Short(Seq::new(count as nat, |i: int| u16_at(e, b, 2 * i) as u16)))
    } else if typ == 4 {
        Some(ExifValueView::Long(Seq::new(count as nat, |i: int| u32_at(e, b, 4 * i) as u32)))
    } else if typ == 5 {
        Some(ExifValueView::Rational(Seq::new(count as nat, |i: int| (u32_at(e, b, 8 * i) as u32, u32_at(e, b, 8 * i + 4) as u32))))
    } else if typ == 9 {
        Some(ExifValueView::SLong(Seq::new(count as nat, |i: int| i32_at(e, b, 4 * i) as i32)))
    } else {
        Some(ExifValueView::SRational(Seq::new(count as nat, |i: int| (i32_at(e, b, 8 * i) as i32, i32_at(e, b, 8 * i + 4) as i32))))
    }
}

/// The bytes that hold the value of `ent`: the first `count * size` bytes of the inline
/// field, as stored, where they fit in four bytes, else that many bytes at `base + value_or_offset`.
/// `None` for an unknown type or a range past the end of `b`.
pub open spec fn entry_bytes(b: Seq<u8>, base: int, e: Endian, ent: IfdEntry) -> Option<Seq<u8>> {
    match type_size_spec(ent.typ) {
        None => None,
        Some(ts) => {
            let total = ts * ent.count;
            if total <= 4 {
                Some(stored_bytes(e, ent.value_or_offset).take(total as int))
            } else if base + ent.value_or_offset + total <= b.len() {
                Some(b.subrange(base + ent.value_or_offset, base + ent.value_or_offset + total))
            } else {
                None
            }
        },
    }
}

/// The value of `ent` in a TIFF stream that starts at `base` in `b`.
pub open spec fn entry_value(b: Seq<u8>, base: int, e: Endian, ent: IfdEntry) -> Option<ExifValueView> {
    match entry_bytes(b, base, e, ent) {
        None => None,
        Some(bytes) => decode_value(bytes, e, ent.typ, ent.count),
    }
}

/// Element size of TIFF type `typ`; `None` for unknown codes.
pub fn type_size(typ: u16) -> (r: Option<usize>)
    ensures
        r matches Some(n) ==> type_size_spec(typ) == Some(n as nat) && 1 <= n <= 8,
        r is None <==> type_size_spec(typ) is None,
{
    match typ {
        1 => Some(1),
        2 => Some(1),
        3 => Some(2),
        4 => Some(4),
        5 => Some(8),
        7 => Some(1),
        8 => Some(2),
        9 => Some(4),
        10 => Some(8),
        _ => None,
    }
}

/// Reads the bytes that hold the value of `ent` (see [`entry_bytes`]).
pub fn read_value_bytes(data: &[u8], tiff_base: u64, e: Endian, ent: &IfdEntry) -> (r: Result<Vec<u8>, ExifError>)
    ensures
        r matches Ok(v) ==> entry_bytes(data@, tiff_base as int, e, *ent) == Some(v@),
        r is Err <==> entry_bytes(data@, tiff_base as int, e, *ent) is None,
        type_size_spec(ent.typ) is None ==> r == Err::<Vec<u8>, ExifError>(ExifError::Unsupported("unknown value type")),
{
    let ts = match type_size(ent.typ) {
        Some(t) => t as u64,
        None => return Err(ExifError::Unsupported("unknown value type")),
    };
    let count = ent.count as u64;
    assert(ts * count <= 8 * 0xffff_ffff) by (nonlinear_arith)
        requires
            ts <= 8,
            count <= 0xffff_ffff,
    ;
    let total: u64 = ts * count;
    if total <= 4 {
        let raw = u32_stored_bytes(e, ent.value_or_offset);
        let mut out: Vec<u8> = Vec::new();
        let mut i: usize = 0;
        while i < total as usize
            invariant
                total <= 4,
                raw@ == stored_bytes(e, ent.value_or_offset),
                0 <= i <= total,
                out@ == raw@.take(i as int),
            decreases total - i,
        {
            out.push(raw[i]);
            i = i + 1;
            assert(out@ =~= raw@.take(i as int));
        }
        Ok(out)
    } else {
        let len = data.len() as u64;
        let voff = ent.value_or_offset as u64;
        if tiff_base > len || len - tiff_base < voff || len - tiff_base - voff < total {
            return Err(ExifError::UnexpectedEof);
        }
        let start = (tiff_base + voff) as usize;
        let end = start + total as usize;
        let mut out: Vec<u8> = Vec::new();
        let mut i: usize = start;
        while i < end
            invariant
                start <= i <= end <= data@.len(),
                out@ == data@.subrange(start as int, i as int),
            decreases end - i,
        {
            out.push(data[i]);
            i = i + 1;
            assert(out@ =~= data@.subrange(start as int, i as int));
        }
        Ok(out)
    }
}

fn decode_shorts(data: &Vec<u8>, e: Endian, count: u32) -> (r: Vec<u16>)
    requires
        data@.len() >= 2 * count,
    ensures
        r@ == Seq::new(count as nat, |i: int| u16_at(e, data@, 2 * i) as u16),
{
    let mut v: Vec<u16> = Vec::new();
    let dlen: usize = data.len();
    let mut i: usize = 0;
    while i < count as usize
        invariant
            data@.len() >= 2 * count,
            data@.len() == dlen,
            0 <= i <= count,
            v@ == Seq::new(i as nat, |j: int| u16_at(e, data@, 2 * j) as u16),
        decreases count - i,
    {
        let off = 2 * i;
        let n = u16_from(e, data[off], data[off + 1]);
        v.push(n);
        i = i + 1;
        assert(v@ =~= Seq::new(i as nat, |j: int| u16_at(e, data@, 2 * j) as u16));
    }
    v
}

fn decode_u32_at(data: &Vec<u8>, e: Endian, off: usize) -> (r: u32)
    requires
        off + 4 <= data.len(),
    ensures
        r as int == u32_at(e, data@, off as int),
{
    u32_from(e, data[off], data[off + 1], data[off + 2], data[off + 3])
}

fn decode_longs(data: &Vec<u8>, e: Endian, count: u32) -> (r: Vec<u32>)
    requires
        data@.len() >= 4 * count,
    ensures
        r@ == Seq::new(count as nat, |i: int| u32_at(e, data@, 4 * i) as u32),
{
    let mut v: Vec<u32> = Vec::new();
    let dlen: usize = data.len();
    let mut i: usize = 0;
    while i < count as usize
        invariant
            data@.len() >= 4 * count,
            data@.len() == dlen,
            0 <= i <= count,
            v@ == Seq::new(i as nat, |j: int| u32_at(e, data@, 4 * j) as u32),
        decreases count - i,
    {
        v.push(decode_u32_at(data, e, 4 * i));
        i = i + 1;
        assert(v@ =~= Seq::new(i as nat, |j: int| u32_at(e, data@, 4 * j) as u32));
    }
    v
}

fn decode_slongs(data: &Vec<u8>, e: Endian, count: u32) -> (r: Vec<i32>)
    requires
        data@.len() >= 4 * count,
    ensures
        r@ == Seq::new(count as nat, |i: int| i32_at(e, data@, 4 * i) as i32),
{
    let mut v: Vec<i32> = Vec::new();
    let dlen: usize = data.len();
    let mut i: usize = 0;
    while i < count as usize
        invariant
            data@.len() >= 4 * count,
            data@.len() == dlen,
            0 <= i <= count,
            v@ == Seq::new(i as nat, |j: int| i32_at(e, data@, 4 * j) as i32),
        decreases count - i,
    {
        v.push(to_i32(decode_u32_at(data, e, 4 * i)));
        i = i + 1;
        assert(v@ =~= Seq::new(i as nat, |j: int| i32_at(e, data@, 4 * j) as i32));
    }
    v
}

fn decode_rationals(data: &Vec<u8>, e: Endian, count: u32) -> (r: Vec<(u32, u32)>)
    requires
        data@.len() >= 8 * count,
    ensures
        r@ == Seq::new(count as nat, |i: int| (u32_at(e, data@, 8 * i) as u32, u32_at(e, data@, 8 * i + 4) as u32)),
{
    let mut v: Vec<(u32, u32)> = Vec::new();
    let dlen: usize = data.len();
    let mut i: usize = 0;
    while i < count as usize
        invariant
            data@.len() >= 8 * count,
            data@.len() == dlen,
            0 <= i <= count,
            v@ == Seq::new(i as nat, |j: int| (u32_at(e, data@, 8 * j) as u32, u32_at(e, data@, 8 * j + 4) as u32)),
        decreases count - i,
    {
        let num = decode_u32_at(data, e, 8 * i);
        let den = decode_u32_at(data, e, 8 * i + 4);
        v.push((num, den));
        i = i + 1;
        assert(v@ =~= Seq::new(i as nat, |j: int| (u32_at(e, data@, 8 * j) as u32, u32_at(e, data@, 8 * j + 4) as u32)));
    }
    v
}

fn decode_srationals(data: &Vec<u8>, e: Endian, count: u32) -> (r: Vec<(i32, i32)>)
    requires
        data@.len() >= 8 * count,
    ensures
        r@ == Seq::new(count as nat, |i: int| (i32_at(e, data@, 8 * i) as i32, i32_at(e, data@, 8 * i + 4) as i32)),
{
    let mut v: Vec<(i32, i32)> = Vec::new();
    let dlen: usize = data.len();
    let mut i: usize = 0;
    while i < count as usize
        invariant
            data@.len() >= 8 * count,
            data@.len() == dlen,
            0 <= i <= count,
            v@ == Seq::new(i as nat, |j: int| (i32_at(e, data@, 8 * j) as i32, i32_at(e, data@, 8 * j + 4) as i32)),
        decreases count - i,
    {
        let num = to_i32(decode_u32_at(data, e, 8 * i));
        let den = to_i32(decode_u32_at(data, e, 8 * i + 4));
        v.push((num, den));
        i = i + 1;
        assert(v@ =~= Seq::new(i as nat, |j: int| (i32_at(e, data@, 8 * j) as i32, i32_at(e, data@, 8 * j + 4) as i32)));
    }
    v
}

/// Decodes the value bytes of `ent` into its typed value (see [`decode_value`]).
/// Fails with `Unsupported` for an unknown type code and with `Malformed` where
/// `data` holds fewer than `count` elements.
pub fn read_entry_value(data: Vec<u8>, e: Endian, ent: &IfdEntry) -> (r: Result<ExifValue, ExifError>)
    ensures
        r matches Ok(v) ==> decode_value(data@, e, ent.typ, ent.count) == Some(v@),
        r is Err <==> decode_value(data@, e, ent.typ, ent.count) is None,
        type_size_spec(ent.typ) is None ==> r is Err && r->Err_0 is Unsupported,
{
    let typ = ent.typ;
    let count = ent.count;
    if typ == 1 || typ == 7 {
        return Ok(ExifValue::Byte(data));
    }
    if typ == 2 {
        let mut s = data;
        let n = s.len();
        if n > 0 && s[n - 1] == 0 {
            s.pop();
        }
        assert(s@ =~= trim_nul(data@));
        return Ok(ExifValue::Ascii(lossy_string(s.as_slice())));
    }
    let n = data.len() as u64;
    let c = count as u64;
    if typ == 3 || typ == 8 {
        assert(type_size_spec(typ) == Some(2nat));
        if n < 2 * c {
            return Err(ExifError::Malformed("value shorter than its count"));
        }
        let v = decode_shorts(&data, e, count);
        let r = ExifValue::Short(v);
        assert(decode_value(data@, e, typ, count) == Some(r@));
        Ok(r)
    } else if typ == 4 {
        assert(type_size_spec(typ) == Some(4nat));
        if n < 4 * c {
            return Err(ExifError::Malformed("value shorter than its count"));
        }
        let v = decode_longs(&data, e, count);
        let r = ExifValue::Long(v);
        assert(decode_value(data@, e, typ, count) == Some(r@));
        Ok(r)
    } else if typ == 5 {
        assert(type_size_spec(typ) == Some(8nat));
        if n < 8 * c {
            return Err(ExifError::Malformed("value shorter than its count"));
        }
        let v = decode_rationals(&data, e, count);
        let r = ExifValue::Rational(v);
        assert(decode_value(data@, e, typ, count) == Some(r@));
        Ok(r)
    } else if typ == 9 {
        assert(type_size_spec(typ) == Some(4nat));
        if n < 4 * c {
            return Err(ExifError::Malformed("value shorter than its count"));
        }
        let v = decode_slongs(&data, e, count);
        let r = ExifValue::SLong(v);
        assert(decode_value(data@, e, typ, count) == Some(r@));
        Ok(r)
    } else if typ == 10 {
        assert(type_size_spec(typ) == Some(8nat));
        if n < 8 * c {
            return Err(ExifError::Malformed("value shorter than its count"));
        }
        let v = decode_srationals(&data, e, count);
        let r = ExifValue::SRational(v);
        assert(decode_value(data@, e, typ, count) == Some(r@));
        Ok(r)
    } else {
        Err(ExifError::Unsupported("unknown value type"))
    }
}

/// Tag of the Exif sub-directory pointer.
pub const EXIF_IFD_POINTER: u16 = 0x8769;
/// Tag of the SubIFDs pointer.
pub const SUB_IFD_POINTER: u16 = 0x014a;

/// The first entry of `s` at or after index `i` whose tag is `tag`.
pub open spec fn find_from(s: Seq<IfdEntry>, tag: u16, i: int) -> Option<IfdEntry>
    decreases s.len() - i,
{
    if i < 0 || i >= s.len() {
        None
    } else if s[i].tag == tag {
        Some(s[i])
    } else {
        find_from(s, tag, i + 1)
    }
}

/// The first entry of `s` with tag `tag`.
pub open spec fn find_tag(s: Seq<IfdEntry>, tag: u16) -> Option<IfdEntry> {
    find_from(s, tag, 0)
}

/// The first entry of `entries` with tag `tag`.
pub fn find_entry(entries: &Vec<IfdEntry>, tag: u16) -> (r: Option<IfdEntry>)
    ensures
        r == find_tag(entries@, tag),
{
    let mut i: usize = 0;
    while i < entries.len()
        invariant
            0 <= i <= entries@.len(),
            find_tag(entries@, tag) == find_from(entries@, tag, i as int),
        decreases entries@.len() - i,
    {
        if entries[i].tag == tag {
            return Some(entries[i]);
        }
        i = i + 1;
    }
    None
}

/// The absolute directory offset that pointer tag `tag` of a directory with entries `ents`
/// names, in a TIFF stream at `base`: a one-element LONG or SHORT holds it inline, a longer
/// LONG array points at a list whose first element is taken.
pub open spec fn pointer_of(b: Seq<u8>, base: int, e: Endian, ents: Seq<IfdEntry>, tag: u16) -> Option<int> {
    match find_tag(ents, tag) {
        None => None,
        Some(ent) => if ent.typ == 4 && ent.count == 1 {
            Some(base + ent.value_or_offset)
        } else if ent.typ == 4 && ent.count > 1 {
            if base + ent.value_or_offset + 4 <= b.len() {
                Some(base + u32_at(e, b, base + ent.value_or_offset))
            } else {
                None
            }
        } else if ent.typ == 3 && ent.count == 1 {
            Some(base + u16_at(e, stored_bytes(e, ent.value_or_offset), 0))
        } else {
            None
        },
    }
}

/// Resolves pointer tag `tag` of `ifd` (see [`pointer_of`]).
pub fn read_u32_tag_if_present(data: &[u8], e: Endian, tiff_base: u64, ifd: &Ifd, tag: u16) -> (r: Option<u64>)
    requires
        tiff_base <= data@.len() <= isize::MAX,
    ensures
        r matches Some(o) ==> pointer_of(data@, tiff_base as int, e, ifd.entries@, tag) == Some(o as int),
        r is None <==> pointer_of(data@, tiff_base as int, e, ifd.entries@, tag) is None,
{
    let ent = match find_entry(&ifd.entries, tag) {
        Some(ent) => ent,
        None => return None,
    };
    if ent.typ == 4 && ent.count == 1 {
        Some(tiff_base + ent.value_or_offset as u64)
    } else if ent.typ == 4 && ent.count > 1 {
        match read_u32_e(data, tiff_base + ent.value_or_offset as u64, e) {
            Some(off) => Some(tiff_base + off as u64),
            None => None,
        }
    } else if ent.typ == 3 && ent.count == 1 {
        let raw = u32_stored_bytes(e, ent.value_or_offset);
        let v = u16_from(e, raw[0], raw[1]);
        assert(seq![raw@[0], raw@[1]] =~= raw@.take(2));
        Some(tiff_base + v as u64)
    } else {
        None
    }
}

/// The TIFF header at `base`: its byte order and the offset of the first directory,
/// relative to `base`. `None` where fewer than eight bytes remain.
pub open spec fn header_at(b: Seq<u8>, base: int) -> Option<(Option<Endian>, int)> {
    if base + 8 > b.len() {
        None
    } else {
        let e = if b[base] == 0x49 && b[base + 1] == 0x49 {
            Some(Endian::Little)
        } else if b[base] == 0x4d && b[base + 1] == 0x4d {
            Some(Endian::Big)
        } else {
            None
        };
        match e {
            Some(e) if u16_at(e, b, base + 2) == 42 => Some((Some(e), u32_at(e, b, base + 4))),
            _ => Some((None, 0)),
        }
    }
}

/// Whether eight bytes are present at `base` but do not form a TIFF header.
pub open spec fn header_is_bad(b: Seq<u8>, base: int) -> bool {
    header_at(b, base) matches Some((None, _))
}

/// The directory at `off`, or an empty one where `off` is zero.
pub open spec fn optional_ifd(b: Seq<u8>, e: Endian, off: Option<int>) -> Option<Seq<IfdEntry>> {
    match off {
        None => Some(Seq::empty()),
        Some(o) => if o == 0 {
            Some(Seq::empty())
        } else if o >= 0 && ifd_fits(e, b, o) {
            Some(ifd_entries(e, b, o))
        } else {
            None
        },
    }
}

/// The entries that Exif extraction visits in a well-formed TIFF stream at `base`, in order:
/// the first directory, the SubIFD, the Exif directory, and the SubIFD again.
/// `None` where one of those directories does not fit in `b`.
pub open spec fn traversed_entries(b: Seq<u8>, base: int, e: Endian, rel: int) -> Option<Seq<IfdEntry>> {
    let off0 = base + rel;
    if !ifd_fits(e, b, off0) {
        None
    } else {
        let ifd0 = ifd_entries(e, b, off0);
        let sub = optional_ifd(b, e, pointer_of(b, base, e, ifd0, SUB_IFD_POINTER));
        let exif = optional_ifd(b, e, pointer_of(b, base, e, ifd0, EXIF_IFD_POINTER));
        if sub is None || exif is None {
            None
        } else {
            Some(ifd0 + sub->0 + exif->0 + sub->0)
        }
    }
}

/// The mapping built from `m` by inserting, in order, the value of every entry of `ents`
/// that decodes; later entries overwrite earlier ones with the same tag.
pub open spec fn insert_entries(m: Map<u16, ExifValueView>, b: Seq<u8>, base: int, e: Endian, ents: Seq<IfdEntry>) -> Map<u16, ExifValueView>
    decreases ents.len(),
{
    if ents.len() == 0 {
        m
    } else {
        let prev = insert_entries(m, b, base, e, ents.drop_last());
        match entry_value(b, base, e, ents.last()) {
            Some(v) => prev.insert(ents.last().tag, v),
            None => prev,
        }
    }
}

/// The mapping that Exif extraction builds from the TIFF stream at `base` in `b`.
pub open spec fn tiff_values(b: Seq<u8>, base: int) -> Option<(Endian, Map<u16, ExifValueView>)> {
    match header_at(b, base) {
        Some((Some(e), rel)) => match traversed_entries(b, base, e, rel) {
            Some(ents) => Some((e, insert_entries(Map::empty(), b, base, e, ents))),
            None => None,
        },
        _ => None,
    }
}

/// The model of a tag-to-value table.
pub open spec fn values_view(m: Map<u16, ExifValue>) -> Map<u16, ExifValueView> {
    Map::new(|k: u16| m.contains_key(k), |k: u16| m[k]@)
}

/// Appends the entries of the directory at `off` to `all`; zero means no directory.
fn push_optional_ifd(data: &[u8], e: Endian, off: Option<u64>, all: &mut Vec<IfdEntry>) -> (ok: bool)
    ensures
        ok <==> optional_ifd(data@, e, match off { Some(o) => Some(o as int), None => None }) is Some,
        ok ==> final(all)@ == old(all)@ + optional_ifd(data@, e, match off { Some(o) => Some(o as int), None => None })->0,
{
    match off {
        None => {
            assert(old(all)@ + Seq::<IfdEntry>::empty() =~= old(all)@);
            true
        },
        Some(o) => {
            if o == 0 {
                assert(old(all)@ + Seq::<IfdEntry>::empty() =~= old(all)@);
                return true;
            }
            match read_ifd(data, e, o) {
                None => false,
                Some(ifd) => {
                    let mut i: usize = 0;
                    while i < ifd.entries.len()
                        invariant
                            0 <= i <= ifd.entries@.len(),
                            all@ == old(all)@ + ifd.entries@.take(i as int),
                        decreases ifd.entries@.len() - i,
                    {
                        all.push(ifd.entries[i]);
                        i = i + 1;
                        assert(all@ =~= old(all)@ + ifd.entries@.take(i as int));
                    }
                    assert(ifd.entries@.take(i as int) =~= ifd.entries@);
                    true
                },
            }
        },
    }
}

/// Inserts the value of every entry of `all` that decodes, in order.
fn collect_values(data: &[u8], tiff_base: u64, e: Endian, all: &Vec<IfdEntry>) -> (values: HashMap<u16, ExifValue>)
    requires
        tiff_base <= data@.len(),
    ensures
        values_view(values@) == insert_entries(Map::empty(), data@, tiff_base as int, e, all@),
{
    broadcast use vstd::std_specs::hash::group_hash_axioms;
    let ghost ents = all@;
    let mut values: HashMap<u16, ExifValue> = HashMap::new();
    let mut i: usize = 0;
    while i < all.len()
        invariant
            tiff_base <= data@.len(),
            all@ == ents,
            0 <= i <= all@.len(),
            values_view(values@) == insert_entries(Map::empty(), data@, tiff_base as int, e, ents.take(i as int)),
        decreases all@.len() - i,
    {
        let entry = all[i];
        assert(ents.take(i + 1).drop_last() =~= ents.take(i as int));
        match read_value_bytes(data, tiff_base, e, &entry) {
            Ok(bytes) => match read_entry_value(bytes, e, &entry) {
                Ok(val) => {
                    let ghost old_values = values@;
                    values.insert(entry.tag, val);
                    assert(values_view(values@) =~= values_view(old_values).insert(entry.tag, val@));
                },
                Err(_) => {},
            },
            Err(_) => {},
        }
        i = i + 1;
    }
    assert(ents.take(i as int) =~= ents);
    values
}

/// Parses the TIFF stream at `tiff_base` and collects the value of every visited entry.
/// Fails with `BadTiff` for a wrong byte-order mark or magic number, and with
/// `UnexpectedEof` where the header or a visited directory runs past the data.
pub fn from_tiff(data: &[u8], tiff_base: u64) -> (r: Result<(u64, Endian, HashMap<u16, ExifValue>), ExifError>)
    requires
        data@.len() <= isize::MAX,
    ensures
        r matches Ok((base, e, m)) ==> base == tiff_base && tiff_values(data@, tiff_base as int) == Some((e, values_view(m@))),
        r is Ok <==> tiff_values(data@, tiff_base as int) is Some,
        header_is_bad(data@, tiff_base as int) ==> r matches Err(ExifError::BadTiff),
{
    let len = data.len() as u64;
    if tiff_base > len || len - tiff_base < 8 {
        return Err(ExifError::UnexpectedEof);
    }
    let p = tiff_base as usize;
    let e = if data[p] == 0x49 && data[p + 1] == 0x49 {
        Endian::Little
    } else if data[p] == 0x4d && data[p + 1] == 0x4d {
        Endian::Big
    } else {
        return Err(ExifError::BadTiff);
    };
    let magic = match read_u16_e(data, tiff_base + 2, e) {
        Some(m) => m,
        None => return Err(ExifError::UnexpectedEof),
    };
    if magic != 42 {
        return Err(ExifError::BadTiff);
    }
    let rel = match read_u32_e(data, tiff_base + 4, e) {
        Some(v) => v,
        None => return Err(ExifError::UnexpectedEof),
    };
    let ifd0 = match read_ifd(data, e, tiff_base + rel as u64) {
        Some(ifd) => ifd,
        None => return Err(ExifError::UnexpectedEof),
    };
    let exif_off = read_u32_tag_if_present(data, e, tiff_base, &ifd0, EXIF_IFD_POINTER);
    let sub_off = read_u32_tag_if_present(data, e, tiff_base, &ifd0, SUB_IFD_POINTER);
    let mut all: Vec<IfdEntry> = ifd0.entries.clone();
    assert(all@ == ifd0.entries@);
    if !push_optional_ifd(data, e, sub_off, &mut all) {
        return Err(ExifError::UnexpectedEof);
    }
    if !push_optional_ifd(data, e, exif_off, &mut all) {
        return Err(ExifError::UnexpectedEof);
    }
    // the SubIFD was read once already, so reading it again succeeds
    let ok = push_optional_ifd(data, e, sub_off, &mut all);
    assert(ok);
    let ghost ents = all@;
    assert(traversed_entries(data@, tiff_base as int, e, rel as int) == Some(ents));
    let values = collect_values(data, tiff_base, e, &all);
    Ok((tiff_base, e, values))
}

/// The six bytes `Exif\0\0` that open an Exif APP1 segment.
pub open spec fn exif_magic() -> Seq<u8> {
    seq![0x45u8, 0x78u8, 0x69u8, 0x66u8, 0u8, 0u8]
}

/// The first index at or after `p` that holds `0xFF`.
pub open spec fn first_ff(b: Seq<u8>, p: int) -> Option<int>
    decreases b.len() - p,
{
    if p < 0 || p >= b.len() {
        None
    } else if b[p] == 0xff {
        Some(p)
    } else {
        first_ff(b, p + 1)
    }
}

/// The first index at or after `p` that does not hold `0xFF`.
pub open spec fn first_non_ff(b: Seq<u8>, p: int) -> Option<int>
    decreases b.len() - p,
{
    if p < 0 || p >= b.len() {
        None
    } else if b[p] != 0xff {
        Some(p)
    } else {
        first_non_ff(b, p + 1)
    }
}

/// Where the TIFF stream of the Exif APP1 segment begins, scanning markers from `pos`:
/// fill bytes are skipped, EOI and SOS end the scan without Exif, and every other
/// segment is skipped by its declared length.
pub open spec fn jpeg_exif_base(b: Seq<u8>, pos: int) -> Result<int, ExifError>
    decreases b.len() - pos,
{
    if pos < 0 {
        Err(ExifError::NotExif)
    } else {
        match first_ff(b, pos) {
            None => Err(ExifError::NotExif),
            Some(q) => match first_non_ff(b, q + 1) {
                None => Err(ExifError::UnexpectedEof),
                Some(r) => {
                    let m = b[r];
                    if m == 0xd9 || m == 0xda {
                        Err(ExifError::NotExif)
                    } else if r + 3 > b.len() {
                        Err(ExifError::UnexpectedEof)
                    } else {
                        let seg = u16_at(Endian::Big, b, r + 1);
                        if m == 0xe1 && r + 9 > b.len() {
                            Err(ExifError::UnexpectedEof)
                        } else if m == 0xe1 && b.subrange(r + 3, r + 9) == exif_magic() {
                            Ok(r + 9)
                        } else {
                            let next = if m == 0xe1 {
                                if seg - 8 > 0 { r + 9 + seg - 8 } else { r + 9 }
                            } else {
                                if seg - 2 > 0 { r + 3 + seg - 2 } else { r + 3 }
                            };
                            if next >= b.len() || next <= pos {
                                Err(ExifError::NotExif)
                            } else {
                                jpeg_exif_base(b, next)
                            }
                        }
                    }
                },
            },
        }
    }
}

fn find_ff(data: &[u8], pos: usize) -> (r: Option<usize>)
    ensures
        r matches Some(q) ==> first_ff(data@, pos as int) == Some(q as int) && pos <= q < data@.len(),
        r is None <==> first_ff(data@, pos as int) is None,
{
    let mut p = pos;
    while p < data.len()
        invariant
            pos <= p,
            first_ff(data@, pos as int) == first_ff(data@, p as int),
        decreases data@.len() - p,
    {
        if data[p] == 0xff {
            return Some(p);
        }
        p = p + 1;
    }
    None
}

fn find_non_ff(data: &[u8], pos: usize) -> (r: Option<usize>)
    ensures
        r matches Some(q) ==> first_non_ff(data@, pos as int) == Some(q as int) && pos <= q < data@.len(),
        r is None <==> first_non_ff(data@, pos as int) is None,
{
    let mut p = pos;
    while p < data.len()
        invariant
            pos <= p,
            first_non_ff(data@, pos as int) == first_non_ff(data@, p as int),
        decreases data@.len() - p,
    {
        if data[p] != 0xff {
            return Some(p);
        }
        p = p + 1;
    }
    None
}

/// Locates the Exif APP1 segment of a JPEG and parses its TIFF stream.
/// Fails with `NotExif` where the data does not start with `FF D8` or the scan finds no
/// Exif segment (see [`jpeg_exif_base`]).
pub fn from_jpeg(data: &[u8]) -> (r: Result<(u64, Endian, HashMap<u16, ExifValue>), ExifError>)
    requires
        data@.len() <= isize::MAX,
    ensures
        data@.len() < 2 ==> r matches Err(ExifError::UnexpectedEof),
        data@.len() >= 2 && !(data@[0] == 0xff && data@[1] == 0xd8) ==> r matches Err(ExifError::NotExif),
        r matches Ok((base, e, m)) ==> {
            &&& data@[0] == 0xff && data@[1] == 0xd8
            &&& jpeg_exif_base(data@, 2) == Ok::<int, ExifError>(base as int)
            &&& tiff_values(data@, base as int) == Some((e, values_view(m@)))
        },
        data@.len() >= 2 && data@[0] == 0xff && data@[1] == 0xd8 && jpeg_exif_base(data@, 2) is Err
            ==> r == Err::<(u64, Endian, HashMap<u16, ExifValue>), ExifError>(jpeg_exif_base(data@, 2)->Err_0),
        data@.len() >= 2 && data@[0] == 0xff && data@[1] == 0xd8 ==> (r is Ok <==> (jpeg_exif_base(data@, 2) is Ok
            && tiff_values(data@, jpeg_exif_base(data@, 2)->Ok_0) is Some)),
{
    if data.len() < 2 {
        return Err(ExifError::UnexpectedEof);
    }
    if !(data[0] == 0xff && data[1] == 0xd8) {
        return Err(ExifError::NotExif);
    }
    let mut pos: usize = 2;
    loop
        invariant
            data@.len() >= 2 && data@[0] == 0xff && data@[1] == 0xd8,
            data@.len() <= isize::MAX,
            2 <= pos,
            jpeg_exif_base(data@, 2) == jpeg_exif_base(data@, pos as int),
        decreases data@.len() - pos,
    {
        let q = match find_ff(data, pos) {
            Some(q) => q,
            None => return Err(ExifError::NotExif),
        };
        let r = match find_non_ff(data, q + 1) {
            Some(r) => r,
            None => return Err(ExifError::UnexpectedEof),
        };
        let m = data[r];
        if m == 0xd9 || m == 0xda {
            return Err(ExifError::NotExif);
        }
        let seg = match read_be_u16(data, (r + 1) as u64) {
            Some(v) => v as usize,
            None => return Err(ExifError::UnexpectedEof),
        };
        let next: usize;
        if m == 0xe1 {
            if data.len() - r < 9 {
                return Err(ExifError::UnexpectedEof);
            }
            if data[r + 3] == 0x45 && data[r + 4] == 0x78 && data[r + 5] == 0x69 && data[r + 6] == 0x66
                && data[r + 7] == 0 && data[r + 8] == 0 {
                assert(data@.subrange(r + 3, r + 9) =~= exif_magic());
                return from_tiff(data, (r + 9) as u64);
            }
            assert(data@.subrange(r + 3, r + 9) != exif_magic()) by {
                if data@.subrange(r + 3, r + 9) == exif_magic() {
                    assert(data@.subrange(r + 3, r + 9)[0] == data@[r + 3]);
                    assert(data@.subrange(r + 3, r + 9)[1] == data@[r + 4]);
                    assert(data@.subrange(r + 3, r + 9)[2] == data@[r + 5]);
                    assert(data@.subrange(r + 3, r + 9)[3] == data@[r + 6]);
                    assert(data@.subrange(r + 3, r + 9)[4] == data@[r + 7]);
                    assert(data@.subrange(r + 3, r + 9)[5] == data@[r + 8]);
                }
            }
            next = if seg > 8 { r + 9 + (seg - 8) } else { r + 9 };
        } else {
            next = if seg > 2 { r + 3 + (seg - 2) } else { r + 3 };
        }
        if next >= data.len() || next <= pos {
            return Err(ExifError::NotExif);
        }
        pos = next;
    }
}

/// The 16 bytes that open a PNG file: the signature and the IHDR chunk header.
pub open spec fn png_signature() -> Seq<u8> {
    seq![0x89u8, 0x50u8, 0x4eu8, 0x47u8, 0x0du8, 0x0au8, 0x1au8, 0x0au8,
         0x00u8, 0x00u8, 0x00u8, 0x0du8, 0x49u8, 0x48u8, 0x44u8, 0x52u8]
}

/// Reads width and height from the IHDR chunk of a PNG into a mapping with
/// `ImageWidth` (0x0100) and `ImageHeight` (0x0101) as one-element LONG values.
/// Fails with `Malformed` on a signature mismatch.
pub fn from_png(data: &[u8]) -> (r: Result<(u64, Endian, HashMap<u16, ExifValue>), ExifError>)
    ensures
        data@.len() < 16 ==> r matches Err(ExifError::UnexpectedEof),
        data@.len() >= 16 && data@.take(16) != png_signature() ==> r matches Err(ExifError::Malformed(_)),
        data@.len() >= 24 && data@.take(16) == png_signature() ==> r is Ok,
        r matches Ok((base, e, m)) ==> {
            &&& base == 0 && e == Endian::Big
            &&& data@.len() >= 24
            &&& values_view(m@) == Map::<u16, ExifValueView>::empty()
                .insert(0x0100, ExifValueView::Long(seq![u32_at(Endian::Big, data@, 16) as u32]))
                .insert(0x0101, ExifValueView::Long(seq![u32_at(Endian::Big, data@, 20) as u32]))
        },
{
    broadcast use vstd::std_specs::hash::group_hash_axioms;
    if data.len() < 16 {
        return Err(ExifError::UnexpectedEof);
    }
    let sig: [u8; 16] = [0x89, 0x50, 0x4e, 0x47, 0x0d, 0x0a, 0x1a, 0x0a, 0x00, 0x00, 0x00, 0x0d, 0x49, 0x48, 0x44, 0x52];
    assert(sig@ =~= png_signature());
    let mut i: usize = 0;
    while i < 16
        invariant
            data@.len() >= 16,
            sig@ == png_signature(),
            0 <= i <= 16,
            data@.take(i as int) == png_signature().take(i as int),
        decreases 16 - i,
    {
        if data[i] != sig[i] {
            assert(data@.take(16)[i as int] != png_signature()[i as int]);
            return Err(ExifError::Malformed("signature mismatch"));
        }
        i = i + 1;
        assert(data@.take(i as int) =~= png_signature().take(i as int));
    }
    assert(data@.take(16) =~= png_signature());
    let width = match read_u32_e(data, 16, Endian::Big) {
        Some(v) => v,
        None => return Err(ExifError::UnexpectedEof),
    };
    let height = match read_u32_e(data, 20, Endian::Big) {
        Some(v) => v,
        None => return Err(ExifError::UnexpectedEof),
    };
    let mut values: HashMap<u16, ExifValue> = HashMap::new();
    let wv = vec![width];
    let hv = vec![height];
    assert(wv@ =~= seq![width]);
    assert(hv@ =~= seq![height]);
    values.insert(0x0100, ExifValue::Long(wv));
    values.insert(0x0101, ExifValue::Long(hv));
    assert(values_view(values@) =~= Map::<u16, ExifValueView>::empty()
        .insert(0x0100, ExifValueView::Long(seq![width]))
        .insert(0x0101, ExifValueView::Long(seq![height])));
    Ok((0, Endian::Big, values))
}

/// Exif metadata of one file: where its TIFF stream starts, its byte order, and the
/// value of every tag that was read.
#[derive(Clone, Debug)]
pub struct ExifContext {
    tiff_base: u64,
    endian: Endian,
    exif_values: HashMap<u16, ExifValue>,
}

impl View for ExifContext {
    type V = Map<u16, ExifValueView>;

    closed spec fn view(&self) -> Map<u16, ExifValueView> {
        values_view(self.exif_values@)
    }
}

impl ExifContext {
    /// Offset of the TIFF header in the file.
    pub closed spec fn base(&self) -> u64 {
        self.tiff_base
    }

    /// Byte order of the TIFF stream.
    pub closed spec fn byte_order(&self) -> Endian {
        self.endian
    }

    /// An empty context: base 0, little-endian, no values.
    pub fn new() -> (r: ExifContext)
        ensures
            r@ == Map::<u16, ExifValueView>::empty(),
            r.base() == 0,
            r.byte_order() == Endian::Little,
    {
        let r = ExifContext { tiff_base: 0, endian: Endian::Little, exif_values: HashMap::new() };
        assert(r@ =~= Map::<u16, ExifValueView>::empty());
        r
    }

    /// Builds a context from the parts that an extraction returned.
    pub fn from_parts(tiff_base: u64, endian: Endian, exif_values: HashMap<u16, ExifValue>) -> (r: ExifContext)
        ensures
            r@ == values_view(exif_values@),
            r.base() == tiff_base,
            r.byte_order() == endian,
    {
        ExifContext { tiff_base, endian, exif_values }
    }

    /// The value of the tag of `field`, if it was read.
    pub fn get_tag_value(&self, field: ExifField) -> (r: Option<&ExifValue>)
        ensures
            r matches Some(v) ==> self@.contains_key(field.tag) && self@[field.tag] == v@,
            r is None <==> !self@.contains_key(field.tag),
    {
        self.get_tag_value_by_tag(field.tag)
    }

    /// The value of tag `tag`, if it was read.
    pub fn get_tag_value_by_tag(&self, tag: u16) -> (r: Option<&ExifValue>)
        ensures
            r matches Some(v) ==> self@.contains_key(tag) && self@[tag] == v@,
            r is None <==> !self@.contains_key(tag),
    {
        broadcast use vstd::std_specs::hash::group_hash_axioms;
        self.exif_values.get(&tag)
    }
}

/// The value of one tag as a C caller receives it: the payload bytes, a length, and the
/// TIFF type code. A length of zero means that the tag is absent.
#[derive(Clone, Debug)]
pub struct ExifData {
    pub data: Vec<u8>,
    pub len: usize,
    pub typ: u16,
}

/// `words` as consecutive little-endian 4-byte groups.
pub open spec fn le_words(words: Seq<u32>) -> Seq<u8>
    decreases words.len(),
{
    if words.len() == 0 {
        Seq::empty()
    } else {
        le_words(words.drop_last()) + le_bytes(words.last())
    }
}

/// The 32-bit words that a numeric value is passed as: longs as they are, signed longs
/// as their bit patterns, rationals as numerator then denominator.
pub open spec fn value_words(v: ExifValueView) -> Seq<u32> {
    match v {
        ExifValueView::Long(s) => s,
        ExifValueView::SLong(s) => Seq::new(s.len(), |i: int| s[i] as u32),
        ExifValueView::Rational(s) => Seq::new(2 * s.len(), |i: int| if i % 2 == 0 { s[i / 2].0 } else { s[i / 2].1 }),
        ExifValueView::SRational(s) => Seq::new(2 * s.len(), |i: int| if i % 2 == 0 { s[i / 2].0 as u32 } else { s[i / 2].1 as u32 }),
        _ => Seq::empty(),
    }
}

/// The payload of `v` for a C caller (see [`ExifData::from_exif_value`]).
pub open spec fn exif_data_spec(v: ExifValueView) -> (Seq<u8>, int, u16) {
    match v {
        ExifValueView::Byte(b) => {
            let lo = if b.len() > 0 { b[0] as int } else { 0 };
            let hi = if b.len() > 1 { b[1] as int } else { 0 };
            (le_bytes((lo + 256 * hi) as u32), 1, 1)
        },
        ExifValueView::Ascii(s) => (encode_utf8(s), encode_utf8(s).len() as int, 2),
        ExifValueView::Short(s) => if s.len() > 0 { (le_bytes(s[0] as u32), 1, 3) } else { (Seq::empty(), 0, 0) },
        ExifValueView::Long(_) => (le_words(value_words(v)), le_words(value_words(v)).len() as int, 4),
        ExifValueView::Rational(_) => (le_words(value_words(v)), le_words(value_words(v)).len() as int, 5),
        ExifValueView::SLong(_) => (le_words(value_words(v)), le_words(value_words(v)).len() as int, 9),
        ExifValueView::SRational(_) => (le_words(value_words(v)), le_words(value_words(v)).len() as int, 10),
    }
}

fn words_to_le_bytes(words: &Vec<u32>) -> (r: Vec<u8>)
    ensures
        r@ == le_words(words@),
{
    let mut out: Vec<u8> = Vec::new();
    let mut i: usize = 0;
    while i < words.len()
        invariant
            0 <= i <= words@.len(),
            out@ == le_words(words@.take(i as int)),
        decreases words@.len() - i,
    {
        let b = u32_le_bytes(words[i]);
        let ghost before = out@;
        out.push(b[0]);
        out.push(b[1]);
        out.push(b[2]);
        out.push(b[3]);
        assert(words@.take(i + 1).drop_last() =~= words@.take(i as int));
        assert(out@ =~= before + le_bytes(words@[i as int]));
        i = i + 1;
    }
    assert(words@.take(i as int) =~= words@);
    out
}

impl ExifData {
    /// No value: empty payload, length 0, type 0.
    pub fn null() -> (r: ExifData)
        ensures
            r.data@.len() == 0 && r.len == 0 && r.typ == 0,
    {
        ExifData { data: Vec::new(), len: 0, typ: 0 }
    }

    /// The payload of `v`: BYTE gives its first two bytes as one little-endian word,
    /// ASCII its UTF-8 text, SHORT its first element as a word, and the 32-bit kinds all
    /// their words (see [`exif_data_spec`]); the type code is the TIFF code of the kind.
    pub fn from_exif_value(v: &ExifValue) -> (r: ExifData)
        ensures
            (r.data@, r.len as int, r.typ) == exif_data_spec(v@),
    {
        match v {
            ExifValue::Byte(b) => {
                let lo: u32 = if b.len() > 0 { b[0] as u32 } else { 0 };
                let hi: u32 = if b.len() > 1 { b[1] as u32 } else { 0 };
                let bytes = u32_le_bytes(lo + 256 * hi);
                let data = vec![bytes[0], bytes[1], bytes[2], bytes[3]];
                assert(data@ =~= bytes@);
                ExifData { data, len: 1, typ: 1 }
            },
            ExifValue::Ascii(s) => {
                let bytes = s.as_str().as_bytes();
                let mut data: Vec<u8> = Vec::new();
                let mut i: usize = 0;
                while i < bytes.len()
                    invariant
                        0 <= i <= bytes@.len(),
                        data@ == bytes@.take(i as int),
                    decreases bytes@.len() - i,
                {
                    data.push(bytes[i]);
                    i = i + 1;
                    assert(data@ =~= bytes@.take(i as int));
                }
                assert(bytes@.take(i as int) =~= bytes@);
                let len = data.len();
                ExifData { data, len, typ: 2 }
            },
            ExifValue::Short(sv) => {
                if sv.len() == 0 {
                    return ExifData::null();
                }
                let bytes = u32_le_bytes(sv[0] as u32);
                let data = vec![bytes[0], bytes[1], bytes[2], bytes[3]];
                assert(data@ =~= bytes@);
                ExifData { data, len: 1, typ: 3 }
            },
            ExifValue::Long(lv) => {
                let data = words_to_le_bytes(lv);
                let len = data.len();
                ExifData { data, len, typ: 4 }
            },
            ExifValue::SLong(lv) => {
                let mut words: Vec<u32> = Vec::new();
                let mut i: usize = 0;
                while i < lv.len()
                    invariant
                        0 <= i <= lv@.len(),
                        words@ == Seq::new(i as nat, |j: int| lv@[j] as u32),
                    decreases lv@.len() - i,
                {
                    words.push(lv[i] as u32);
                    i = i + 1;
                    assert(words@ =~= Seq::new(i as nat, |j: int| lv@[j] as u32));
                }
                let data = words_to_le_bytes(&words);
                let len = data.len();
                ExifData { data, len, typ: 9 }
            },
            ExifValue::Rational(rv) => {
                let mut words: Vec<u32> = Vec::new();
                let mut i: usize = 0;
                while i < rv.len()
                    invariant
                        0 <= i <= rv@.len(),
                        words@ == Seq::new(2 * i as nat, |j: int| if j % 2 == 0 { rv@[j / 2].0 } else { rv@[j / 2].1 }),
                    decreases rv@.len() - i,
                {
                    words.push(rv[i].0);
                    words.push(rv[i].1);
                    i = i + 1;
                    assert(words@ =~= Seq::new(2 * i as nat, |j: int| if j % 2 == 0 { rv@[j / 2].0 } else { rv@[j / 2].1 }));
                }
                let data = words_to_le_bytes(&words);
                let len = data.len();
                ExifData { data, len, typ: 5 }
            },
            ExifValue::SRational(rv) => {
                let mut words: Vec<u32> = Vec::new();
                let mut i: usize = 0;
                while i < rv.len()
                    invariant
                        0 <= i <= rv@.len(),
                        words@ == Seq::new(2 * i as nat, |j: int| if j % 2 == 0 { rv@[j / 2].0 as u32 } else { rv@[j / 2].1 as u32 }),
                    decreases rv@.len() - i,
                {
                    words.push(rv[i].0 as u32);
                    words.push(rv[i].1 as u32);
                    i = i + 1;
                    assert(words@ =~= Seq::new(2 * i as nat, |j: int| if j % 2 == 0 { rv@[j / 2].0 as u32 } else { rv@[j / 2].1 as u32 }));
                }
                let data = words_to_le_bytes(&words);
                let len = data.len();
                ExifData { data, len, typ: 10 }
            },
        }
    }
}

/// A tag name with its value, for display.
#[derive(Clone, Debug)]
pub struct ExifKVPair {
    pub name: String,
    pub value: ExifValue,
}

/// The mapping that Exif extraction yields for a whole file, by container: the Exif
/// segment of a JPEG, width and height of a PNG, nothing for WebP and PDF, the TIFF
/// stream at offset 0 of a TIFF. `None` where extraction fails.
pub open spec fn container_values(b: Seq<u8>) -> Option<Map<u16, ExifValueView>> {
    let k = crate::load::container_kind(b);
    if k == 1 {
        match jpeg_exif_base(b, 2) {
            Ok(base) => match tiff_values(b, base) {
                Some((_, m)) => Some(m),
                None => None,
            },
            Err(_) => None,
        }
    } else if k == 2 {
        if b.len() >= 24 && b.take(16) == png_signature() {
            Some(Map::<u16, ExifValueView>::empty()
                .insert(0x0100, ExifValueView::Long(seq![u32_at(Endian::Big, b, 16) as u32]))
                .insert(0x0101, ExifValueView::Long(seq![u32_at(Endian::Big, b, 20) as u32])))
        } else {
            None
        }
    } else if k == 3 || k == 4 {
        Some(Map::empty())
    } else if k == 5 {
        match tiff_values(b, 0) {
            Some((_, m)) => Some(m),
            None => None,
        }
    } else {
        None
    }
}

/// The byte order of an extraction result.
pub open spec fn endian_of(t: Option<(Endian, Map<u16, ExifValueView>)>) -> Endian {
    match t {
        Some((e, _)) => e,
        None => Endian::Little,
    }
}

/// Where the TIFF stream of a file starts: after the Exif marker of a JPEG, else 0.
pub open spec fn container_base(b: Seq<u8>) -> int {
    if crate::load::container_kind(b) == 1 {
        match jpeg_exif_base(b, 2) {
            Ok(base) => base,
            Err(_) => 0,
        }
    } else {
        0
    }
}

/// The byte order that extraction records for a file: that of its TIFF stream, big-endian
/// for a PNG, little-endian for WebP and PDF.
pub open spec fn container_endian(b: Seq<u8>) -> Endian {
    let k = crate::load::container_kind(b);
    if k == 1 || k == 5 {
        endian_of(tiff_values(b, container_base(b)))
    } else if k == 2 {
        Endian::Big
    } else {
        Endian::Little
    }
}

impl ExifContext {
    /// Extracts the Exif metadata of a whole file, dispatching on its container (see
    /// [`container_values`]). A TIFF must also pass the Sony raw detector. Fails with
    /// `Unsupported` where the container is not recognised.
    pub fn from_reader_auto(data: &[u8]) -> (r: Result<ExifContext, ExifError>)
        requires
            data@.len() <= isize::MAX,
        ensures
            r matches Ok(c) ==> container_values(data@) == Some(c@) && c.base() == container_base(data@)
                && c.byte_order() == container_endian(data@),
            crate::load::container_kind(data@) == 5 && crate::tiff::raw_walk_succeeds(data@)
                ==> (r is Ok <==> container_values(data@) is Some),
            1 <= crate::load::container_kind(data@) <= 4 ==> (r is Ok <==> container_values(data@) is Some),
            crate::load::container_kind(data@) == 0 ==> r matches Err(ExifError::Unsupported(_)),
    {
        let parts = match crate::load::detect_image_type(data) {
            Ok(crate::load::ImageType::Jpeg) => from_jpeg(data),
            Ok(crate::load::ImageType::Png) => from_png(data),
            Ok(crate::load::ImageType::Webp) => return Ok(ExifContext::new()),
            Ok(crate::load::ImageType::Pdf) => return Ok(ExifContext::new()),
            Ok(crate::load::ImageType::SonyRaw(_)) => from_tiff(data, 0),
            Err(_) => return Err(ExifError::Unsupported("No matching EXIF parser")),
        };
        match parts {
            Ok((tiff_base, endian, exif_values)) => Ok(ExifContext::from_parts(tiff_base, endian, exif_values)),
            Err(e) => Err(e),
        }
    }
}

/// A value stored inline decodes exactly as the same bytes do when read from an offset:
/// the inline and offset paths agree.
pub proof fn lemma_inline_offset_equivalence(b: Seq<u8>, base: int, e: Endian, ent: IfdEntry,
    b2: Seq<u8>, at: int)
    requires
        type_size_spec(ent.typ) is Some,
        type_size_spec(ent.typ)->0 * ent.count <= 4,
        0 <= at,
        at + type_size_spec(ent.typ)->0 * ent.count <= b2.len(),
        b2.subrange(at, at + type_size_spec(ent.typ)->0 * ent.count)
            == stored_bytes(e, ent.value_or_offset).take(type_size_spec(ent.typ)->0 * ent.count),
    ensures
        entry_value(b, base, e, ent) == decode_value(
            b2.subrange(at, at + type_size_spec(ent.typ)->0 * ent.count), e, ent.typ, ent.count),
{
}

/// Every entry whose value decodes is in the mapping that inserting `ents` builds.
proof fn lemma_insert_entries_keys(m: Map<u16, ExifValueView>, b: Seq<u8>, base: int, e: Endian, ents: Seq<IfdEntry>)
    ensures
        forall|k: u16| m.contains_key(k) ==> #[trigger] insert_entries(m, b, base, e, ents).contains_key(k),
        forall|i: int| 0 <= i < ents.len() && entry_value(b, base, e, ents[i]) is Some
            ==> insert_entries(m, b, base, e, ents).contains_key(#[trigger] ents[i].tag),
    decreases ents.len(),
{
    if ents.len() > 0 {
        let prefix = ents.drop_last();
        lemma_insert_entries_keys(m, b, base, e, prefix);
        assert forall|k: u16| m.contains_key(k) implies #[trigger] insert_entries(m, b, base, e, ents).contains_key(k) by {
            assert(insert_entries(m, b, base, e, prefix).contains_key(k));
        }
        assert forall|i: int| 0 <= i < ents.len() && entry_value(b, base, e, ents[i]) is Some
            implies insert_entries(m, b, base, e, ents).contains_key(#[trigger] ents[i].tag) by {
            if i < ents.len() - 1 {
                assert(prefix[i] == ents[i]);
            }
        }
    }
}

/// Extraction from a well-formed TIFF stream keeps a value for every visited entry whose
/// type code is known and whose value bytes lie inside the data.
pub proof fn lemma_traversed_entries_present(b: Seq<u8>, base: int)
    requires
        tiff_values(b, base) is Some,
    ensures
        ({
            let (e, m) = tiff_values(b, base)->0;
            let (_, rel) = header_at(b, base)->0;
            forall|i: int| 0 <= i < traversed_entries(b, base, e, rel)->0.len()
                && #[trigger] entry_value(b, base, e, traversed_entries(b, base, e, rel)->0[i]) is Some
                ==> m.contains_key(traversed_entries(b, base, e, rel)->0[i].tag)
        }),
{
    let (e, m) = tiff_values(b, base)->0;
    let (_, rel) = header_at(b, base)->0;
    lemma_insert_entries_keys(Map::empty(), b, base, e, traversed_entries(b, base, e, rel)->0);
}

/// Extraction is a function of the file's bytes: two extractions of the same file agree.
pub proof fn lemma_extraction_repeatable(data: Seq<u8>, first: ExifContext, second: ExifContext)
    requires
        container_values(data) == Some(first@),
        container_values(data) == Some(second@),
        first.base() == container_base(data) && first.byte_order() == container_endian(data),
        second.base() == container_base(data) && second.byte_order() == container_endian(data),
    ensures
        first@ == second@,
        first.base() == second.base(),
        first.byte_order() == second.byte_order(),
{
}

/// An entry with a zero count has empty value bytes whatever the data holds, so nothing
/// past the entry is read, and its value has no elements.
pub proof fn lemma_zero_count_entry(b: Seq<u8>, base: int, e: Endian, ent: IfdEntry)
    requires
        ent.count == 0,
        type_size_spec(ent.typ) is Some,
    ensures
        entry_bytes(b, base, e, ent) == Some(Seq::<u8>::empty()),
        forall|b2: Seq<u8>, base2: int| #[trigger] entry_bytes(b2, base2, e, ent) == entry_bytes(b, base, e, ent),
        entry_value(b, base, e, ent) matches Some(v) && match v {
            ExifValueView::Byte(s) => s.len() == 0,
            ExifValueView::Ascii(s) => s == utf8_lossy(Seq::empty()),
            ExifValueView::Short(s) => s.len() == 0,
            ExifValueView::Long(s) => s.len() == 0,
            ExifValueView::Rational(s) => s.len() == 0,
            ExifValueView::SLong(s) => s.len() == 0,
            ExifValueView::SRational(s) => s.len() == 0,
        },
{
    assert(stored_bytes(e, ent.value_or_offset).take(0) =~= Seq::<u8>::empty());
    assert(trim_nul(Seq::<u8>::empty()) =~= Seq::<u8>::empty());
}

} // verus!

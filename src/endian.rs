//! Byte-order aware integer reads over an in-memory byte buffer.
use vstd::prelude::*;

verus! {

/// Byte order of a TIFF stream.
#[derive(Clone, Copy, Debug, PartialEq, Eq, Structural)]
pub enum Endian {
    Little,
    Big,
}

/// The 16-bit value stored at `b[i..i+2]` in byte order `e`.
pub open spec fn u16_at(e: Endian, b: Seq<u8>, i: int) -> int {
    match e {
        Endian::Little => b[i] + 256 * b[i + 1],
        Endian::Big => 256 * b[i] + b[i + 1],
    }
}

/// The 32-bit value stored at `b[i..i+4]` in byte order `e`.
pub open spec fn u32_at(e: Endian, b: Seq<u8>, i: int) -> int {
    match e {
        Endian::Little => b[i] + 256 * b[i + 1] + 65536 * b[i + 2] + 16777216 * b[i + 3],
        Endian::Big => 16777216 * b[i] + 65536 * b[i + 1] + 256 * b[i + 2] + b[i + 3],
    }
}

/// The signed 32-bit value stored at `b[i..i+4]` in byte order `e`.
pub open spec fn i32_at(e: Endian, b: Seq<u8>, i: int) -> int {
    let u = u32_at(e, b, i);
    if u >= 0x8000_0000 { u - 0x1_0000_0000 } else { u }
}

/// The four bytes of `v` in little-endian order.
pub open spec fn le_bytes(v: u32) -> Seq<u8> {
    seq![
        (v % 256) as u8,
        ((v / 256) % 256) as u8,
        ((v / 65536) % 256) as u8,
        ((v / 16777216) % 256) as u8,
    ]
}

/// Combines two bytes into a 16-bit value in byte order `e`.
pub fn u16_from(e: Endian, b0: u8, b1: u8) -> (r: u16)
    ensures
        r as int == u16_at(e, seq![b0, b1], 0),
{
    match e {
        Endian::Little => (b1 as u16) * 256 + (b0 as u16),
        Endian::Big => (b0 as u16) * 256 + (b1 as u16),
    }
}

/// Combines four bytes into a 32-bit value in byte order `e`.
pub fn u32_from(e: Endian, b0: u8, b1: u8, b2: u8, b3: u8) -> (r: u32)
    ensures
        r as int == u32_at(e, seq![b0, b1, b2, b3], 0),
{
    match e {
        Endian::Little => (b3 as u32) * 16777216 + (b2 as u32) * 65536 + (b1 as u32) * 256
            + (b0 as u32),
        Endian::Big => (b0 as u32) * 16777216 + (b1 as u32) * 65536 + (b2 as u32) * 256
            + (b3 as u32),
    }
}

/// Reinterprets a 32-bit pattern as a two's complement signed value.
pub fn to_i32(u: u32) -> (r: i32)
    ensures
        r as int == (if u >= 0x8000_0000 { u - 0x1_0000_0000 } else { u as int }),
{
    if u >= 0x8000_0000 {
        (u - 0x8000_0000) as i32 - 0x4000_0000 - 0x4000_0000
    } else {
        u as i32
    }
}

/// The little-endian bytes of a 32-bit word.
pub fn u32_le_bytes(v: u32) -> (r: [u8; 4])
    ensures
        r@ == le_bytes(v),
{
    let r = [
        (v % 256) as u8,
        ((v / 256) % 256) as u8,
        ((v / 65536) % 256) as u8,
        ((v / 16777216) % 256) as u8,
    ];
    assert(r@ =~= le_bytes(v));
    r
}

/// The four bytes that a directory entry stores for a field that decodes to `v` in byte order `e`.
pub open spec fn stored_bytes(e: Endian, v: u32) -> Seq<u8> {
    match e {
        Endian::Little => le_bytes(v),
        Endian::Big => seq![le_bytes(v)[3], le_bytes(v)[2], le_bytes(v)[1], le_bytes(v)[0]],
    }
}

/// The bytes, as stored in the file, of a 32-bit field read in byte order `e`.
pub fn u32_stored_bytes(e: Endian, v: u32) -> (r: [u8; 4])
    ensures
        r@ == stored_bytes(e, v),
{
    let b = u32_le_bytes(v);
    match e {
        Endian::Little => b,
        Endian::Big => {
            let r = [b[3], b[2], b[1], b[0]];
            assert(r@ =~= stored_bytes(e, v));
            r
        },
    }
}

/// Reads a 16-bit value in byte order `e` at offset `pos`; `None` past the end.
pub fn read_u16_e(data: &[u8], pos: u64, e: Endian) -> (r: Option<u16>)
    ensures
        r is Some <==> pos + 2 <= data@.len(),
        r matches Some(v) ==> v as int == u16_at(e, data@, pos as int),
{
    if pos >= data.len() as u64 || data.len() as u64 - pos < 2 {
        return None;
    }
    let p = pos as usize;
    Some(u16_from(e, data[p], data[p + 1]))
}

/// Reads a 32-bit value in byte order `e` at offset `pos`; `None` past the end.
pub fn read_u32_e(data: &[u8], pos: u64, e: Endian) -> (r: Option<u32>)
    ensures
        r is Some <==> pos + 4 <= data@.len(),
        r matches Some(v) ==> v as int == u32_at(e, data@, pos as int),
{
    if pos >= data.len() as u64 || data.len() as u64 - pos < 4 {
        return None;
    }
    let p = pos as usize;
    Some(u32_from(e, data[p], data[p + 1], data[p + 2], data[p + 3]))
}

/// Reads a big-endian 16-bit value at offset `pos`; `None` past the end.
pub fn read_be_u16(data: &[u8], pos: u64) -> (r: Option<u16>)
    ensures
        r is Some <==> pos + 2 <= data@.len(),
        r matches Some(v) ==> v as int == u16_at(Endian::Big, data@, pos as int),
{
    read_u16_e(data, pos, Endian::Big)
}

} // verus!

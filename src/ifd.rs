//! TIFF image file directories: the 12-byte entry layout and directory reads.
use vstd::prelude::*;
use crate::endian::{Endian, u16_at, u32_at, read_u16_e, read_u32_e};

verus! {

/// One 12-byte directory entry, its four fields decoded in the file's byte order.
#[derive(Clone, Copy, Debug, PartialEq, Eq, Structural)]
pub struct IfdEntry {
    pub tag: u16,
    pub typ: u16,
    pub count: u32,
    pub value_or_offset: u32,
}

/// A directory: its entries in file order and the offset of the next directory (0 ends a chain).
#[derive(Clone, Debug)]
pub struct Ifd {
    pub entries: Vec<IfdEntry>,
    pub next_ifd: u32,
}

/// Number of entries declared by the directory at `off`.
pub open spec fn ifd_len(e: Endian, b: Seq<u8>, off: int) -> int {
    u16_at(e, b, off)
}

/// Whether the whole directory at `off` (count, entries, next pointer) lies inside `b`.
pub open spec fn ifd_fits(e: Endian, b: Seq<u8>, off: int) -> bool {
    &&& off + 2 <= b.len()
    &&& off + 2 + 12 * ifd_len(e, b, off) + 4 <= b.len()
}

/// Entry `i` of the directory at `off`.
pub open spec fn entry_at(e: Endian, b: Seq<u8>, off: int, i: int) -> IfdEntry {
    let p = off + 2 + 12 * i;
    IfdEntry {
        tag: u16_at(e, b, p) as u16,
        typ: u16_at(e, b, p + 2) as u16,
        count: u32_at(e, b, p + 4) as u32,
        value_or_offset: u32_at(e, b, p + 8) as u32,
    }
}

/// The entries of the directory at `off`, in file order.
pub open spec fn ifd_entries(e: Endian, b: Seq<u8>, off: int) -> Seq<IfdEntry> {
    Seq::new(ifd_len(e, b, off) as nat, |i: int| entry_at(e, b, off, i))
}

/// The next-directory pointer of the directory at `off`.
pub open spec fn ifd_next(e: Endian, b: Seq<u8>, off: int) -> int {
    u32_at(e, b, off + 2 + 12 * ifd_len(e, b, off))
}

/// Reads the directory at absolute offset `off`; `None` where it runs past the data.
pub fn read_ifd(data: &[u8], e: Endian, off: u64) -> (r: Option<Ifd>)
    ensures
        r is Some <==> ifd_fits(e, data@, off as int),
        r matches Some(ifd) ==> {
            &&& ifd.entries@ == ifd_entries(e, data@, off as int)
            &&& ifd.next_ifd as int == ifd_next(e, data@, off as int)
        },
{
    let num = match read_u16_e(data, off, e) {
        Some(n) => n,
        None => return None,
    };
    let ghost n = ifd_len(e, data@, off as int);
    if data.len() as u64 - off - 2 < 12 * (num as u64) + 4 {
        return None;
    }
    let mut entries: Vec<IfdEntry> = Vec::new();
    let mut i: u64 = 0;
    while i < num as u64
        invariant
            num as int == n,
            off + 2 + 12 * num + 4 <= data@.len() <= u64::MAX,
            0 <= i <= num,
            entries@.len() == i,
            forall|j: int| 0 <= j < i ==> #[trigger] entries@[j] == entry_at(e, data@, off as int, j),
        decreases num - i,
    {
        let p = off + 2 + 12 * i;
        let tag = read_u16_e(data, p, e);
        let typ = read_u16_e(data, p + 2, e);
        let count = read_u32_e(data, p + 4, e);
        let voff = read_u32_e(data, p + 8, e);
        match (tag, typ, count, voff) {
            (Some(tag), Some(typ), Some(count), Some(value_or_offset)) => {
                entries.push(IfdEntry { tag, typ, count, value_or_offset });
            },
            _ => {
                return None;
            },
        }
        i = i + 1;
    }
    let next = match read_u32_e(data, off + 2 + 12 * (num as u64), e) {
        Some(v) => v,
        None => return None,
    };
    assert(entries@ =~= ifd_entries(e, data@, off as int));
    Some(Ifd { entries, next_ifd: next })
}

} // verus!

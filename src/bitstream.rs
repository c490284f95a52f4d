//! A JPEG-style bit reader over a byte buffer: stuff-byte handling, raw bit reads,
//! Huffman lookups and lossless-JPEG difference decoding.
use vstd::prelude::*;
use crate::sony_decoder::DecodeError;

verus! {

/// The reader's state as a value: input position, bit buffer, number of valid bits,
/// and the latch set by a marker.
pub struct BitState {
    pub pos: int,
    pub bitbuf: u32,
    pub vbits: int,
    pub reset: bool,
}

/// The state after buffering bytes until at least `need` bits are valid. With
/// `zero_after_ff`, `FF 00` gives the data byte `FF`, and `FF` followed by anything else,
/// or by nothing, sets the latch and stops. Requests outside `1..=25` change nothing.
pub open spec fn fill_spec(data: Seq<u8>, zero_after_ff: bool, s: BitState, need: int) -> BitState
    decreases data.len() - s.pos,
{
    if need > 25 || need <= 0 || s.vbits < 0 || s.reset || s.vbits >= need || s.pos < 0 || s.pos >= data.len() {
        s
    } else {
        let c = data[s.pos];
        let shifted = BitState {
            pos: s.pos + 1,
            bitbuf: (s.bitbuf << 8u32) | (c as u32),
            vbits: s.vbits + 8,
            reset: false,
        };
        if zero_after_ff && c == 0xff {
            if s.pos + 1 >= data.len() {
                BitState { pos: s.pos + 1, reset: true, ..s }
            } else if data[s.pos + 1] != 0 {
                BitState { pos: s.pos + 2, reset: true, ..s }
            } else {
                fill_spec(data, zero_after_ff, BitState { pos: s.pos + 2, ..shifted }, need)
            }
        } else {
            fill_spec(data, zero_after_ff, shifted, need)
        }
    }
}

/// The top `n` of the `vbits` valid bits of `bitbuf` (zero where none are valid).
pub open spec fn peek_spec(bitbuf: u32, vbits: int, n: int) -> u32 {
    if vbits == 0 {
        0
    } else {
        (bitbuf << ((32 - vbits) as u32)) >> ((32 - n) as u32)
    }
}

/// The state and result of reading `nbits` bits, or of one Huffman lookup in `table`
/// over a 15-bit peek: the entry's high byte is the code length, its low byte the symbol.
/// A read beyond the valid bits fails.
pub open spec fn getbithuff_spec(data: Seq<u8>, zero_after_ff: bool, s: BitState, nbits: int,
    table: Option<Seq<u16>>) -> (BitState, Result<u32, ()>)
{
    if nbits > 25 {
        (s, Ok(0))
    } else if nbits < 0 {
        (BitState { bitbuf: 0, vbits: 0, reset: false, ..s }, Ok(0))
    } else if nbits == 0 || s.vbits < 0 {
        (s, Ok(0))
    } else {
        let f = fill_spec(data, zero_after_ff, s, nbits);
        let c = peek_spec(f.bitbuf, f.vbits, nbits);
        match table {
            Some(t) => {
                let entry = t[c as int];
                let v = f.vbits - (entry / 256);
                (BitState { vbits: v, ..f }, if v < 0 { Err(()) } else { Ok((entry % 256) as u32) })
            },
            None => {
                let v = f.vbits - nbits;
                (BitState { vbits: v, ..f }, if v < 0 { Err(()) } else { Ok(c) })
            },
        }
    }
}

/// Whether the DNG version makes a 16-bit length code mean the fixed difference -32768.
pub open spec fn sixteen_is_fixed(dng_version: Option<u32>) -> bool {
    match dng_version {
        None => true,
        Some(v) => v == 0 || v >= 0x0101_0000,
    }
}

/// The difference that `len` bits with value `bits` encode: values whose top bit is
/// clear are negative.
pub open spec fn signed_diff(bits: u32, len: u32) -> int {
    if len > 0 && bits & (1u32 << ((len - 1) as u32)) == 0 {
        bits - ((1u32 << len) - 1)
    } else {
        bits as int
    }
}

/// The state and result of decoding one difference with Huffman table `table`.
pub open spec fn ljpeg_diff_spec(data: Seq<u8>, zero_after_ff: bool, dng_version: Option<u32>,
    s: BitState, table: Seq<u16>) -> (BitState, Result<int, ()>)
{
    let (s1, len) = getbithuff_spec(data, zero_after_ff, s, 15, Some(table));
    match len {
        Err(_) => (s1, Err(())),
        Ok(len) => if len == 16 && sixteen_is_fixed(dng_version) {
            (s1, Ok(-32768))
        } else if len == 0 {
            (s1, Ok(0))
        } else {
            let (s2, bits) = getbithuff_spec(data, zero_after_ff, s1, len as int, None);
            match bits {
                Err(_) => (s2, Err(())),
                Ok(bits) => (s2, Ok(signed_diff(bits, len))),
            }
        },
    }
}

/// A length code of 16 gives the fixed difference -32768 without a DNG version or with
/// one of at least 1.1, and is read as a 16-bit difference for a version in
/// `1..0x01010000`.
pub proof fn lemma_sixteen_bit_code(data: Seq<u8>, zero_after_ff: bool, dng_version: Option<u32>, s: BitState, table: Seq<u16>)
    requires
        getbithuff_spec(data, zero_after_ff, s, 15, Some(table)).1 == Ok::<u32, ()>(16),
    ensures
        dng_version is None ==> ljpeg_diff_spec(data, zero_after_ff, dng_version, s, table).1 == Ok::<int, ()>(-32768),
        dng_version matches Some(v) && v >= 0x0101_0000 ==> ljpeg_diff_spec(data, zero_after_ff, dng_version, s, table).1 == Ok::<int, ()>(-32768),
        dng_version matches Some(v) && 1 <= v < 0x0101_0000 ==> ({
            let s1 = getbithuff_spec(data, zero_after_ff, s, 15, Some(table)).0;
            let (s2, bits) = getbithuff_spec(data, zero_after_ff, s1, 16, None);
            ljpeg_diff_spec(data, zero_after_ff, dng_version, s, table) == (s2, match bits {
                Ok(b) => Ok(signed_diff(b, 16)),
                Err(_) => Err(()),
            })
        }),
{
}

/// A Huffman lookup table for 15-bit peeks whose symbols are bit lengths of at most 25.
pub open spec fn huff_table_ok(t: Seq<u16>) -> bool {
    &&& t.len() >= 32768
    &&& forall|i: int| 0 <= i < 32768 ==> #[trigger] t[i] % 256 <= 25
}

/// A bit reader over `reader`.
pub struct JpegBitstream<'a> {
    reader: &'a [u8],
    pos: usize,
    bitbuf: u32,
    vbits: i32,
    reset: bool,
    zero_after_ff: bool,
    dng_version: Option<u32>,
}

impl<'a> JpegBitstream<'a> {
    /// The reader's state.
    pub closed spec fn state(&self) -> BitState {
        BitState { pos: self.pos as int, bitbuf: self.bitbuf, vbits: self.vbits as int, reset: self.reset }
    }

    /// The bytes read from.
    pub closed spec fn input(&self) -> Seq<u8> {
        self.reader@
    }

    /// The DNG version that decides how a 16-bit length code is read.
    pub closed spec fn dng(&self) -> Option<u32> {
        self.dng_version
    }

    /// Whether `FF 00` stuffing is honoured.
    pub closed spec fn stuffing(&self) -> bool {
        self.zero_after_ff
    }

    pub closed spec fn wf(&self) -> bool {
        &&& self.pos <= self.reader@.len()
        &&& -255 <= self.vbits <= 32
    }

    pub fn new(reader: &'a [u8]) -> (r: JpegBitstream<'a>)
        ensures
            r.wf(),
            r.input() == reader@,
            r.state() == (BitState { pos: 0, bitbuf: 0, vbits: 0, reset: false }),
            !r.stuffing(),
            r.dng() is None,
    {
        JpegBitstream { reader, pos: 0, bitbuf: 0, vbits: 0, reset: false, zero_after_ff: false, dng_version: None }
    }

    pub fn set_zero_after_ff(&mut self, enabled: bool)
        requires
            old(self).wf(),
        ensures
            final(self).wf(),
            final(self).stuffing() == enabled,
            final(self).state() == old(self).state(),
            final(self).input() == old(self).input(),
            final(self).dng() == old(self).dng(),
    {
        self.zero_after_ff = enabled;
    }

    pub fn set_dng_version(&mut self, dng_version: Option<u32>)
        requires
            old(self).wf(),
        ensures
            final(self).wf(),
            final(self).dng() == dng_version,
            final(self).state() == old(self).state(),
            final(self).stuffing() == old(self).stuffing(),
            final(self).input() == old(self).input(),
    {
        self.dng_version = dng_version;
    }

    /// Clears the bit buffer and the marker latch.
    pub fn reset_state(&mut self)
        requires
            old(self).wf(),
        ensures
            final(self).wf(),
            final(self).state() == (BitState { bitbuf: 0, vbits: 0, reset: false, ..old(self).state() }),
            final(self).stuffing() == old(self).stuffing(),
            final(self).input() == old(self).input(),
            final(self).dng() == old(self).dng(),
    {
        self.bitbuf = 0;
        self.vbits = 0;
        self.reset = false;
    }

    fn fill_to(&mut self, need: i32)
        requires
            old(self).wf(),
        ensures
            final(self).wf(),
            final(self).state() == fill_spec(old(self).input(), old(self).stuffing(), old(self).state(), need as int),
            old(self).state().vbits >= 0 ==> final(self).state().vbits >= 0,
            final(self).stuffing() == old(self).stuffing(),
            final(self).input() == old(self).input(),
            final(self).dng() == old(self).dng(),
    {
        if need > 25 || need <= 0 || self.vbits < 0 {
            return;
        }
        while !self.reset && self.vbits < need && self.pos < self.reader.len()
            invariant
                self.wf(),
                0 < need <= 25,
                self.vbits >= 0,
                self.stuffing() == old(self).stuffing(),
                self.input() == old(self).input(),
                self.dng() == old(self).dng(),
                fill_spec(self.input(), self.stuffing(), self.state(), need as int)
                    == fill_spec(old(self).input(), old(self).stuffing(), old(self).state(), need as int),
            decreases self.reader@.len() - self.pos,
        {
            let c = self.reader[self.pos];
            self.pos = self.pos + 1;
            if self.zero_after_ff && c == 0xff {
                if self.pos >= self.reader.len() {
                    self.reset = true;
                } else {
                    let next = self.reader[self.pos];
                    self.pos = self.pos + 1;
                    if next != 0 {
                        self.reset = true;
                    } else {
                        self.bitbuf = (self.bitbuf << 8u32) | (c as u32);
                        self.vbits = self.vbits + 8;
                    }
                }
            } else {
                self.bitbuf = (self.bitbuf << 8u32) | (c as u32);
                self.vbits = self.vbits + 8;
            }
        }
        assert(fill_spec(self.input(), self.stuffing(), self.state(), need as int) == self.state());
    }

    /// Reads `nbits` bits, or with `huff` one Huffman symbol (see [`getbithuff_spec`]).
    fn getbithuff(&mut self, nbits: i32, huff: Option<&[u16]>) -> (r: Result<u32, DecodeError>)
        requires
            old(self).wf(),
            huff matches Some(t) ==> t@.len() >= 32768 && nbits <= 15,
        ensures
            final(self).wf(),
            ({
                let (s, res) = getbithuff_spec(old(self).input(), old(self).stuffing(), old(self).state(),
                    nbits as int, match huff { Some(t) => Some(t@), None => None });
                &&& final(self).state() == s
                &&& match r {
                    Ok(v) => res == Ok::<u32, ()>(v),
                    Err(_) => res is Err,
                }
            }),
            huff is None && nbits <= 25 ==> (r matches Ok(v) ==> v < 0x200_0000),
            r is Err ==> r matches Err(DecodeError::CorruptData(_)),
            final(self).stuffing() == old(self).stuffing(),
            final(self).input() == old(self).input(),
            final(self).dng() == old(self).dng(),
    {
        if nbits > 25 {
            return Ok(0);
        }
        if nbits < 0 {
            self.reset_state();
            return Ok(0);
        }
        if nbits == 0 || self.vbits < 0 {
            return Ok(0);
        }
        self.fill_to(nbits);
        let sh2 = (32 - nbits) as u32;
        let c: u32 = if self.vbits == 0 {
            0
        } else {
            let shift = (32 - self.vbits) as u32;
            let y = self.bitbuf << shift;
            assert(y >> sh2 < 0x200_0000u32) by (bit_vector)
                requires
                    sh2 >= 7u32,
            ;
            assert(sh2 >= 17u32 ==> y >> sh2 < 32768u32) by (bit_vector);
            y >> sh2
        };
        match huff {
            Some(table) => {
                let entry = table[c as usize];
                let code_len = (entry / 256) as i32;
                let sym = (entry % 256) as u32;
                self.vbits = self.vbits - code_len;
                if self.vbits < 0 {
                    return Err(DecodeError::CorruptData("Huffman code longer than the buffered bits"));
                }
                Ok(sym)
            },
            None => {
                self.vbits = self.vbits - nbits;
                if self.vbits < 0 {
                    return Err(DecodeError::CorruptData("bit read past the buffered bits"));
                }
                Ok(c)
            },
        }
    }

    /// One Huffman symbol from a 15-bit peek into `huff`.
    fn gethuff(&mut self, huff: &[u16]) -> (r: Result<u32, DecodeError>)
        requires
            old(self).wf(),
            huff@.len() >= 32768,
        ensures
            final(self).wf(),
            ({
                let (s, res) = getbithuff_spec(old(self).input(), old(self).stuffing(), old(self).state(), 15, Some(huff@));
                &&& final(self).state() == s
                &&& match r {
                    Ok(v) => res == Ok::<u32, ()>(v),
                    Err(_) => res is Err,
                }
            }),
            final(self).stuffing() == old(self).stuffing(),
            final(self).input() == old(self).input(),
            r is Err ==> r matches Err(DecodeError::CorruptData(_)),
            final(self).dng() == old(self).dng(),
    {
        self.getbithuff(15, Some(huff))
    }

    /// Decodes one difference: a Huffman-coded bit length, then that many bits read as a
    /// signed magnitude. A length of 16 is the fixed difference -32768 unless a DNG version
    /// below 1.1 is set (see [`ljpeg_diff_spec`]).
    pub fn ljpeg_diff(&mut self, huff: &[u16]) -> (r: Result<i32, DecodeError>)
        requires
            old(self).wf(),
            huff_table_ok(huff@),
        ensures
            final(self).wf(),
            ({
                let (s, res) = ljpeg_diff_spec(old(self).input(), old(self).stuffing(), old(self).dng(), old(self).state(), huff@);
                &&& final(self).state() == s
                &&& match r {
                    Ok(v) => res == Ok::<int, ()>(v as int),
                    Err(_) => res is Err,
                }
            }),
            r matches Ok(v) ==> -0x200_0000 <= v <= 0x200_0000,
            r is Err ==> r matches Err(DecodeError::CorruptData(_)),
            final(self).stuffing() == old(self).stuffing(),
            final(self).input() == old(self).input(),
            final(self).dng() == old(self).dng(),
    {
        let len = match self.gethuff(huff) {
            Ok(l) => l,
            Err(e) => return Err(e),
        };
        proof {
            let s = old(self).state();
            if s.vbits >= 0 {
                let f = fill_spec(old(self).input(), old(self).stuffing(), s, 15);
                let c = peek_spec(f.bitbuf, f.vbits, 15);
                if f.vbits != 0 {
                    let y = f.bitbuf << ((32 - f.vbits) as u32);
                    assert(y >> 17u32 < 32768u32) by (bit_vector);
                }
                assert(c < 32768);
                assert(huff@[c as int] % 256 <= 25);
            }
        }
        if len == 16 {
            let dv = match self.dng_version {
                Some(v) => v,
                None => 0,
            };
            if dv == 0 || dv >= 0x0101_0000 {
                return Ok(-32768);
            }
        }
        if len == 0 {
            return Ok(0);
        }
        let bits = match self.getbithuff(len as i32, None) {
            Ok(b) => b,
            Err(e) => return Err(e),
        };
        let sign_bit = 1u32 << ((len - 1) as u32);
        let full: u32 = 1u32 << len;
        assert(1u32 <= full <= 0x200_0000u32) by (bit_vector)
            requires
                full == 1u32 << len,
                1u32 <= len <= 25u32,
        ;
        if bits & sign_bit == 0 {
            Ok(bits as i32 - (full - 1) as i32)
        } else {
            Ok(bits as i32)
        }
    }
}

} // verus!

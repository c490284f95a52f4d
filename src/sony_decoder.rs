//! Sony raw decoders: ARW2 block-packed, legacy LJPEG-style and 14-bit uncompressed.
use vstd::prelude::*;
use crate::tiff::{SonyVariant, sum_of};
use crate::bitstream::{JpegBitstream, BitState, huff_table_ok, ljpeg_diff_spec};
use crate::endian::{Endian, u16_at, u32_at, u16_from, u32_from};

verus! {

/// Errors of the raw pipeline.
#[derive(Clone, Copy, Debug)]
pub enum DecodeError {
    /// The input ended before data that had to be read.
    UnexpectedEof,
    CorruptData(&'static str),
    UnsupportedFormat(SonyVariant),
    /// The leading bytes name no container that is handled.
    UnsupportedImage,
}

/// Geometry of a raw plane: the allocated raster and the active area that decoders write.
#[derive(Clone, Copy, Debug, PartialEq, Eq, Structural)]
pub struct Dimensions {
    pub raw_width: usize,
    pub raw_height: usize,
    pub output_width: usize,
    pub output_height: usize,
}

/// A decoded mosaic plane, row-major with stride `raw_width`, and its white level.
pub struct SonyLoadResult {
    pub pixels: Vec<u16>,
    pub white_level: u16,
}

/// Position of sample `(y, x)` in a row-major plane with stride `w`.
pub open spec fn plane_index(w: int, y: int, x: int) -> int {
    y * w + x
}

/// The raster and active area fit together: the active area lies inside the raster and
/// the raster's size is addressable.
pub open spec fn dims_ok(d: Dimensions) -> bool {
    &&& d.output_width <= d.raw_width
    &&& d.output_height <= d.raw_height
    &&& d.raw_width * d.raw_height <= usize::MAX
}

pub proof fn lemma_plane_index_bounds(w: int, h: int, y: int, x: int)
    requires
        0 <= y < h,
        0 <= x < w,
    ensures
        0 <= plane_index(w, y, x) < w * h,
        plane_index(w, y, x) + 1 <= w * h,
{
    assert(0 <= y * w + x < w * h) by (nonlinear_arith)
        requires
            0 <= y < h,
            0 <= x < w,
    ;
}

pub proof fn lemma_plane_index_distinct(w: int, y1: int, x1: int, y2: int, x2: int)
    requires
        0 <= y1,
        0 <= y2,
        0 <= x1 < w,
        0 <= x2 < w,
        y1 != y2 || x1 != x2,
    ensures
        plane_index(w, y1, x1) != plane_index(w, y2, x2),
{
    if y1 == y2 {
    } else if y1 < y2 {
        assert(y1 * w + x1 < y2 * w + x2) by (nonlinear_arith)
            requires
                y1 < y2,
                0 <= x1 < w,
                0 <= x2,
        ;
    } else {
        assert(y2 * w + x2 < y1 * w + x1) by (nonlinear_arith)
            requires
                y2 < y1,
                0 <= x2 < w,
                0 <= x1,
        ;
    }
}

/// Checks the geometry and allocates a zeroed raster.
fn alloc_plane(dims: Dimensions) -> (r: Result<Vec<u16>, DecodeError>)
    ensures
        r is Ok <==> dims_ok(dims),
        !dims_ok(dims) ==> r matches Err(DecodeError::CorruptData(_)),
        r matches Ok(v) ==> v@.len() == dims.raw_width * dims.raw_height
            && forall|i: int| 0 <= i < v@.len() ==> v@[i] == 0,
{
    if dims.output_width > dims.raw_width || dims.output_height > dims.raw_height {
        return Err(DecodeError::CorruptData("active area larger than the raster"));
    }
    let n = match dims.raw_width.checked_mul(dims.raw_height) {
        Some(n) => n,
        None => return Err(DecodeError::CorruptData("raster size overflow")),
    };
    Ok(vec![0u16; n])
}

/// The sum of the first `k` byte counts: where strip `k` starts in the concatenation.
pub open spec fn strip_start(counts: Seq<u64>, k: int) -> int {
    sum_of(counts.take(k))
}

/// All strips, in order, concatenated.
pub open spec fn strips_concat(data: Seq<u8>, offsets: Seq<u64>, counts: Seq<u64>) -> Seq<u8>
    decreases offsets.len(),
{
    if offsets.len() == 0 || counts.len() == 0 {
        Seq::empty()
    } else {
        strips_concat(data, offsets.drop_last(), counts.drop_last())
            + data.subrange(offsets.last() as int, offsets.last() + counts.last())
    }
}

/// Whether every strip lies inside `data`.
pub open spec fn strips_in_range(data: Seq<u8>, offsets: Seq<u64>, counts: Seq<u64>) -> bool {
    forall|k: int| 0 <= k < offsets.len() ==> #[trigger] offsets[k] + counts[k] <= data.len()
}

proof fn lemma_sum_of_take_step(s: Seq<u64>, k: int)
    requires
        0 <= k < s.len(),
    ensures
        sum_of(s.take(k + 1)) == sum_of(s.take(k)) + s[k],
{
    assert(s.take(k + 1).drop_last() =~= s.take(k));
}

/// Reads every strip and concatenates them in order. Fails with `CorruptData` where the
/// summed size does not fit in memory, and with `UnexpectedEof` where a strip lies past
/// the end of `data`.
pub fn read_concatenated_strips(data: &[u8], offsets: &[u64], counts: &[u64]) -> (r: Result<Vec<u8>, DecodeError>)
    requires
        offsets@.len() == counts@.len(),
    ensures
        sum_of(counts@) > usize::MAX ==> r matches Err(DecodeError::CorruptData(_)),
        sum_of(counts@) <= usize::MAX && !strips_in_range(data@, offsets@, counts@) ==> r matches Err(DecodeError::UnexpectedEof),
        sum_of(counts@) <= usize::MAX && strips_in_range(data@, offsets@, counts@) ==> r is Ok,
        r matches Ok(buf) ==> buf@ == strips_concat(data@, offsets@, counts@) && buf@.len() == sum_of(counts@),
        r matches Ok(buf) ==> forall|k: int| 0 <= k < offsets@.len() ==> #[trigger] buf@.subrange(strip_start(counts@, k),
            strip_start(counts@, k) + counts@[k]) == data@.subrange(offsets@[k] as int, offsets@[k] + counts@[k]),
{
    let mut total: usize = 0;
    let mut k: usize = 0;
    while k < counts.len()
        invariant
            0 <= k <= counts@.len(),
            total == sum_of(counts@.take(k as int)),
        decreases counts@.len() - k,
    {
        proof { lemma_sum_of_take_step(counts@, k as int); }
        if counts[k] > (usize::MAX - total) as u64 {
            proof { lemma_sum_prefix_le(counts@, k as int + 1); }
            return Err(DecodeError::CorruptData("size overflow"));
        }
        total = total + counts[k] as usize;
        k = k + 1;
    }
    assert(counts@.take(k as int) =~= counts@);
    let mut buf: Vec<u8> = Vec::new();
    let mut k: usize = 0;
    while k < offsets.len()
        invariant
            offsets@.len() == counts@.len(),
            sum_of(counts@) <= usize::MAX,
            0 <= k <= offsets@.len(),
            buf@ == strips_concat(data@, offsets@.take(k as int), counts@.take(k as int)),
            buf@.len() == sum_of(counts@.take(k as int)),
            forall|j: int| 0 <= j < k ==> #[trigger] offsets@[j] + counts@[j] <= data@.len(),
        decreases offsets@.len() - k,
    {
        let off = offsets[k];
        let cnt = counts[k];
        if off > data.len() as u64 || cnt > data.len() as u64 - off {
            return Err(DecodeError::UnexpectedEof);
        }
        let start = off as usize;
        let end = start + cnt as usize;
        let ghost before = buf@;
        let mut i: usize = start;
        while i < end
            invariant
                start <= i <= end <= data@.len(),
                buf@ == before + data@.subrange(start as int, i as int),
            decreases end - i,
        {
            buf.push(data[i]);
            i = i + 1;
            assert(buf@ =~= before + data@.subrange(start as int, i as int));
        }
        proof {
            lemma_sum_of_take_step(counts@, k as int);
            assert(offsets@.take(k + 1).drop_last() =~= offsets@.take(k as int));
            assert(counts@.take(k + 1).drop_last() =~= counts@.take(k as int));
        }
        k = k + 1;
    }
    assert(offsets@.take(k as int) =~= offsets@);
    assert(counts@.take(k as int) =~= counts@);
    proof {
        assert forall|j: int| 0 <= j < offsets@.len() implies #[trigger] buf@.subrange(strip_start(counts@, j),
            strip_start(counts@, j) + counts@[j]) == data@.subrange(offsets@[j] as int, offsets@[j] + counts@[j]) by {
            lemma_strip_readback(data@, offsets@, counts@, j);
        }
    }
    Ok(buf)
}

proof fn lemma_sum_prefix_le(s: Seq<u64>, k: int)
    requires
        0 <= k <= s.len(),
    ensures
        sum_of(s.take(k)) <= sum_of(s),
    decreases s.len() - k,
{
    if k < s.len() {
        lemma_sum_of_take_step(s, k);
        lemma_sum_prefix_le(s, k + 1);
    } else {
        assert(s.take(k) =~= s);
    }
}

/// The plane holds `f` at every active sample before `(y, x)` in row-major order, and
/// zero everywhere else.
pub open spec fn plane_filled(p: Seq<u16>, d: Dimensions, f: spec_fn(int, int) -> u16, y: int, x: int) -> bool {
    &&& p.len() == d.raw_width * d.raw_height
    &&& forall|yy: int, xx: int| 0 <= yy < d.raw_height && 0 <= xx < d.raw_width ==>
        #[trigger] p[plane_index(d.raw_width as int, yy, xx)] == if (yy < y || (yy == y && xx < x))
            && yy < d.output_height && xx < d.output_width { f(yy, xx) } else { 0 }
}

/// The plane that holds `f` on the active area and zero elsewhere.
pub open spec fn plane_of(p: Seq<u16>, d: Dimensions, f: spec_fn(int, int) -> u16) -> bool {
    &&& p.len() == d.raw_width * d.raw_height
    &&& forall|yy: int, xx: int| 0 <= yy < d.raw_height && 0 <= xx < d.raw_width ==>
        #[trigger] p[plane_index(d.raw_width as int, yy, xx)] == if yy < d.output_height
            && xx < d.output_width { f(yy, xx) } else { 0 }
}

proof fn lemma_plane_start(p: Seq<u16>, d: Dimensions, f: spec_fn(int, int) -> u16)
    requires
        p.len() == d.raw_width * d.raw_height,
        forall|i: int| 0 <= i < p.len() ==> p[i] == 0,
    ensures
        plane_filled(p, d, f, 0, 0),
{
    assert forall|yy: int, xx: int| 0 <= yy < d.raw_height && 0 <= xx < d.raw_width implies
        #[trigger] p[plane_index(d.raw_width as int, yy, xx)] == 0 by {
        lemma_plane_index_bounds(d.raw_width as int, d.raw_height as int, yy, xx);
    }
}

proof fn lemma_plane_set(p: Seq<u16>, d: Dimensions, f: spec_fn(int, int) -> u16, y: int, x: int)
    requires
        dims_ok(d),
        plane_filled(p, d, f, y, x),
        0 <= y < d.output_height,
        0 <= x < d.output_width,
    ensures
        plane_filled(p.update(plane_index(d.raw_width as int, y, x), f(y, x)), d, f, y, x + 1),
        0 <= plane_index(d.raw_width as int, y, x) < p.len(),
{
    let w = d.raw_width as int;
    lemma_plane_index_bounds(w, d.raw_height as int, y, x);
    let q = p.update(plane_index(w, y, x), f(y, x));
    assert forall|yy: int, xx: int| 0 <= yy < d.raw_height && 0 <= xx < d.raw_width implies
        #[trigger] q[plane_index(w, yy, xx)] == if (yy < y || (yy == y && xx < x + 1))
            && yy < d.output_height && xx < d.output_width { f(yy, xx) } else { 0 } by {
        lemma_plane_index_bounds(w, d.raw_height as int, yy, xx);
        if yy != y || xx != x {
            lemma_plane_index_distinct(w, yy, xx, y, x);
        }
    }
}

proof fn lemma_plane_skip(p: Seq<u16>, d: Dimensions, f: spec_fn(int, int) -> u16, y: int, x: int)
    requires
        plane_filled(p, d, f, y, x),
        0 <= y,
        0 <= x,
        x >= d.output_width || y >= d.output_height || f(y, x) == 0,
    ensures
        plane_filled(p, d, f, y, x + 1),
{
}

proof fn lemma_plane_next_row(p: Seq<u16>, d: Dimensions, f: spec_fn(int, int) -> u16, y: int)
    requires
        plane_filled(p, d, f, y, d.output_width as int),
    ensures
        plane_filled(p, d, f, y + 1, 0),
{
}

proof fn lemma_plane_done(p: Seq<u16>, d: Dimensions, f: spec_fn(int, int) -> u16)
    requires
        plane_filled(p, d, f, d.output_height as int, 0),
    ensures
        plane_of(p, d, f),
{
}

/// The 14-bit sample at `(y, x)`: a little-endian word in rows of `2 * ow` bytes.
pub open spec fn u14_sample(data: Seq<u8>, ow: int, y: int, x: int) -> u16 {
    u16_at(Endian::Little, data, 2 * (y * ow + x)) as u16
}

/// The 14-bit samples of `data` as a function of position.
pub open spec fn u14_plane(data: Seq<u8>, ow: int) -> spec_fn(int, int) -> u16 {
    |y: int, x: int| u14_sample(data, ow, y, x)
}

/// Reads `output_height` rows of `2 * output_width` bytes, each pair a little-endian
/// sample. White level 0x3FFF. Fails with `CorruptData` for an active area outside the
/// raster and with `UnexpectedEof` where the data is short.
pub fn sony_uncompressed14_load_raw(data: &[u8], dims: Dimensions) -> (r: Result<SonyLoadResult, DecodeError>)
    ensures
        !dims_ok(dims) ==> r matches Err(DecodeError::CorruptData(_)),
        dims_ok(dims) && data@.len() < 2 * dims.output_width * dims.output_height ==> r matches Err(DecodeError::UnexpectedEof),
        dims_ok(dims) && data@.len() >= 2 * dims.output_width * dims.output_height ==> r is Ok,
        r matches Ok(res) ==> res.white_level == 0x3fff
            && plane_of(res.pixels@, dims, u14_plane(data@, dims.output_width as int)),
{
    let mut pixels = match alloc_plane(dims) {
        Ok(p) => p,
        Err(e) => return Err(e),
    };
    let ghost f = u14_plane(data@, dims.output_width as int);
    proof { lemma_plane_start(pixels@, dims, f); }
    let ow = dims.output_width;
    let rw = dims.raw_width;
    let n = data.len();
    if dims.output_height > 0 && ow > n / 2 {
        assert(data@.len() < 2 * dims.output_width * dims.output_height) by (nonlinear_arith)
            requires
                dims.output_height >= 1,
                2 * dims.output_width > data@.len(),
        ;
        return Err(DecodeError::UnexpectedEof);
    }
    let mut y: usize = 0;
    while y < dims.output_height
        invariant
            dims_ok(dims),
            n == data@.len(),
            dims.output_height > 0 ==> 2 * ow <= n,
            ow == dims.output_width,
            rw == dims.raw_width,
            0 <= y <= dims.output_height,
            f == u14_plane(data@, dims.output_width as int),
            plane_filled(pixels@, dims, f, y as int, 0),
            2 * ow * y <= n,
        decreases dims.output_height - y,
    {
        let row_start = 2 * ow * y;
        assert(2 * ow * y == 2 * (y * ow)) by (nonlinear_arith);
        if n - row_start < 2 * ow {
            assert(data@.len() < 2 * dims.output_width * dims.output_height) by (nonlinear_arith)
                requires
                    data@.len() < 2 * ow * y + 2 * ow,
                    y + 1 <= dims.output_height,
                    ow == dims.output_width,
            ;
            return Err(DecodeError::UnexpectedEof);
        }
        let mut x: usize = 0;
        while x < ow
            invariant
                dims_ok(dims),
                ow == dims.output_width,
                rw == dims.raw_width,
                0 <= y < dims.output_height,
                0 <= x <= ow,
                row_start == 2 * (y * ow),
                n == data@.len(),
                row_start + 2 * ow <= n,
                f == u14_plane(data@, dims.output_width as int),
                plane_filled(pixels@, dims, f, y as int, x as int),
            decreases ow - x,
        {
            let off = row_start + 2 * x;
            let v = u16_from(Endian::Little, data[off], data[off + 1]);
            proof {
                lemma_plane_set(pixels@, dims, f, y as int, x as int);
                assert(off == 2 * (y * ow + x));
                assert(f(y as int, x as int) == u14_sample(data@, ow as int, y as int, x as int));
                assert(v == u14_sample(data@, ow as int, y as int, x as int));
            }
            let i = y * rw + x;
            pixels.set(i, v);
            x = x + 1;
        }
        proof { lemma_plane_next_row(pixels@, dims, f, y as int); }
        y = y + 1;
        assert(2 * ow * y <= n) by (nonlinear_arith)
            requires
                row_start + 2 * ow <= n,
                row_start == 2 * ((y - 1) * ow),
        ;
    }
    proof {
        lemma_plane_done(pixels@, dims, f);

    }
    Ok(SonyLoadResult { pixels, white_level: 0x3fff })
}

/// The header word of the ARW2 block at `dp`.
pub open spec fn arw2_header(buf: Seq<u8>, dp: int) -> int {
    u32_at(Endian::Little, buf, dp)
}

pub open spec fn arw2_max(buf: Seq<u8>, dp: int) -> int {
    arw2_header(buf, dp) % 2048
}

pub open spec fn arw2_min(buf: Seq<u8>, dp: int) -> int {
    (arw2_header(buf, dp) / 2048) % 2048
}

pub open spec fn arw2_imax(buf: Seq<u8>, dp: int) -> int {
    (arw2_header(buf, dp) / 0x40_0000) % 16
}

pub open spec fn arw2_imin(buf: Seq<u8>, dp: int) -> int {
    (arw2_header(buf, dp) / 0x400_0000) % 16
}

/// `2^sh` for the smallest `sh` below 4 with `0x80 << sh > diff`, else 16.
pub open spec fn arw2_scale(diff: int) -> int {
    if diff < 128 { 1 } else if diff < 256 { 2 } else if diff < 512 { 4 } else if diff < 1024 { 8 } else { 16 }
}

/// How many of the positions before `i` carry a 7-bit code (neither `imax` nor `imin`).
pub open spec fn arw2_rank(i: int, imax: int, imin: int) -> int {
    i - (if imax < i { 1int } else { 0int }) - (if imin < i && imin != imax { 1int } else { 0int })
}

pub open spec fn pow2_lt8(k: int) -> int {
    if k == 0 { 1 } else if k == 1 { 2 } else if k == 2 { 4 } else if k == 3 { 8 }
    else if k == 4 { 16 } else if k == 5 { 32 } else if k == 6 { 64 } else { 128 }
}

/// The seven bits at bit position `bit` of the block at `dp`, taken from the
/// little-endian byte pair that holds them.
pub open spec fn arw2_code_at(buf: Seq<u8>, dp: int, bit: int) -> int {
    let b = dp + bit / 8;
    ((buf[b] + 256 * buf[b + 1]) / pow2_lt8(bit % 8)) % 128
}

/// Pixel `i` of a block with the given header fields: `mx` at `imx`, `mn` at `imn`, else
/// its code (the `rank`-th, at bit `30 + 7 * rank`) scaled by `arw2_scale(mx - mn)` plus `mn`.
pub open spec fn arw2_value(buf: Seq<u8>, dp: int, i: int, mx: int, mn: int, imx: int, imn: int) -> u16 {
    if i == imx {
        mx as u16
    } else if i == imn {
        mn as u16
    } else {
        (arw2_code_at(buf, dp, 30 + 7 * arw2_rank(i, imx, imn)) * arw2_scale(mx - mn) + mn) as u16
    }
}

/// Pixel `i` of the block at `dp`.
pub open spec fn arw2_pixel(buf: Seq<u8>, dp: int, i: int) -> u16 {
    arw2_value(buf, dp, i, arw2_max(buf, dp), arw2_min(buf, dp), arw2_imax(buf, dp), arw2_imin(buf, dp))
}

/// Pixel `i` reads no byte past the end of `buf`.
pub open spec fn arw2_fits(buf: Seq<u8>, dp: int, i: int, imx: int, imn: int) -> bool {
    i == imx || i == imn || dp + (30 + 7 * arw2_rank(i, imx, imn)) / 8 + 1 < buf.len()
}

/// Every code of the block at `dp` lies inside `buf`.
pub open spec fn arw2_block_ok(buf: Seq<u8>, dp: int) -> bool {
    forall|i: int| 0 <= i < 16 ==> #[trigger] arw2_fits(buf, dp, i, arw2_imax(buf, dp), arw2_imin(buf, dp))
}

fn pow2_small(k: u32) -> (r: u32)
    requires
        k < 8,
    ensures
        r == pow2_lt8(k as int),
{
    if k == 0 { 1 } else if k == 1 { 2 } else if k == 2 { 4 } else if k == 3 { 8 }
    else if k == 4 { 16 } else if k == 5 { 32 } else if k == 6 { 64 } else { 128 }
}

/// Decodes the 16 pixels of the ARW2 block at `dp` of a row buffer.
fn arw2_block(buf: &Vec<u8>, dp: usize) -> (r: Result<Vec<u16>, DecodeError>)
    requires
        dp + 16 < buf.len(),
    ensures
        r is Ok <==> arw2_block_ok(buf@, dp as int),
        r is Err ==> r matches Err(DecodeError::CorruptData(_)),
        r matches Ok(v) ==> v@ == Seq::new(16, |i: int| arw2_pixel(buf@, dp as int, i)),
{
    let header = u32_from(Endian::Little, buf[dp], buf[dp + 1], buf[dp + 2], buf[dp + 3]);
    let max_v = header % 2048;
    let min_v = (header / 2048) % 2048;
    let imax = ((header / 0x40_0000) % 16) as usize;
    let imin = ((header / 0x400_0000) % 16) as usize;
    let scale: u32 = if max_v < min_v + 128 {
        1
    } else if max_v < min_v + 256 {
        2
    } else if max_v < min_v + 512 {
        4
    } else if max_v < min_v + 1024 {
        8
    } else {
        16
    };
    let ghost g = buf@;
    let ghost mx = max_v as int;
    let ghost mn = min_v as int;
    let ghost imx = imax as int;
    let ghost imn = imin as int;
    assert(header == arw2_header(g, dp as int));
    assert(mx == arw2_max(g, dp as int) && mn == arw2_min(g, dp as int));
    assert(imx == arw2_imax(g, dp as int) && imn == arw2_imin(g, dp as int));
    let mut out: Vec<u16> = Vec::new();
    let mut bit: usize = 30;
    let mut i: usize = 0;
    while i < 16
        invariant
            g == buf@,
            dp + 16 < buf.len(),
            max_v == mx && min_v == mn && imax == imx && imin == imn,
            imx == arw2_imax(g, dp as int) && imn == arw2_imin(g, dp as int),
            scale == arw2_scale(mx - mn),
            scale <= 16,
            max_v < 2048 && min_v < 2048 && imax < 16 && imin < 16,
            0 <= i <= 16,
            bit == 30 + 7 * arw2_rank(i as int, imx, imn),
            out@ == Seq::new(i as nat, |j: int| arw2_value(g, dp as int, j, mx, mn, imx, imn)),
            forall|j: int| 0 <= j < i ==> #[trigger] arw2_fits(g, dp as int, j, imx, imn),
        decreases 16 - i,
    {
        if i == imax {
            out.push(max_v as u16);
        } else if i == imin {
            out.push(min_v as u16);
        } else {
            let b = dp + bit / 8;
            if b + 1 >= buf.len() {
                assert(!arw2_fits(g, dp as int, i as int, imx, imn));
                assert(!arw2_fits(g, dp as int, i as int, arw2_imax(g, dp as int), arw2_imin(g, dp as int)));
                return Err(DecodeError::CorruptData("Sony ARW2: row buffer overread"));
            }
            let two = buf[b] as u32 + 256 * (buf[b + 1] as u32);
            let code = (two / pow2_small((bit % 8) as u32)) % 128;
            let v = (code * scale + min_v) as u16;
            assert(code == arw2_code_at(g, dp as int, bit as int));
            out.push(v);
            bit = bit + 7;
        }
        assert(arw2_fits(g, dp as int, i as int, imx, imn));
        i = i + 1;
        assert(out@ =~= Seq::new(i as nat, |j: int| arw2_value(g, dp as int, j, mx, mn, imx, imn)));
    }
    assert(forall|j: int| 0 <= j < 16 ==> #[trigger] arw2_fits(g, dp as int, j, imx, imn));
    Ok(out)
}

/// Row `y` of an ARW2 stream with rows of `ow` bytes, followed by one zero byte.
pub open spec fn arw2_row(data: Seq<u8>, ow: int, y: int) -> Seq<u8> {
    data.subrange(y * ow, y * ow + ow).push(0)
}

/// The ARW2 sample at `(y, x)`: pixel `x % 16` of the block that starts at column
/// `x - x % 16`, where that block lies wholly inside the row; zero in a trailing part
/// narrower than a block.
pub open spec fn arw2_sample(data: Seq<u8>, ow: int, y: int, x: int) -> u16 {
    let dp = x - x % 16;
    if dp + 16 <= ow {
        arw2_pixel(arw2_row(data, ow, y), dp, x % 16)
    } else {
        0
    }
}

pub open spec fn arw2_plane(data: Seq<u8>, ow: int) -> spec_fn(int, int) -> u16 {
    |y: int, x: int| arw2_sample(data, ow, y, x)
}

/// Every whole block of the first `oh` rows reads inside its row buffer.
pub open spec fn arw2_rows_ok(data: Seq<u8>, ow: int, oh: int) -> bool {
    forall|y: int, k: int| 0 <= y < oh && 0 <= k && 16 * k + 16 <= ow ==> #[trigger] arw2_block_ok(arw2_row(data, ow, y), 16 * k)
}

proof fn lemma_plane_skip_range(p: Seq<u16>, d: Dimensions, f: spec_fn(int, int) -> u16, y: int, x: int, x2: int)
    requires
        plane_filled(p, d, f, y, x),
        0 <= y,
        0 <= x <= x2,
        forall|xx: int| x <= xx < x2 ==> #[trigger] f(y, xx) == 0,
    ensures
        plane_filled(p, d, f, y, x2),
    decreases x2 - x,
{
    if x < x2 {
        lemma_plane_skip(p, d, f, y, x);
        lemma_plane_skip_range(p, d, f, y, x + 1, x2);
    }
}

/// Decodes ARW2 block-packed rows: each of `output_height` rows is `output_width` bytes of
/// 16-byte blocks, each block giving 16 pixels (see [`arw2_sample`]). White level 0x3FFF.
/// Fails with `CorruptData` for an active area outside the raster or a block whose codes
/// run past its row, and with `UnexpectedEof` where the data is short.
pub fn sony_arw2_load_raw(data: &[u8], dims: Dimensions) -> (r: Result<SonyLoadResult, DecodeError>)
    ensures
        !dims_ok(dims) ==> r matches Err(DecodeError::CorruptData(_)),
        r is Ok <==> dims_ok(dims) && data@.len() >= dims.output_width * dims.output_height
            && arw2_rows_ok(data@, dims.output_width as int, dims.output_height as int),
        r matches Err(e) ==> match e {
            DecodeError::UnexpectedEof => dims_ok(dims) && data@.len() < dims.output_width * dims.output_height,
            DecodeError::CorruptData(_) => !dims_ok(dims) || !arw2_rows_ok(data@, dims.output_width as int, dims.output_height as int),
            _ => false,
        },
        r matches Ok(res) ==> res.white_level == 0x3fff
            && plane_of(res.pixels@, dims, arw2_plane(data@, dims.output_width as int)),
{
    let mut pixels = match alloc_plane(dims) {
        Ok(p) => p,
        Err(e) => return Err(e),
    };
    let ow = dims.output_width;
    let oh = dims.output_height;
    let rw = dims.raw_width;
    let n = data.len();
    let ghost f = arw2_plane(data@, ow as int);
    proof { lemma_plane_start(pixels@, dims, f); }
    let mut y: usize = 0;
    while y < oh
        invariant
            dims_ok(dims),
            ow == dims.output_width && oh == dims.output_height && rw == dims.raw_width,
            n == data@.len(),
            f == arw2_plane(data@, ow as int),
            0 <= y <= oh,
            y * ow <= n,
            plane_filled(pixels@, dims, f, y as int, 0),
            forall|yy: int, k: int| 0 <= yy < y && 0 <= k && 16 * k + 16 <= ow ==> #[trigger] arw2_block_ok(arw2_row(data@, ow as int, yy), 16 * k),
        decreases oh - y,
    {
        let start = y * ow;
        if n - start < ow {
            assert(n < ow * oh) by (nonlinear_arith)
                requires
                    n < y * ow + ow,
                    y + 1 <= oh,
            ;
            return Err(DecodeError::UnexpectedEof);
        }
        let mut row_buf: Vec<u8> = Vec::new();
        let mut j: usize = 0;
        while j < ow
            invariant
                start + ow <= n,
                n == data@.len(),
                0 <= j <= ow,
                row_buf@ == data@.subrange(start as int, start + j),
            decreases ow - j,
        {
            row_buf.push(data[start + j]);
            j = j + 1;
            assert(row_buf@ =~= data@.subrange(start as int, start + j));
        }
        row_buf.push(0);
        let ghost row = arw2_row(data@, ow as int, y as int);
        assert(row_buf@ =~= row);
        let mut dp: usize = 0;
        while ow - dp >= 16
            invariant
                dims_ok(dims),
                ow == dims.output_width && oh == dims.output_height && rw == dims.raw_width,
                f == arw2_plane(data@, ow as int),
                0 <= y < oh,
                row_buf@ == row,
                row == arw2_row(data@, ow as int, y as int),
                row_buf@.len() == ow + 1,
                dp % 16 == 0,
                dp <= ow,
                plane_filled(pixels@, dims, f, y as int, dp as int),
                forall|k: int| 0 <= k && 16 * k < dp ==> #[trigger] arw2_block_ok(row, 16 * k),
            decreases ow - dp,
        {
            let block = match arw2_block(&row_buf, dp) {
                Ok(b) => b,
                Err(e) => {
                    assert(16 * (dp as int / 16) == dp);
                    assert(!arw2_block_ok(arw2_row(data@, ow as int, y as int), 16 * (dp as int / 16)));
                    assert(!arw2_rows_ok(data@, ow as int, oh as int));
                    return Err(e);
                },
            };
            let mut i: usize = 0;
            while i < 16
                invariant
                    dims_ok(dims),
                    ow == dims.output_width && oh == dims.output_height && rw == dims.raw_width,
                    f == arw2_plane(data@, ow as int),
                    0 <= y < oh,
                    dp % 16 == 0,
                    dp + 16 <= ow,
                    row == arw2_row(data@, ow as int, y as int),
                    block@ == Seq::new(16, |t: int| arw2_pixel(row, dp as int, t)),
                    0 <= i <= 16,
                    plane_filled(pixels@, dims, f, y as int, dp + i),
                decreases 16 - i,
            {
                proof {
                    lemma_plane_set(pixels@, dims, f, y as int, dp + i);
                    assert((dp + i) % 16 == i as int);
                    assert(f(y as int, dp + i) == block@[i as int]);
                }
                pixels.set(y * rw + dp + i, block[i]);
                i = i + 1;
            }
            assert(arw2_block_ok(row, 16 * (dp as int / 16)));
            dp = dp + 16;
        }
        proof {
            assert forall|xx: int| dp <= xx < ow implies #[trigger] f(y as int, xx) == 0 by {
                assert(xx - xx % 16 >= dp);
            }
            lemma_plane_skip_range(pixels@, dims, f, y as int, dp as int, ow as int);
            lemma_plane_next_row(pixels@, dims, f, y as int);
            assert forall|k: int| 0 <= k && 16 * k + 16 <= ow implies #[trigger] arw2_block_ok(row, 16 * k) by {
                assert(16 * k < dp);
            }
        }
        y = y + 1;
        assert(y * ow <= n) by (nonlinear_arith)
            requires
                start == (y - 1) * ow,
                start + ow <= n,
        ;
    }
    proof {
        lemma_plane_done(pixels@, dims, f);
        assert(ow * oh <= n) by (nonlinear_arith)
            requires
                y * ow <= n,
                y == oh,
        ;
    }
    Ok(SonyLoadResult { pixels, white_level: 0x3fff })
}

/// Entry `i` of the Huffman lookup table of Sony's lossless-JPEG stream. The table is
/// unpacked from eighteen words `(c << 8) | s` (code length `c`, symbol `s`): each word
/// fills `32768 >> c` consecutive entries, starting at index 1; index 0 holds the peek
/// width 15.
pub open spec fn sony_huff_value(i: int) -> u16 {
    if i == 0 {
        15
    } else if i < 2 {
        0x0f11
    } else if i < 3 {
        0x0f10
    } else if i < 5 {
        0x0e0f
    } else if i < 9 {
        0x0d0e
    } else if i < 17 {
        0x0c0d
    } else if i < 33 {
        0x0b0c
    } else if i < 65 {
        0x0a0b
    } else if i < 129 {
        0x090a
    } else if i < 257 {
        0x0809
    } else if i < 513 {
        0x0708
    } else if i < 1025 {
        0x0607
    } else if i < 2049 {
        0x0506
    } else if i < 4097 {
        0x0405
    } else if i < 8193 {
        0x0304
    } else if i < 12289 {
        0x0303
    } else if i < 16385 {
        0x0300
    } else if i < 24577 {
        0x0202
    } else if i < 32769 {
        0x0201
    } else {
        0
    }
}

fn fill_run(huff: &mut Vec<u16>, lo: usize, hi: usize, v: u16)
    requires
        lo <= hi <= old(huff)@.len(),
    ensures
        final(huff)@.len() == old(huff)@.len(),
        forall|i: int| 0 <= i < old(huff)@.len() ==> #[trigger] final(huff)@[i] == if lo <= i < hi { v } else { old(huff)@[i] },
{
    let mut i = lo;
    while i < hi
        invariant
            lo <= i <= hi <= huff@.len(),
            huff@.len() == old(huff)@.len(),
            forall|j: int| 0 <= j < old(huff)@.len() ==> #[trigger] huff@[j] == if lo <= j < i { v } else { old(huff)@[j] },
        decreases hi - i,
    {
        huff.set(i, v);
        i = i + 1;
    }
}

/// The Huffman lookup table of Sony's lossless-JPEG stream (see [`sony_huff_value`]).
pub fn build_sony_huff_table() -> (r: Vec<u16>)
    ensures
        r@ == Seq::new(32770, |i: int| sony_huff_value(i)),
        huff_table_ok(r@),
{
    let mut huff = vec![0u16; 32770];
    huff.set(0, 15);
    fill_run(&mut huff, 1, 2, 0x0f11);
    fill_run(&mut huff, 2, 3, 0x0f10);
    fill_run(&mut huff, 3, 5, 0x0e0f);
    fill_run(&mut huff, 5, 9, 0x0d0e);
    fill_run(&mut huff, 9, 17, 0x0c0d);
    fill_run(&mut huff, 17, 33, 0x0b0c);
    fill_run(&mut huff, 33, 65, 0x0a0b);
    fill_run(&mut huff, 65, 129, 0x090a);
    fill_run(&mut huff, 129, 257, 0x0809);
    fill_run(&mut huff, 257, 513, 0x0708);
    fill_run(&mut huff, 513, 1025, 0x0607);
    fill_run(&mut huff, 1025, 2049, 0x0506);
    fill_run(&mut huff, 2049, 4097, 0x0405);
    fill_run(&mut huff, 4097, 8193, 0x0304);
    fill_run(&mut huff, 8193, 12289, 0x0303);
    fill_run(&mut huff, 12289, 16385, 0x0300);
    fill_run(&mut huff, 16385, 24577, 0x0202);
    fill_run(&mut huff, 24577, 32769, 0x0201);
    assert(huff@ =~= Seq::new(32770, |i: int| sony_huff_value(i)));
    huff
}

/// The Huffman table of Sony's lossless-JPEG stream as a sequence.
pub open spec fn sony_huff_table() -> Seq<u16> {
    Seq::new(32770, |i: int| sony_huff_value(i))
}

/// Decoding steps per column of a raster with `rh` rows: the even rows below `rh`, then,
/// where `rh` is even, the odd rows (a single step at row 1 where `rh` is zero).
pub open spec fn ljpeg_col_steps(rh: int) -> int {
    if rh % 2 == 1 { (rh + 1) / 2 } else if rh == 0 { 1 } else { rh }
}

/// The row of step `j` within a column.
pub open spec fn ljpeg_row(rh: int, j: int) -> int {
    if rh % 2 == 1 || j < rh / 2 { 2 * j } else { 2 * (j - rh / 2) + 1 }
}

/// Whether the scan visits row `y` (odd rows only where `rh` is even).
pub open spec fn ljpeg_visits(rh: int, y: int) -> bool {
    rh % 2 == 0 || y % 2 == 0
}

/// The step, counted over the whole scan from 0, that decodes `(y, x)`: columns run from
/// right to left.
pub open spec fn ljpeg_step_of(rw: int, rh: int, y: int, x: int) -> int {
    (rw - 1 - x) * ljpeg_col_steps(rh) + (if y % 2 == 0 { y / 2 } else { rh / 2 + y / 2 })
}

/// The bit reader's state before the first step.
pub open spec fn ljpeg_start() -> BitState {
    BitState { pos: 0, bitbuf: 0, vbits: 0, reset: false }
}

/// The reader state and the accumulator after `t` steps; `Err` once a difference fails
/// to decode or the accumulator leaves `0..4096`.
pub open spec fn ljpeg_run(data: Seq<u8>, zero_after_ff: bool, dng_version: Option<u32>, t: nat) -> (BitState, Result<int, ()>)
    decreases t,
{
    if t == 0 {
        (ljpeg_start(), Ok(0))
    } else {
        let (s, acc) = ljpeg_run(data, zero_after_ff, dng_version, (t - 1) as nat);
        match acc {
            Err(_) => (s, Err(())),
            Ok(acc) => {
                let (s2, d) = ljpeg_diff_spec(data, zero_after_ff, dng_version, s, sony_huff_table());
                match d {
                    Err(_) => (s2, Err(())),
                    Ok(d) => if 0 <= acc + d < 4096 { (s2, Ok(acc + d)) } else { (s2, Err(())) },
                }
            },
        }
    }
}

/// The sample at `(y, x)`: the accumulator after its step where the scan visits row `y`.
pub open spec fn ljpeg_sample(data: Seq<u8>, zero_after_ff: bool, dng_version: Option<u32>, rw: int, rh: int, y: int, x: int) -> u16 {
    if ljpeg_visits(rh, y) {
        ljpeg_run(data, zero_after_ff, dng_version, (ljpeg_step_of(rw, rh, y, x) + 1) as nat).1->Ok_0 as u16
    } else {
        0
    }
}

/// The sample at `(y, x)` once the first `t` steps have run: zero where its step has not.
pub open spec fn ljpeg_partial(data: Seq<u8>, zero_after_ff: bool, dng_version: Option<u32>, d: Dimensions, y: int, x: int, t: int) -> u16 {
    if y < d.output_height && ljpeg_visits(d.raw_height as int, y) && ljpeg_step_of(d.raw_width as int, d.raw_height as int, y, x) < t {
        ljpeg_sample(data, zero_after_ff, dng_version, d.raw_width as int, d.raw_height as int, y, x)
    } else {
        0
    }
}

proof fn lemma_ljpeg_step_of(rw: int, rh: int, col: int, j: int)
    requires
        0 <= col < rw,
        0 <= j < ljpeg_col_steps(rh),
        rh >= 0,
    ensures
        ljpeg_step_of(rw, rh, ljpeg_row(rh, j), col) == (rw - 1 - col) * ljpeg_col_steps(rh) + j,
        ljpeg_visits(rh, ljpeg_row(rh, j)),
        0 <= ljpeg_row(rh, j),
        rh > 0 ==> ljpeg_row(rh, j) < rh,
{
}

proof fn lemma_ljpeg_step_bounds(rw: int, rh: int, y: int, x: int, col: int)
    requires
        0 <= y < rh,
        0 <= x < rw,
        0 <= col < rw,
        ljpeg_visits(rh, y),
    ensures
        0 <= ljpeg_step_of(rw, rh, y, x) - (rw - 1 - x) * ljpeg_col_steps(rh) < ljpeg_col_steps(rh),
        x > col ==> ljpeg_step_of(rw, rh, y, x) < (rw - 1 - col) * ljpeg_col_steps(rh),
        x < col ==> ljpeg_step_of(rw, rh, y, x) >= (rw - col) * ljpeg_col_steps(rh),
{
    let k = ljpeg_col_steps(rh);
    if x > col {
        assert((rw - 1 - x) * k + k <= (rw - 1 - col) * k) by (nonlinear_arith)
            requires
                x > col,
                k >= 0,
        ;
    }
    if x < col {
        assert((rw - 1 - x) * k >= (rw - col) * k) by (nonlinear_arith)
            requires
                x < col,
                k >= 0,
        ;
    }
}

proof fn lemma_ljpeg_step_distinct(rw: int, rh: int, y: int, x: int, row: int, col: int)
    requires
        0 <= y < rh,
        0 <= row,
        0 <= x < rw,
        0 <= col < rw,
        ljpeg_visits(rh, y),
        ljpeg_visits(rh, row),
        row < rh,
        y != row,
        x == col,
    ensures
        ljpeg_step_of(rw, rh, y, x) != ljpeg_step_of(rw, rh, row, col),
{
    let jy = if y % 2 == 0 { y / 2 } else { rh / 2 + y / 2 };
    let jr = if row % 2 == 0 { row / 2 } else { rh / 2 + row / 2 };
    if y % 2 == 0 && row % 2 == 1 {
        assert(jy < rh / 2);
    } else if y % 2 == 1 && row % 2 == 0 {
        assert(jr < rh / 2);
    }
    assert(jy != jr);
}

/// Decodes Sony's legacy lossless-JPEG stream: columns from right to left, in each the
/// even rows below `raw_height` and then, where `raw_height` is even, the odd rows; every
/// step adds one difference to a running accumulator that must stay within 12 bits, and
/// rows inside the active area store it (see [`ljpeg_run`]). White level 0x0FFF.
pub fn sony_arw_load_raw_from_stream(data: &[u8], dims: Dimensions, zero_after_ff: bool,
    dng_version: Option<u32>) -> (r: Result<SonyLoadResult, DecodeError>)
    ensures
        !dims_ok(dims) ==> r matches Err(DecodeError::CorruptData(_)),
        dims_ok(dims) && dims.raw_height <= usize::MAX - 3 ==> (r is Ok <==> ljpeg_run(data@, zero_after_ff,
            dng_version, (dims.raw_width * ljpeg_col_steps(dims.raw_height as int)) as nat).1 is Ok),
        r is Err ==> r matches Err(DecodeError::CorruptData(_)),
        dims.raw_height > usize::MAX - 3 ==> r is Err,
        r matches Ok(res) ==> {
            &&& res.white_level == 0x0fff
            &&& res.pixels@.len() == dims.raw_width * dims.raw_height
            &&& forall|y: int, x: int| 0 <= y < dims.raw_height && 0 <= x < dims.raw_width
                ==> #[trigger] res.pixels@[plane_index(dims.raw_width as int, y, x)] == if y < dims.output_height {
                    ljpeg_sample(data@, zero_after_ff, dng_version, dims.raw_width as int, dims.raw_height as int, y, x)
                } else {
                    0
                }
        },
{
    let mut pixels = match alloc_plane(dims) {
        Ok(p) => p,
        Err(e) => return Err(e),
    };
    let mut bs = JpegBitstream::new(data);
    bs.set_zero_after_ff(zero_after_ff);
    bs.set_dng_version(dng_version);
    bs.reset_state();
    let huff = build_sony_huff_table();
    let rw = dims.raw_width;
    let rh = dims.raw_height;
    let oh = dims.output_height;
    if rh > usize::MAX - 3 {
        return Err(DecodeError::CorruptData("raster size overflow"));
    }
    let ghost k = ljpeg_col_steps(rh as int);
    proof {
        assert forall|y: int, x: int| 0 <= y < rh && 0 <= x < rw implies #[trigger] pixels@[plane_index(rw as int, y, x)]
            == ljpeg_partial(data@, zero_after_ff, dng_version, dims, y, x, 0) by {
            lemma_plane_index_bounds(rw as int, rh as int, y, x);
            if ljpeg_visits(rh as int, y) {
                lemma_ljpeg_step_bounds(rw as int, rh as int, y, x, x);
                assert(0 <= (rw - 1 - x) * k) by (nonlinear_arith)
                    requires
                        x < rw,
                        k >= 0,
                ;
            }
        }
    }
    let mut acc: i32 = 0;
    let mut col: usize = rw;
    let ghost mut t: int = 0;
    while col > 0
        invariant
            dims_ok(dims),
            rw == dims.raw_width && rh == dims.raw_height && oh == dims.output_height,
            rh <= usize::MAX - 3,
            k == ljpeg_col_steps(rh as int),
            bs.wf(),
            bs.input() == data@,
            bs.stuffing() == zero_after_ff,
            bs.dng() == dng_version,
            huff@ == sony_huff_table(),
            huff_table_ok(huff@),
            col <= rw,
            t == (rw - col) * k,
            ljpeg_run(data@, zero_after_ff, dng_version, t as nat) == (bs.state(), Ok::<int, ()>(acc as int)),
            0 <= acc < 4096,
            pixels@.len() == rw * rh,
            forall|y: int, x: int| 0 <= y < rh && 0 <= x < rw ==> #[trigger] pixels@[plane_index(rw as int, y, x)]
                == ljpeg_partial(data@, zero_after_ff, dng_version, dims, y, x, t),
        decreases col,
    {
        col = col - 1;
        let mut row: usize = 0;
        let mut wrapped = false;
        let ghost mut j: int = 0;
        while row <= rh
            invariant
                dims_ok(dims),
                rw == dims.raw_width && rh == dims.raw_height && oh == dims.output_height,
                rh <= usize::MAX - 3,
                k == ljpeg_col_steps(rh as int),
                bs.wf(),
                bs.input() == data@,
                bs.stuffing() == zero_after_ff,
                bs.dng() == dng_version,
                huff@ == sony_huff_table(),
                huff_table_ok(huff@),
                col < rw,
                0 <= j <= k,
                row <= rh + 3,
                !wrapped ==> row == 2 * j && (rh % 2 == 1 || j <= rh / 2),
                wrapped ==> rh % 2 == 0 && j >= rh / 2 && row == 2 * (j - rh / 2) - 1 + 2,
                (row <= rh) == (j < k),
                t == (rw - 1 - col) * k + j,
                ljpeg_run(data@, zero_after_ff, dng_version, t as nat) == (bs.state(), Ok::<int, ()>(acc as int)),
                0 <= acc < 4096,
                pixels@.len() == rw * rh,
                forall|y: int, x: int| 0 <= y < rh && 0 <= x < rw ==> #[trigger] pixels@[plane_index(rw as int, y, x)]
                    == ljpeg_partial(data@, zero_after_ff, dng_version, dims, y, x, t),
            decreases (if wrapped { 0int } else { rh + 3 }) + rh + 3 - row,
        {
            if row == rh {
                row = 1;
                wrapped = true;
            }
            assert(row == ljpeg_row(rh as int, j));
            assert(t + 1 <= rw * k) by (nonlinear_arith)
                requires
                    t == (rw - 1 - col) * k + j,
                    0 <= j < k,
                    0 <= col < rw,
            ;
            let diff = match bs.ljpeg_diff(&huff) {
                Ok(d) => d,
                Err(e) => {
                    proof { lemma_ljpeg_run_stays_err(data@, zero_after_ff, dng_version, (t + 1) as nat, (rw * k) as nat); }
                    return Err(e);
                },
            };
            acc = acc + diff;
            if acc < 0 || acc >= 4096 {
                proof { lemma_ljpeg_run_stays_err(data@, zero_after_ff, dng_version, (t + 1) as nat, (rw * k) as nat); }
                return Err(DecodeError::CorruptData("Sony ARW: accumulator overflow"));
            }
            let ghost t0 = t;
            let ghost p0 = pixels@;
            proof {
                assert(ljpeg_run(data@, zero_after_ff, dng_version, (t0 + 1) as nat) == (bs.state(), Ok::<int, ()>(acc as int)));
                t = t + 1;
                lemma_ljpeg_step_of(rw as int, rh as int, col as int, j);
                assert((rw - 1 - col) * k + k == (rw - col) * k) by (nonlinear_arith);
            }
            if row < oh {
                let ghost before = pixels@;
                proof { lemma_plane_index_bounds(rw as int, rh as int, row as int, col as int); }
                pixels.set(row * rw + col, acc as u16);
                proof {
                    assert forall|y: int, x: int| 0 <= y < rh && 0 <= x < rw implies #[trigger] pixels@[plane_index(rw as int, y, x)]
                        == ljpeg_partial(data@, zero_after_ff, dng_version, dims, y, x, t) by {
                        lemma_plane_index_bounds(rw as int, rh as int, y, x);
                        assert(p0[plane_index(rw as int, y, x)] == ljpeg_partial(data@, zero_after_ff, dng_version, dims, y, x, t0));
                        if y != row || x != col {
                            lemma_plane_index_distinct(rw as int, y, x, row as int, col as int);
                            if ljpeg_visits(rh as int, y) {
                                lemma_ljpeg_step_bounds(rw as int, rh as int, y, x, col as int);
                                if x == col {
                                    lemma_ljpeg_step_distinct(rw as int, rh as int, y, x, row as int, col as int);
                                }
                            }
                        }
                    }
                }
            } else {
                proof {
                    assert forall|y: int, x: int| 0 <= y < rh && 0 <= x < rw implies #[trigger] pixels@[plane_index(rw as int, y, x)]
                        == ljpeg_partial(data@, zero_after_ff, dng_version, dims, y, x, t) by {
                        assert(p0[plane_index(rw as int, y, x)] == ljpeg_partial(data@, zero_after_ff, dng_version, dims, y, x, t0));
                        if ljpeg_visits(rh as int, y) && y < oh {
                            lemma_ljpeg_step_bounds(rw as int, rh as int, y, x, col as int);
                            if x == col {
                                lemma_ljpeg_step_distinct(rw as int, rh as int, y, x, row as int, col as int);
                            }
                        }
                    }
                }
            }
            row = row + 2;
            proof { j = j + 1; }
        }
        proof {
            assert((rw - 1 - col) * k + k == (rw - col) * k) by (nonlinear_arith);
        }
    }
    proof {
        assert forall|y: int, x: int| 0 <= y < rh && 0 <= x < rw implies #[trigger] pixels@[plane_index(rw as int, y, x)]
            == if y < oh { ljpeg_sample(data@, zero_after_ff, dng_version, rw as int, rh as int, y, x) } else { 0 } by {
            if ljpeg_visits(rh as int, y) {
                lemma_ljpeg_step_bounds(rw as int, rh as int, y, x, 0);
                assert((rw - 1 - x) * k + k <= rw * k) by (nonlinear_arith)
                    requires
                        0 <= x < rw,
                        k >= 0,
                ;
            }
        }
    }
    Ok(SonyLoadResult { pixels, white_level: 0x0fff })
}

/// Once a step fails, every longer run fails too.
proof fn lemma_ljpeg_run_stays_err(data: Seq<u8>, zero_after_ff: bool, dng_version: Option<u32>, t: nat, u: nat)
    requires
        ljpeg_run(data, zero_after_ff, dng_version, t).1 is Err,
        t <= u,
    ensures
        ljpeg_run(data, zero_after_ff, dng_version, u).1 is Err,
    decreases u - t,
{
    if t < u {
        lemma_ljpeg_run_stays_err(data, zero_after_ff, dng_version, t + 1, u);
    }
}

/// In every block the max position holds max, and a distinct min position holds min,
/// including where max equals min.
pub proof fn lemma_arw2_extremes(buf: Seq<u8>, dp: int)
    ensures
        arw2_pixel(buf, dp, arw2_imax(buf, dp)) == arw2_max(buf, dp) as u16,
        arw2_imin(buf, dp) != arw2_imax(buf, dp) ==> arw2_pixel(buf, dp, arw2_imin(buf, dp)) == arw2_min(buf, dp) as u16,
{
}

/// A block whose max equals its min and whose codes are all zero holds min at every
/// position; the max and min positions still hold max and min.
pub proof fn lemma_arw2_flat_block(buf: Seq<u8>, dp: int)
    requires
        arw2_max(buf, dp) == arw2_min(buf, dp),
        forall|i: int| 0 <= i < 16 && i != arw2_imax(buf, dp) && i != arw2_imin(buf, dp)
            ==> #[trigger] arw2_code_at(buf, dp, 30 + 7 * arw2_rank(i, arw2_imax(buf, dp), arw2_imin(buf, dp))) == 0,
    ensures
        forall|i: int| 0 <= i < 16 ==> #[trigger] arw2_pixel(buf, dp, i) == arw2_min(buf, dp) as u16,
        arw2_pixel(buf, dp, arw2_imax(buf, dp)) == arw2_max(buf, dp) as u16,
        arw2_pixel(buf, dp, arw2_imin(buf, dp)) == arw2_min(buf, dp) as u16,
{
    assert forall|i: int| 0 <= i < 16 implies #[trigger] arw2_pixel(buf, dp, i) == arw2_min(buf, dp) as u16 by {
        if i != arw2_imax(buf, dp) && i != arw2_imin(buf, dp) {
            assert(arw2_code_at(buf, dp, 30 + 7 * arw2_rank(i, arw2_imax(buf, dp), arw2_imin(buf, dp))) == 0);
        }
    }
}

proof fn lemma_sum_nonneg(s: Seq<u64>)
    ensures
        sum_of(s) >= 0,
    decreases s.len(),
{
    if s.len() > 0 {
        lemma_sum_nonneg(s.drop_last());
    }
}

proof fn lemma_strips_concat_len(data: Seq<u8>, offsets: Seq<u64>, counts: Seq<u64>)
    requires
        offsets.len() == counts.len(),
        strips_in_range(data, offsets, counts),
    ensures
        strips_concat(data, offsets, counts).len() == sum_of(counts),
    decreases offsets.len(),
{
    if offsets.len() > 0 {
        let o = offsets.drop_last();
        let c = counts.drop_last();
        assert forall|k: int| 0 <= k < o.len() implies #[trigger] o[k] + c[k] <= data.len() by {
            assert(offsets[k] + counts[k] <= data.len());
        }
        lemma_strips_concat_len(data, o, c);
        assert(offsets[offsets.len() - 1] + counts[counts.len() - 1] <= data.len());
    }
}

/// Reading the concatenation of the strips back at a strip's position gives exactly the
/// bytes that strip names in the file.
pub proof fn lemma_strip_readback(data: Seq<u8>, offsets: Seq<u64>, counts: Seq<u64>, k: int)
    requires
        offsets.len() == counts.len(),
        strips_in_range(data, offsets, counts),
        0 <= k < offsets.len(),
    ensures
        strips_concat(data, offsets, counts).subrange(strip_start(counts, k), strip_start(counts, k) + counts[k])
            == data.subrange(offsets[k] as int, offsets[k] + counts[k]),
    decreases offsets.len(),
{
    let n = offsets.len() - 1;
    let o = offsets.drop_last();
    let c = counts.drop_last();
    assert forall|j: int| 0 <= j < o.len() implies #[trigger] o[j] + c[j] <= data.len() by {
        assert(offsets[j] + counts[j] <= data.len());
    }
    lemma_strips_concat_len(data, o, c);
    assert(offsets[n] + counts[n] <= data.len());
    let a = strips_concat(data, o, c);
    let last = data.subrange(offsets[n] as int, offsets[n] + counts[n]);
    assert(strips_concat(data, offsets, counts) == a + last);
    if k == n {
        assert(counts.take(k) =~= c);
        assert((a + last).subrange(a.len() as int, (a.len() + last.len()) as int) =~= last);
    } else {
        lemma_strip_readback(data, o, c, k);
        assert(c.take(k) =~= counts.take(k));
        assert(c.take(k + 1) =~= counts.take(k + 1));
        lemma_sum_of_take_step(counts, k);
        lemma_sum_prefix_le(c, k + 1);
        let lo = strip_start(counts, k);
        let hi = lo + counts[k];
        lemma_sum_nonneg(counts.take(k));
        assert(hi <= a.len());
        assert((a + last).subrange(lo, hi) =~= a.subrange(lo, hi));
    }
}

} // verus!

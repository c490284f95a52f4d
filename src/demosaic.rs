//! Bayer demosaic planning: sensor colour sites, clamped neighbourhoods, and which mosaic
//! samples each output channel averages; plus the integer part of normalisation.
use vstd::prelude::*;
use crate::sony_decoder::Dimensions;

verus! {

/// Colour filter layouts. Only RGGB is supported.
#[derive(Clone, Copy, Debug, PartialEq, Eq, Structural)]
pub enum BayerPattern {
    RGGB,
}

/// The colour that a mosaic site samples.
#[derive(Clone, Copy, Debug, PartialEq, Eq, Structural)]
pub enum CfaColor {
    R,
    G,
    B,
}

/// The colour of site `(row, col)`: R at even/even, B at odd/odd, G elsewhere.
pub open spec fn cfa_spec(row: int, col: int, pattern: BayerPattern) -> CfaColor {
    match pattern {
        BayerPattern::RGGB => if row % 2 == 0 && col % 2 == 0 {
            CfaColor::R
        } else if row % 2 == 1 && col % 2 == 1 {
            CfaColor::B
        } else {
            CfaColor::G
        },
    }
}

pub fn clamp_i32(x: i32, lo: i32, hi: i32) -> (r: i32)
    ensures
        r == if x < lo { lo } else if x > hi { hi } else { x },
{
    if x < lo {
        lo
    } else if x > hi {
        hi
    } else {
        x
    }
}

/// Position of `(row, col)` in a plane with stride `stride`.
pub fn idx(row: usize, col: usize, stride: usize) -> (r: usize)
    requires
        row * stride + col <= usize::MAX,
    ensures
        r == row * stride + col,
{
    row * stride + col
}

pub fn cfa_color_at(row: usize, col: usize, pattern: BayerPattern) -> (r: CfaColor)
    ensures
        r == cfa_spec(row as int, col as int, pattern),
{
    let r = row % 2;
    let c = col % 2;
    match pattern {
        BayerPattern::RGGB => if r == 0 && c == 0 {
            CfaColor::R
        } else if r == 1 && c == 1 {
            CfaColor::B
        } else {
            CfaColor::G
        },
    }
}

/// The divisor that normalises black-subtracted samples: `white - black`, at least 1.
pub open spec fn range_spec(black: u16, white: u16) -> int {
    if white > black { white - black } else { 1 }
}

pub fn normalization_range(black_level: u16, white_level: u16) -> (r: u16)
    ensures
        r as int == range_spec(black_level, white_level),
        r >= 1,
{
    let d = if white_level > black_level { white_level - black_level } else { 0 };
    if d < 1 { 1 } else { d }
}

/// Equal black and white levels give the divisor 1, never zero, and every sample at or
/// below that level normalises to zero.
pub proof fn lemma_equal_levels(level: u16, v: u16)
    ensures
        range_spec(level, level) == 1,
        v <= level ==> (if v > level { v - level } else { 0 }) == 0,
{
}

/// A sample with the black level taken off, floored at zero.
pub fn black_subtract(v: u16, black_level: u16) -> (r: u16)
    ensures
        r as int == if v > black_level { v - black_level } else { 0 },
{
    if v > black_level { v - black_level } else { 0 }
}

/// Up to four mosaic sites, given by row and column, whose values one channel averages.
#[derive(Clone, Copy, Debug)]
pub struct ChannelTaps {
    pub rows: [usize; 4],
    pub cols: [usize; 4],
    pub count: usize,
}

/// The sites that the red, green and blue values of one output pixel average.
#[derive(Clone, Copy, Debug)]
pub struct PixelTaps {
    pub r: ChannelTaps,
    pub g: ChannelTaps,
    pub b: ChannelTaps,
}

/// The sites of `t` as a sequence of `(row, col)` pairs.
pub open spec fn taps_of(t: ChannelTaps) -> Seq<(int, int)> {
    Seq::new(t.count as nat, |k: int| (t.rows@[k] as int, t.cols@[k] as int))
}

/// `v - 1`, but not below zero.
pub open spec fn dec_clamp(v: int) -> int {
    if v > 0 { v - 1 } else { 0 }
}

/// `v + 1`, but not above `last`.
pub open spec fn inc_clamp(v: int, last: int) -> int {
    if v + 1 > last { last } else { v + 1 }
}

/// The four direct neighbours of `(row, x)`, clamped to the active area: up, down, left, right.
pub open spec fn cross(row: int, x: int, h: int, w: int) -> Seq<(int, int)> {
    seq![(dec_clamp(row), x), (inc_clamp(row, h - 1), x), (row, dec_clamp(x)), (row, inc_clamp(x, w - 1))]
}

/// The four diagonal neighbours of `(row, x)`, clamped: up-left, up-right, down-left, down-right.
pub open spec fn diagonal(row: int, x: int, h: int, w: int) -> Seq<(int, int)> {
    seq![(dec_clamp(row), dec_clamp(x)), (dec_clamp(row), inc_clamp(x, w - 1)),
         (inc_clamp(row, h - 1), dec_clamp(x)), (inc_clamp(row, h - 1), inc_clamp(x, w - 1))]
}

/// The horizontal pair `(left, right)` of `(row, x)`, clamped.
pub open spec fn horizontal(row: int, x: int, w: int) -> Seq<(int, int)> {
    seq![(row, dec_clamp(x)), (row, inc_clamp(x, w - 1))]
}

/// The vertical pair `(up, down)` of `(row, x)`, clamped.
pub open spec fn vertical(row: int, x: int, h: int) -> Seq<(int, int)> {
    seq![(dec_clamp(row), x), (inc_clamp(row, h - 1), x)]
}

/// The column on the other side of the 2x2 cell: `x ^ 1`.
pub open spec fn partner_col(x: int) -> int {
    if x % 2 == 0 { x + 1 } else { x - 1 }
}

/// Bilinear interpolation plan of output pixel `(row, x)` in an active area of `h` rows
/// and `w` columns: a site keeps its own colour; red and blue sites take green from the
/// four direct neighbours and the opposite colour from the four diagonals; a green site
/// takes the colour that lies beside it horizontally from left and right, and the other
/// from up and down.
pub open spec fn taps_spec(row: int, x: int, h: int, w: int, pattern: BayerPattern) -> (Seq<(int, int)>, Seq<(int, int)>, Seq<(int, int)>) {
    let here = seq![(row, x)];
    match cfa_spec(row, x, pattern) {
        CfaColor::R => (here, cross(row, x, h, w), diagonal(row, x, h, w)),
        CfaColor::B => (diagonal(row, x, h, w), cross(row, x, h, w), here),
        CfaColor::G => {
            let horiz = cfa_spec(row, partner_col(x), pattern);
            let rr = if horiz == CfaColor::R { horizontal(row, x, w) } else { vertical(row, x, h) };
            let bb = if horiz == CfaColor::B { horizontal(row, x, w) } else { vertical(row, x, h) };
            (rr, here, bb)
        },
    }
}

fn one_tap(row: usize, col: usize) -> (t: ChannelTaps)
    ensures
        taps_of(t) == seq![(row as int, col as int)],
{
    let t = ChannelTaps { rows: [row, 0, 0, 0], cols: [col, 0, 0, 0], count: 1 };
    assert(taps_of(t) =~= seq![(row as int, col as int)]);
    t
}

fn two_taps(r0: usize, c0: usize, r1: usize, c1: usize) -> (t: ChannelTaps)
    ensures
        taps_of(t) == seq![(r0 as int, c0 as int), (r1 as int, c1 as int)],
{
    let t = ChannelTaps { rows: [r0, r1, 0, 0], cols: [c0, c1, 0, 0], count: 2 };
    assert(taps_of(t) =~= seq![(r0 as int, c0 as int), (r1 as int, c1 as int)]);
    t
}

fn four_taps(r0: usize, c0: usize, r1: usize, c1: usize, r2: usize, c2: usize, r3: usize, c3: usize) -> (t: ChannelTaps)
    ensures
        taps_of(t) == seq![(r0 as int, c0 as int), (r1 as int, c1 as int), (r2 as int, c2 as int), (r3 as int, c3 as int)],
{
    let t = ChannelTaps { rows: [r0, r1, r2, r3], cols: [c0, c1, c2, c3], count: 4 };
    assert(taps_of(t) =~= seq![(r0 as int, c0 as int), (r1 as int, c1 as int), (r2 as int, c2 as int), (r3 as int, c3 as int)]);
    t
}

/// The interpolation plan of output pixel `(row, x)` (see [`taps_spec`]).
pub fn bilinear_taps(dims: Dimensions, row: usize, x: usize, pattern: BayerPattern) -> (t: PixelTaps)
    requires
        row < dims.output_height,
        x < dims.output_width,
    ensures
        (taps_of(t.r), taps_of(t.g), taps_of(t.b)) == taps_spec(row as int, x as int,
            dims.output_height as int, dims.output_width as int, pattern),
        cfa_spec(row as int, x as int, pattern) == CfaColor::R ==> taps_of(t.r) == seq![(row as int, x as int)],
        cfa_spec(row as int, x as int, pattern) == CfaColor::B ==> taps_of(t.b) == seq![(row as int, x as int)],
        cfa_spec(row as int, x as int, pattern) == CfaColor::G ==> taps_of(t.g) == seq![(row as int, x as int)],
{
    let h = dims.output_height;
    let w = dims.output_width;
    let y0 = if row > 0 { row - 1 } else { 0 };
    let y2 = if row + 1 > h - 1 { h - 1 } else { row + 1 };
    let x0 = if x > 0 { x - 1 } else { 0 };
    let x2 = if x + 1 > w - 1 { w - 1 } else { x + 1 };
    let here = one_tap(row, x);
    match cfa_color_at(row, x, pattern) {
        CfaColor::R => PixelTaps {
            r: here,
            g: four_taps(y0, x, y2, x, row, x0, row, x2),
            b: four_taps(y0, x0, y0, x2, y2, x0, y2, x2),
        },
        CfaColor::B => PixelTaps {
            r: four_taps(y0, x0, y0, x2, y2, x0, y2, x2),
            g: four_taps(y0, x, y2, x, row, x0, row, x2),
            b: here,
        },
        CfaColor::G => {
            let partner = if x % 2 == 0 { x + 1 } else { x - 1 };
            let horiz = cfa_color_at(row, partner, pattern);
            let hz = two_taps(row, x0, row, x2);
            let vt = two_taps(y0, x, y2, x);
            let r = if horiz == CfaColor::R { hz } else { vt };
            let b = if horiz == CfaColor::B { hz } else { vt };
            PixelTaps { r, g: here, b }
        },
    }
}

} // verus!

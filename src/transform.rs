//! Orientation correction of a rendered RGB8 raster from the Exif Orientation tag.
use vstd::prelude::*;
use crate::exif::{ExifContext, ExifValue, ExifValueView};
use crate::sony_decoder::{DecodeError, Dimensions};

verus! {

/// Tag number of Orientation.
pub const ORIENTATION_TAG: u16 = 0x0112;

/// The orientation code that an Exif mapping records: the first element
/// of a non-empty SHORT value of tag 0x0112.
pub open spec fn orientation_of(m: Map<u16, ExifValueView>) -> Option<int> {
    if m.contains_key(ORIENTATION_TAG) {
        match m[ORIENTATION_TAG] {
            ExifValueView::Short(v) => if v.len() > 0 { Some(v[0] as int) } else { None },
            _ => None,
        }
    } else {
        None
    }
}

/// The dimensions after orientation `o`: 6 and 8 swap the active width and height.
pub open spec fn rotated_dims(o: Option<int>, d: Dimensions) -> Dimensions {
    if o == Some(6int) || o == Some(8int) {
        Dimensions { output_width: d.output_height, output_height: d.output_width, ..d }
    } else {
        d
    }
}

/// Applying orientation 6 twice gives back the dimensions it started from.
pub proof fn lemma_orientation_six_twice(d: Dimensions)
    ensures
        rotated_dims(Some(6int), rotated_dims(Some(6int), d)) == d,
{
}

/// The source byte of output byte `i` of a 270-degree rotation of a `w` x `h` RGB8
/// raster: output pixel `(x', y')` of the `h` x `w` result is input pixel `(w - 1 - y', x')`.
pub open spec fn rot270_src(w: int, h: int, i: int) -> int {
    let p = i / 3;
    let c = i % 3;
    let yp = p / h;
    let xp = p % h;
    (xp * w + (w - 1 - yp)) * 3 + c
}

/// Rotates a `w` x `h` RGB8 raster by 270 degrees into an `h` x `w` raster.
pub fn rotate270(rgb: &[u8], w: usize, h: usize) -> (r: Vec<u8>)
    requires
        w * h * 3 <= rgb.len(),
    ensures
        r@ == Seq::new((w * h * 3) as nat, |i: int| rgb@[rot270_src(w as int, h as int, i)]),
{
    let n = w * h * 3;
    let mut out: Vec<u8> = Vec::new();
    let mut i: usize = 0;
    while i < n
        invariant
            n == w * h * 3,
            n <= rgb@.len(),
            0 <= i <= n,
            out@ == Seq::new(i as nat, |j: int| rgb@[rot270_src(w as int, h as int, j)]),
        decreases n - i,
    {
        let p = i / 3;
        let c = i % 3;
        proof {
            assert(h > 0 && w > 0) by (nonlinear_arith)
                requires
                    i < w * h * 3,
            ;
            assert(p < w * h) by (nonlinear_arith)
                requires
                    p == i / 3,
                    i < w * h * 3,
            ;
        }
        let yp = p / h;
        let xp = p % h;
        proof {
            assert(yp < w) by (nonlinear_arith)
                requires
                    yp == p / h,
                    p < w * h,
                    h > 0,
            ;
            assert((xp * w + (w - 1 - yp)) * 3 + c < w * h * 3) by (nonlinear_arith)
                requires
                    xp < h,
                    yp < w,
                    c < 3,
            ;
        }
        let src = (xp * w + (w - 1 - yp)) * 3 + c;
        out.push(rgb[src]);
        i = i + 1;
        assert(out@ =~= Seq::new(i as nat, |j: int| rgb@[rot270_src(w as int, h as int, j)]));
    }
    out
}

fn copy_bytes(rgb: &[u8]) -> (r: Vec<u8>)
    ensures
        r@ == rgb@,
{
    let mut out: Vec<u8> = Vec::new();
    let mut i: usize = 0;
    while i < rgb.len()
        invariant
            0 <= i <= rgb@.len(),
            out@ == rgb@.take(i as int),
        decreases rgb@.len() - i,
    {
        out.push(rgb[i]);
        i = i + 1;
        assert(out@ =~= rgb@.take(i as int));
    }
    assert(rgb@.take(i as int) =~= rgb@);
    out
}

/// The orientation code recorded in `ctx` (see [`orientation_of`]).
pub fn read_orientation(ctx: &ExifContext) -> (r: Option<u16>)
    ensures
        r matches Some(o) ==> orientation_of(ctx@) == Some(o as int),
        r is None ==> orientation_of(ctx@) is None,
{
    match ctx.get_tag_value_by_tag(ORIENTATION_TAG) {
        Some(ExifValue::Short(v)) => if v.len() > 0 { Some(v[0]) } else { None },
        _ => None,
    }
}

/// Applies the Exif orientation to an RGB8 raster of the active area of `dims`.
/// Orientation 6 swaps the recorded width and height and keeps the bytes; 8 rotates the
/// raster by 270 degrees and swaps them; any other value, or none, keeps both. Fails with
/// `CorruptData` for orientation 8 where the raster is smaller than the active area.
pub fn auto_rotate_image(ctx: &ExifContext, rgb: &[u8], dims: &mut Dimensions) -> (r: Result<Vec<u8>, DecodeError>)
    ensures
        orientation_of(ctx@) != Some(8int) ==> (r matches Ok(v) && v@ == rgb@),
        orientation_of(ctx@) == Some(8int) ==> match r {
            Ok(v) => {
                let w = old(dims).output_width as int;
                let h = old(dims).output_height as int;
                &&& w * h * 3 <= rgb@.len()
                &&& v@ == Seq::new((w * h * 3) as nat, |i: int| rgb@[rot270_src(w, h, i)])
            },
            Err(e) => e is CorruptData && old(dims).output_width * old(dims).output_height * 3 > rgb@.len(),
        },
        r is Ok ==> *final(dims) == rotated_dims(orientation_of(ctx@), *old(dims)),
        r is Err ==> *final(dims) == *old(dims),
{
    let orientation = read_orientation(ctx);
    match orientation {
        Some(6) => {
            let w = dims.output_width;
            dims.output_width = dims.output_height;
            dims.output_height = w;
            Ok(copy_bytes(rgb))
        },
        Some(8) => {
            let w = dims.output_width;
            let h = dims.output_height;
            let wh = match w.checked_mul(h) {
                Some(p) => p,
                None => {
                    let len = rgb.len();
                    assert(w * h * 3 > rgb@.len()) by (nonlinear_arith)
                        requires
                            w * h > usize::MAX,
                            rgb@.len() == len,
                            len <= usize::MAX,
                    ;
                    return Err(DecodeError::CorruptData("Failed to create image from RGB data"));
                },
            };
            if wh > rgb.len() / 3 {
                return Err(DecodeError::CorruptData("Failed to create image from RGB data"));
            }
            let out = rotate270(rgb, w, h);
            dims.output_width = h;
            dims.output_height = w;
            Ok(out)
        },
        _ => Ok(copy_bytes(rgb)),
    }
}

} // verus!

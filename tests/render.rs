use agno_raw::demosaic::{
    bilinear_taps, black_subtract, cfa_color_at, clamp_i32, idx, normalization_range, BayerPattern,
    CfaColor, ChannelTaps,
};
use agno_raw::exif::{from_tiff, ExifContext};
use agno_raw::sony_decoder::{DecodeError, Dimensions};
use agno_raw::transform::{auto_rotate_image, rotate270};

fn dims(rw: usize, rh: usize, ow: usize, oh: usize) -> Dimensions {
    Dimensions { raw_width: rw, raw_height: rh, output_width: ow, output_height: oh }
}

fn taps(t: &ChannelTaps) -> Vec<(usize, usize)> {
    (0..t.count).map(|k| (t.rows[k], t.cols[k])).collect()
}

/// Renders one output pixel the way the demosaic engine does.
fn render(raw: &[u16], d: Dimensions, black: u16, white: u16, wb: [f32; 3], gamma: f32, row: usize, x: usize) -> [u8; 3] {
    let inv = 1.0 / normalization_range(black, white) as f32;
    let sample = |r: usize, c: usize| -> f32 {
        let v = black_subtract(raw[idx(r, c, d.raw_width)], black) as f32 * inv;
        let g = match cfa_color_at(r, c, BayerPattern::RGGB) {
            CfaColor::R => wb[0],
            CfaColor::G => wb[1],
            CfaColor::B => wb[2],
        };
        v * g
    };
    let avg = |t: &ChannelTaps| -> f32 {
        let mut s = 0.0f32;
        for k in 0..t.count {
            s += sample(t.rows[k], t.cols[k]);
        }
        match t.count {
            4 => s * 0.25,
            2 => s * 0.5,
            _ => s,
        }
    };
    let tone = |v: f32| -> u8 {
        let n = v.max(0.0).min(1.0);
        (n.powf(1.0 / gamma.max(0.001)) * 255.0 + 0.5).floor() as u8
    };
    let t = bilinear_taps(d, row, x, BayerPattern::RGGB);
    [tone(avg(&t.r)), tone(avg(&t.g)), tone(avg(&t.b))]
}

#[test]
fn flat_mosaic_renders_sixty_four() {
    let raw = vec![1000u16; 16];
    let d = dims(4, 4, 4, 4);
    for (y, x) in [(1, 1), (1, 2), (2, 1), (2, 2)] {
        assert_eq!(render(&raw, d, 0, 4000, [1.0, 1.0, 1.0], 1.0, y, x), [64, 64, 64]);
    }
}

#[test]
fn red_site_keeps_its_own_sample() {
    let raw: Vec<u16> = (0..16).map(|i| (i * 250) as u16).collect();
    let d = dims(4, 4, 4, 4);
    let t = bilinear_taps(d, 2, 2, BayerPattern::RGGB);
    assert_eq!(taps(&t.r), vec![(2, 2)]);
    let px = render(&raw, d, 0, 4000, [1.0, 1.0, 1.7], 1.0, 2, 2);
    let expected = ((raw[10] as f32 * (1.0 / 4000.0)) * 255.0 + 0.5).floor() as u8;
    assert_eq!(px[0], expected);
}

#[test]
fn neighbourhoods_clamp_at_the_border() {
    let d = dims(4, 4, 4, 4);
    let t = bilinear_taps(d, 0, 0, BayerPattern::RGGB);
    assert_eq!(taps(&t.g), vec![(0, 0), (1, 0), (0, 0), (0, 1)]);
    assert_eq!(taps(&t.b), vec![(0, 0), (0, 1), (1, 0), (1, 1)]);
    let t = bilinear_taps(d, 3, 3, BayerPattern::RGGB);
    assert_eq!(taps(&t.b), vec![(3, 3)]);
    assert_eq!(taps(&t.r), vec![(2, 2), (2, 3), (3, 2), (3, 3)]);
    // green in a red row: red beside it, blue above and below
    let t = bilinear_taps(d, 0, 1, BayerPattern::RGGB);
    assert_eq!(taps(&t.g), vec![(0, 1)]);
    assert_eq!(taps(&t.r), vec![(0, 0), (0, 2)]);
    assert_eq!(taps(&t.b), vec![(0, 1), (1, 1)]);
    // green in a blue row: blue beside it, red above and below
    let t = bilinear_taps(d, 1, 0, BayerPattern::RGGB);
    assert_eq!(taps(&t.b), vec![(1, 0), (1, 1)]);
    assert_eq!(taps(&t.r), vec![(0, 0), (2, 0)]);
}

#[test]
fn equal_levels_give_unit_range_and_black_output() {
    assert_eq!(normalization_range(700, 700), 1);
    assert_eq!(normalization_range(800, 700), 1);
    assert_eq!(normalization_range(512, 16383), 15871);
    assert_eq!(black_subtract(500, 700), 0);
    assert_eq!(black_subtract(900, 700), 200);
    let raw = vec![700u16; 16];
    let d = dims(4, 4, 4, 4);
    assert_eq!(render(&raw, d, 700, 700, [2.0, 1.0, 1.5], 2.2, 1, 1), [0, 0, 0]);
}

#[test]
fn colour_sites_and_helpers() {
    assert_eq!(cfa_color_at(0, 0, BayerPattern::RGGB), CfaColor::R);
    assert_eq!(cfa_color_at(0, 1, BayerPattern::RGGB), CfaColor::G);
    assert_eq!(cfa_color_at(1, 0, BayerPattern::RGGB), CfaColor::G);
    assert_eq!(cfa_color_at(3, 5, BayerPattern::RGGB), CfaColor::B);
    assert_eq!(clamp_i32(-1, 0, 9), 0);
    assert_eq!(clamp_i32(12, 0, 9), 9);
    assert_eq!(clamp_i32(4, 0, 9), 4);
    assert_eq!(idx(2, 3, 10), 23);
}

fn ctx_with_orientation(o: u16) -> ExifContext {
    let mut v = vec![0x49, 0x49, 0x2a, 0x00, 0x08, 0x00, 0x00, 0x00, 0x01, 0x00];
    v.extend_from_slice(&[0x12, 0x01, 0x03, 0x00, 0x01, 0x00, 0x00, 0x00]);
    v.extend_from_slice(&o.to_le_bytes());
    v.extend_from_slice(&[0, 0, 0, 0, 0, 0]);
    let (b, e, m) = from_tiff(&v, 0).unwrap();
    ExifContext::from_parts(b, e, m)
}

#[test]
fn orientation_one_keeps_bytes() {
    let rgb: Vec<u8> = (0..18).collect();
    let mut d = dims(3, 2, 3, 2);
    let out = auto_rotate_image(&ctx_with_orientation(1), &rgb, &mut d).unwrap();
    assert_eq!(out, rgb);
    assert_eq!(d, dims(3, 2, 3, 2));
    let out = auto_rotate_image(&ExifContext::new(), &rgb, &mut d).unwrap();
    assert_eq!(out, rgb);
}

#[test]
fn orientation_six_twice_restores_dimensions() {
    let rgb: Vec<u8> = (0..18).collect();
    let ctx = ctx_with_orientation(6);
    let mut d = dims(3, 2, 3, 2);
    let once = auto_rotate_image(&ctx, &rgb, &mut d).unwrap();
    assert_eq!(once, rgb);
    assert_eq!((d.output_width, d.output_height), (2, 3));
    let twice = auto_rotate_image(&ctx, &once, &mut d).unwrap();
    assert_eq!(twice, rgb);
    assert_eq!(d, dims(3, 2, 3, 2));
}

#[test]
fn orientation_eight_rotates() {
    // 2 x 1 raster: pixels A (1,2,3) and B (4,5,6); rotated 270 degrees: B above A
    let rgb = vec![1, 2, 3, 4, 5, 6];
    let mut d = dims(2, 1, 2, 1);
    let out = auto_rotate_image(&ctx_with_orientation(8), &rgb, &mut d).unwrap();
    assert_eq!(out, vec![4, 5, 6, 1, 2, 3]);
    assert_eq!((d.output_width, d.output_height), (1, 2));
    let mut d = dims(4, 4, 4, 4);
    assert!(matches!(auto_rotate_image(&ctx_with_orientation(8), &rgb, &mut d), Err(DecodeError::CorruptData(_))));
    assert_eq!(d, dims(4, 4, 4, 4));
}

#[test]
fn rotate270_of_two_by_two() {
    // a b / c d becomes b d / a c
    let rgb = vec![1, 1, 1, 2, 2, 2, 3, 3, 3, 4, 4, 4];
    assert_eq!(rotate270(&rgb, 2, 2), vec![2, 2, 2, 4, 4, 4, 1, 1, 1, 3, 3, 3]);
}

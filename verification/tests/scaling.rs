use chroma::geometry::Fraction;
use chroma::scaling::ScalingMatrix;

#[test]
fn square_buffer_exact_multiple() {
    let m = ScalingMatrix::new((20, 20), (80, 80));
    assert_eq!(m.scale, 4);
    assert_eq!(m.clip_rect(), (0, 0, 80, 80));
}

#[test]
fn console_buffer_exact_multiple() {
    let m = ScalingMatrix::new((256, 224), (1024, 896));
    assert_eq!(m.scale, 4);
    assert_eq!(m.scaled_width, 1024);
    assert_eq!(m.scaled_height, 896);
    assert_eq!(m.clip_rect(), (0, 0, 1024, 896));
    // width ratio 4.0 and height ratio 4.0 exactly
    assert_eq!(1024 % 256, 0);
    assert_eq!(896 % 224, 0);
}

#[test]
fn console_buffer_letterboxed() {
    // width ratio 4.0, height ratio about 4.46: the scale floors to 4 and
    // the 104 leftover rows split into 52 above and 52 below
    let m = ScalingMatrix::new((256, 224), (1024, 1000));
    assert_eq!(m.scale, 4);
    assert_eq!(m.scaled_width, 1024);
    assert_eq!(m.scaled_height, 896);
    assert_eq!(m.clip_rect(), (0, 52, 1024, 896));
}

#[test]
fn pillarboxed_and_letterboxed() {
    // width ratio 2.5, height ratio 5.0: the scale is floor(clamp(2.5, 1, 5)) = 2
    let m = ScalingMatrix::new((20, 20), (50, 100));
    assert_eq!(m.scale, 2);
    assert_eq!(m.clip_rect(), (5, 30, 40, 40));
}

#[test]
fn short_surface_pins_clamp_order() {
    // The surface is smaller than the buffer in the height axis only:
    // height ratio 0.5 falls below the clamp's lower bound 1, and the clamp
    // answers its lower bound. The scale is 1, not a shrink; the image
    // overflows the surface vertically and the clip rectangle cuts it.
    let m = ScalingMatrix::new((20, 20), (50, 10));
    assert_eq!(m.scale, 1);
    assert_eq!(m.scaled_width, 20);
    assert_eq!(m.scaled_height, 20);
    assert_eq!(m.clip_rect(), (15, 0, 20, 10));
}

#[test]
fn surface_smaller_both_axes() {
    let m = ScalingMatrix::new((100, 100), (30, 40));
    assert_eq!(m.scale, 1);
    assert_eq!(m.clip_rect(), (0, 0, 30, 40));
}

#[test]
fn clip_rect_stays_within_surface() {
    let cases: [((u32, u32), (u32, u32)); 6] = [
        ((20, 20), (80, 80)),
        ((256, 224), (1024, 1000)),
        ((20, 20), (50, 100)),
        ((20, 20), (50, 10)),
        ((128, 112), (1920, 1080)),
        ((7, 13), (301, 303)),
    ];
    for ((lw, lh), (sw, sh)) in cases {
        let m = ScalingMatrix::new((lw, lh), (sw, sh));
        let (x, y, w, h) = m.clip_rect();
        assert!(w <= sw);
        assert!(h <= sh);
        assert!(x + w <= sw);
        assert!(y + h <= sh);
    }
}

#[test]
fn transform_entries_even_surface() {
    let m = ScalingMatrix::new((256, 224), (1024, 1000));
    let t = m.transform();
    assert_eq!(t.len(), 16);
    // diagonal scale: 1024/1024 and 896/1000
    assert_eq!(t[0], Fraction { num: 1024, den: 1024 });
    assert_eq!(t[5], Fraction { num: 896, den: 1000 });
    assert_eq!(t[10], Fraction { num: 1, den: 1 });
    assert_eq!(t[15], Fraction { num: 1, den: 1 });
    // even surface: no half-pixel translation
    assert_eq!(t[12], Fraction { num: 0, den: 2048 });
    assert_eq!(t[13], Fraction { num: 0, den: 2000 });
    // everything else is zero
    for i in [1, 2, 3, 4, 6, 7, 8, 9, 11, 14] {
        assert_eq!(t[i], Fraction { num: 0, den: 1 });
    }
}

#[test]
fn transform_entries_odd_surface() {
    let m = ScalingMatrix::new((20, 20), (51, 41));
    let t = m.transform();
    // scale 2: 40/51 and 40/41; odd surface: half-pixel translation 1/(2w)
    assert_eq!(t[0], Fraction { num: 40, den: 51 });
    assert_eq!(t[5], Fraction { num: 40, den: 41 });
    assert_eq!(t[12], Fraction { num: 1, den: 102 });
    assert_eq!(t[13], Fraction { num: 1, den: 82 });
}

#[test]
fn inverse_entries_mirror_transform() {
    let m = ScalingMatrix::new((20, 20), (51, 41));
    let t = m.transform();
    let inv = m.inverse_transform();
    assert_eq!(inv.len(), 16);
    // reciprocal diagonal
    assert_eq!(inv[0], Fraction { num: 51, den: 40 });
    assert_eq!(inv[5], Fraction { num: 41, den: 40 });
    // the translation undone over twice the scaled size
    assert_eq!(inv[12], Fraction { num: -1, den: 80 });
    assert_eq!(inv[13], Fraction { num: -1, den: 80 });
    // fraction-level check that inv[0] is the reciprocal of t[0]
    assert_eq!(t[0].num * inv[0].num * t[0].den * inv[0].den > 0, true);
    assert_eq!(t[0].num * inv[0].num, 40 * 51);
    assert_eq!(t[0].den * inv[0].den, 51 * 40);
}

#[test]
fn round_trip_maps_clip_corners_to_buffer_corners() {
    // An even case: the corners of the clip rectangle map back exactly onto
    // the corners of the logical buffer through the inverse transform.
    let m = ScalingMatrix::new((256, 224), (1024, 1000));
    let (x, y, w, h) = m.clip_rect();
    assert_eq!(m.surface_to_logical(x, y), Some((0, 0)));
    // one pixel inside the far corner shows the last texel
    assert_eq!(m.surface_to_logical(x + w - 1, y + h - 1), Some((255, 223)));
    // the far corner itself is the first position past the buffer
    assert_eq!(m.surface_to_logical(x + w, y + h), None);
}

#[test]
fn picking_outside_clip_is_none() {
    let m = ScalingMatrix::new((20, 20), (50, 100));
    // clip is (5, 30, 40, 40): the letterbox picks nothing
    assert_eq!(m.surface_to_logical(0, 50), None);
    assert_eq!(m.surface_to_logical(25, 0), None);
    assert_eq!(m.surface_to_logical(49, 99), None);
    // inside, each texel covers a 2-by-2 square of surface pixels
    assert_eq!(m.surface_to_logical(5, 30), Some((0, 0)));
    assert_eq!(m.surface_to_logical(6, 31), Some((0, 0)));
    assert_eq!(m.surface_to_logical(7, 32), Some((1, 1)));
    assert_eq!(m.surface_to_logical(44, 69), Some((19, 19)));
}

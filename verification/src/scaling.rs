use vstd::prelude::*;
use vstd::arithmetic::div_mod::{
    lemma_basic_div, lemma_div_by_multiple, lemma_div_nonincreasing, lemma_div_of0,
    lemma_div_pos_is_pos, lemma_fundamental_div_mod, lemma_mod_division_less_than_divisor,
};
use vstd::arithmetic::mul::{
    lemma_mul_basics, lemma_mul_inequality, lemma_mul_is_commutative, lemma_mul_strictly_positive,
};
use crate::geometry::Fraction;

verus! {

// The upscale factor and the letterboxed clip rectangle.
//
// All dimensions entering this module are counts of pixels, so every axis
// ratio is an exact rational and its floor is an integer quotient. Every
// function below is stated over that integer arithmetic; nothing here
// rounds.

/// The integer upscale factor for a `logical` buffer presented on a `surface`:
/// the floor of `clamp(surface_w / logical_w, 1, surface_h / logical_h)`.
///
/// The clamp keeps its lower bound when its upper bound falls below it: when
/// the height ratio is under 1 the factor is 1, whatever the width ratio says.
/// The buffer is therefore never shrunk, only upscaled by a whole factor; a
/// surface smaller than the buffer is overflowed rather than downscaled.
pub open spec fn spec_scale(lw: int, lh: int, sw: int, sh: int) -> int {
    let wr = sw / lw;
    let hr = sh / lh;
    let smaller = if wr <= hr {
        wr
    } else {
        hr
    };
    if smaller < 1 {
        1
    } else {
        smaller
    }
}

/// Width of the upscaled buffer, in surface pixels.
pub open spec fn spec_scaled_width(lw: int, lh: int, sw: int, sh: int) -> int {
    spec_scale(lw, lh, sw, sh) * lw
}

/// Height of the upscaled buffer, in surface pixels.
pub open spec fn spec_scaled_height(lw: int, lh: int, sw: int, sh: int) -> int {
    spec_scale(lw, lh, sw, sh) * lh
}

/// Width of the clip rectangle: the upscaled width, cut to the surface.
pub open spec fn spec_clip_width(lw: int, lh: int, sw: int, sh: int) -> int {
    let scaled = spec_scaled_width(lw, lh, sw, sh);
    if scaled <= sw {
        scaled
    } else {
        sw
    }
}

/// Height of the clip rectangle: the upscaled height, cut to the surface.
pub open spec fn spec_clip_height(lw: int, lh: int, sw: int, sh: int) -> int {
    let scaled = spec_scaled_height(lw, lh, sw, sh);
    if scaled <= sh {
        scaled
    } else {
        sh
    }
}

/// Left edge of the clip rectangle: the leftover surface width split in two,
/// the odd pixel going to the right (the floor of the half).
pub open spec fn spec_clip_x(lw: int, lh: int, sw: int, sh: int) -> int {
    (sw - spec_clip_width(lw, lh, sw, sh)) / 2
}

/// Top edge of the clip rectangle, split like the left edge.
pub open spec fn spec_clip_y(lw: int, lh: int, sw: int, sh: int) -> int {
    (sh - spec_clip_height(lw, lh, sw, sh)) / 2
}

/// The fraction `0 / 1`.
pub open spec fn frac_zero() -> Fraction {
    Fraction { num: 0, den: 1 }
}

/// The fraction `1 / 1`.
pub open spec fn frac_one() -> Fraction {
    Fraction { num: 1, den: 1 }
}

/// Numerator of one axis of the transform applied to the point `xn / xd`:
/// the axis scales by `s / w` and translates by `t / (2 * w)`, so the point
/// lands on `(2 * s * xn + t * xd) / (2 * w * xd)`.
pub open spec fn spec_fwd_num(s: int, t: int, xn: int, xd: int) -> int {
    2 * s * xn + t * xd
}

/// Denominator of one axis of the transform applied to a point; see
/// `spec_fwd_num`.
pub open spec fn spec_fwd_den(w: int, xd: int) -> int {
    2 * w * xd
}

/// Numerator of one axis of the inverse transform applied to `yn / yd`: the
/// axis scales by `w / s` and translates by `-t / (2 * s)`, so the point
/// lands on `(2 * w * yn - t * yd) / (2 * s * yd)`.
pub open spec fn spec_inv_num(w: int, t: int, yn: int, yd: int) -> int {
    2 * w * yn - t * yd
}

/// Denominator of one axis of the inverse transform applied to a point; see
/// `spec_inv_num`.
pub open spec fn spec_inv_den(s: int, yd: int) -> int {
    2 * s * yd
}

/// The scaling transform: the integer upscale factor, the centered clip
/// (scissor) rectangle, and the exact normalized-device-coordinate transform
/// that maps the full-screen triangle onto the centered scaled quad.
pub struct ScalingMatrix {
    pub logical_width: u32,
    pub logical_height: u32,
    pub surface_width: u32,
    pub surface_height: u32,
    pub scale: u32,
    pub scaled_width: u32,
    pub scaled_height: u32,
    pub clip: (u32, u32, u32, u32),
}

impl ScalingMatrix {
    pub open spec fn spec_logical_width(self) -> int {
        self.logical_width as int
    }

    pub open spec fn spec_logical_height(self) -> int {
        self.logical_height as int
    }

    pub open spec fn spec_surface_width(self) -> int {
        self.surface_width as int
    }

    pub open spec fn spec_surface_height(self) -> int {
        self.surface_height as int
    }

    pub open spec fn spec_scale_factor(self) -> int {
        spec_scale(
            self.spec_logical_width(),
            self.spec_logical_height(),
            self.spec_surface_width(),
            self.spec_surface_height(),
        )
    }

    /// Every field agrees with the specification functions above.
    pub open spec fn wf(self) -> bool {
        let lw = self.spec_logical_width();
        let lh = self.spec_logical_height();
        let sw = self.spec_surface_width();
        let sh = self.spec_surface_height();
        &&& lw > 0
        &&& lh > 0
        &&& sw > 0
        &&& sh > 0
        &&& self.scale == spec_scale(lw, lh, sw, sh)
        &&& self.scaled_width == spec_scaled_width(lw, lh, sw, sh)
        &&& self.scaled_height == spec_scaled_height(lw, lh, sw, sh)
        &&& self.clip.0 == spec_clip_x(lw, lh, sw, sh)
        &&& self.clip.1 == spec_clip_y(lw, lh, sw, sh)
        &&& self.clip.2 == spec_clip_width(lw, lh, sw, sh)
        &&& self.clip.3 == spec_clip_height(lw, lh, sw, sh)
    }

    /// Computes the scaling transform for a logical buffer of `texture_size`
    /// pixels shown on a surface of `screen_size` pixels. Zero-sized inputs
    /// are ruled out: a degenerate surface (a minimized window) must be held
    /// back by the caller.
    pub fn new(texture_size: (u32, u32), screen_size: (u32, u32)) -> (m: Self)
        requires
            texture_size.0 > 0,
            texture_size.1 > 0,
            screen_size.0 > 0,
            screen_size.1 > 0,
        ensures
            m.wf(),
            m.spec_logical_width() == texture_size.0,
            m.spec_logical_height() == texture_size.1,
            m.spec_surface_width() == screen_size.0,
            m.spec_surface_height() == screen_size.1,
    {
        let (lw, lh) = texture_size;
        let (sw, sh) = screen_size;

        let width_ratio: u32 = sw / lw;
        let height_ratio: u32 = sh / lh;
        let smaller: u32 = if width_ratio <= height_ratio {
            width_ratio
        } else {
            height_ratio
        };
        let scale: u32 = if smaller < 1 {
            1
        } else {
            smaller
        };

        proof {
            lemma_scaled_size_fits(lw as int, lh as int, sw as int, sh as int);
        }
        let scaled_width: u32 = scale * lw;
        let scaled_height: u32 = scale * lh;

        let clip_width: u32 = if scaled_width <= sw {
            scaled_width
        } else {
            sw
        };
        let clip_height: u32 = if scaled_height <= sh {
            scaled_height
        } else {
            sh
        };
        let clip_x: u32 = (sw - clip_width) / 2;
        let clip_y: u32 = (sh - clip_height) / 2;

        ScalingMatrix {
            logical_width: lw,
            logical_height: lh,
            surface_width: sw,
            surface_height: sh,
            scale,
            scaled_width,
            scaled_height,
            clip: (clip_x, clip_y, clip_width, clip_height),
        }
    }

    /// The scissor rectangle `(x, y, width, height)` in surface pixels.
    pub fn clip_rect(&self) -> (r: (u32, u32, u32, u32))
        requires
            self.wf(),
        ensures
            r.0 == spec_clip_x(
                self.spec_logical_width(),
                self.spec_logical_height(),
                self.spec_surface_width(),
                self.spec_surface_height(),
            ),
            r.1 == spec_clip_y(
                self.spec_logical_width(),
                self.spec_logical_height(),
                self.spec_surface_width(),
                self.spec_surface_height(),
            ),
            r.2 == spec_clip_width(
                self.spec_logical_width(),
                self.spec_logical_height(),
                self.spec_surface_width(),
                self.spec_surface_height(),
            ),
            r.3 == spec_clip_height(
                self.spec_logical_width(),
                self.spec_logical_height(),
                self.spec_surface_width(),
                self.spec_surface_height(),
            ),
    {
        self.clip
    }

    /// The integer upscale factor.
    pub fn scale(&self) -> (s: u32)
        requires
            self.wf(),
        ensures
            s == self.spec_scale_factor(),
            s >= 1,
    {
        self.scale
    }

    /// Horizontal scale entry of the transform: upscaled width over surface
    /// width.
    pub open spec fn spec_sw_fraction(self) -> Fraction {
        Fraction { num: self.scaled_width as i64, den: self.surface_width as i64 }
    }

    /// Vertical scale entry of the transform: upscaled height over surface
    /// height.
    pub open spec fn spec_sh_fraction(self) -> Fraction {
        Fraction { num: self.scaled_height as i64, den: self.surface_height as i64 }
    }

    /// Horizontal translation entry: half a pixel, in normalized units, when
    /// the surface width is odd, so that texel centers land on pixel centers
    /// under nearest-neighbor sampling; zero when it is even.
    pub open spec fn spec_tx_fraction(self) -> Fraction {
        Fraction { num: (self.surface_width % 2) as i64, den: (2 * self.surface_width) as i64 }
    }

    /// Vertical translation entry; see `spec_tx_fraction`.
    pub open spec fn spec_ty_fraction(self) -> Fraction {
        Fraction { num: (self.surface_height % 2) as i64, den: (2 * self.surface_height) as i64 }
    }

    /// Horizontal scale entry of the inverse transform: surface width over
    /// upscaled width.
    pub open spec fn spec_inv_sw_fraction(self) -> Fraction {
        Fraction { num: self.surface_width as i64, den: self.scaled_width as i64 }
    }

    /// Vertical scale entry of the inverse transform.
    pub open spec fn spec_inv_sh_fraction(self) -> Fraction {
        Fraction { num: self.surface_height as i64, den: self.scaled_height as i64 }
    }

    /// Horizontal translation entry of the inverse transform.
    pub open spec fn spec_inv_tx_fraction(self) -> Fraction {
        Fraction { num: (-((self.surface_width as int) % 2)) as i64, den: (2 * self.scaled_width) as i64 }
    }

    /// Vertical translation entry of the inverse transform.
    pub open spec fn spec_inv_ty_fraction(self) -> Fraction {
        Fraction { num: (-((self.surface_height as int) % 2)) as i64, den: (2 * self.scaled_height) as i64 }
    }

    /// The sixteen entries of the transform, row-major: a diagonal scale
    /// `(sw, sh, 1)` with the translation `(tx, ty, 0)` in the last row
    /// (column-vector convention).
    pub open spec fn spec_transform_seq(self) -> Seq<Fraction> {
        seq![
            self.spec_sw_fraction(),
            frac_zero(),
            frac_zero(),
            frac_zero(),
            frac_zero(),
            self.spec_sh_fraction(),
            frac_zero(),
            frac_zero(),
            frac_zero(),
            frac_zero(),
            frac_one(),
            frac_zero(),
            self.spec_tx_fraction(),
            self.spec_ty_fraction(),
            frac_zero(),
            frac_one(),
        ]
    }

    /// The sixteen entries of the inverse transform, row-major: the diagonal
    /// holds the reciprocal scales and the last row undoes the translation.
    pub open spec fn spec_inverse_seq(self) -> Seq<Fraction> {
        seq![
            self.spec_inv_sw_fraction(),
            frac_zero(),
            frac_zero(),
            frac_zero(),
            frac_zero(),
            self.spec_inv_sh_fraction(),
            frac_zero(),
            frac_zero(),
            frac_zero(),
            frac_zero(),
            frac_one(),
            frac_zero(),
            self.spec_inv_tx_fraction(),
            self.spec_inv_ty_fraction(),
            frac_zero(),
            frac_one(),
        ]
    }

    /// The transform as sixteen exact fractions, row-major. A caller turns
    /// each entry into a machine float by dividing numerator by denominator;
    /// that division is the only place anything rounds.
    pub fn transform(&self) -> (t: Vec<Fraction>)
        requires
            self.wf(),
        ensures
            t@ == self.spec_transform_seq(),
            forall|i: int| 0 <= i < 16 ==> (#[trigger] t@[i]).wf(),
    {
        let zero = Fraction { num: 0, den: 1 };
        let one = Fraction { num: 1, den: 1 };
        let sw = Fraction { num: self.scaled_width as i64, den: self.surface_width as i64 };
        let sh = Fraction { num: self.scaled_height as i64, den: self.surface_height as i64 };
        let tx = Fraction {
            num: (self.surface_width % 2) as i64,
            den: 2 * (self.surface_width as i64),
        };
        let ty = Fraction {
            num: (self.surface_height % 2) as i64,
            den: 2 * (self.surface_height as i64),
        };
        let t: Vec<Fraction> = vec![
            sw, zero, zero, zero,
            zero, sh, zero, zero,
            zero, zero, one, zero,
            tx, ty, zero, one,
        ];
        proof {
            assert(t@ =~= self.spec_transform_seq());
        }
        t
    }

    /// The inverse transform as sixteen exact fractions, row-major. It is
    /// well defined because the upscaled sizes are positive whenever the
    /// inputs were; composed with the transform it is the identity
    /// (`lemma_transform_inverse_round_trip`).
    pub fn inverse_transform(&self) -> (t: Vec<Fraction>)
        requires
            self.wf(),
        ensures
            t@ == self.spec_inverse_seq(),
            forall|i: int| 0 <= i < 16 ==> (#[trigger] t@[i]).wf(),
    {
        proof {
            lemma_mul_strictly_positive(
                spec_scale(
                    self.logical_width as int,
                    self.logical_height as int,
                    self.surface_width as int,
                    self.surface_height as int,
                ),
                self.logical_width as int,
            );
            lemma_mul_strictly_positive(
                spec_scale(
                    self.logical_width as int,
                    self.logical_height as int,
                    self.surface_width as int,
                    self.surface_height as int,
                ),
                self.logical_height as int,
            );
        }
        let zero = Fraction { num: 0, den: 1 };
        let one = Fraction { num: 1, den: 1 };
        let isw = Fraction { num: self.surface_width as i64, den: self.scaled_width as i64 };
        let ish = Fraction { num: self.surface_height as i64, den: self.scaled_height as i64 };
        let itx = Fraction {
            num: -((self.surface_width % 2) as i64),
            den: 2 * (self.scaled_width as i64),
        };
        let ity = Fraction {
            num: -((self.surface_height % 2) as i64),
            den: 2 * (self.scaled_height as i64),
        };
        let t: Vec<Fraction> = vec![
            isw, zero, zero, zero,
            zero, ish, zero, zero,
            zero, zero, one, zero,
            itx, ity, zero, one,
        ];
        proof {
            assert(t@ =~= self.spec_inverse_seq());
        }
        t
    }

    /// Numerator of the exact logical coordinate shown at surface pixel `p`
    /// on the horizontal axis; the denominator is `spec_pick_den`. Obtained
    /// by sending the pixel's normalized position through the inverse
    /// transform and rescaling to texel units.
    pub open spec fn spec_pick_x_num(self, p: int) -> int {
        4 * p - 2 * self.surface_width + 2 * self.scaled_width - (self.surface_width as int) % 2
    }

    /// Numerator of the exact logical coordinate shown at surface pixel `p`
    /// on the vertical axis; see `spec_pick_x_num`.
    pub open spec fn spec_pick_y_num(self, p: int) -> int {
        4 * p - 2 * self.surface_height + 2 * self.scaled_height - (self.surface_height as int)
            % 2
    }

    /// Common denominator of the picked logical coordinates.
    pub open spec fn spec_pick_den(self) -> int {
        4 * self.scale
    }

    /// The logical texel shown at a surface position: the floors of the two
    /// exact coordinates, or nothing when the position falls on the
    /// letterbox or outside the buffer's image.
    pub open spec fn spec_pick(self, px: int, py: int) -> Option<(int, int)> {
        let d = self.spec_pick_den();
        let nx = self.spec_pick_x_num(px);
        let ny = self.spec_pick_y_num(py);
        if 0 <= nx && 0 <= ny && nx / d < self.logical_width && ny / d < self.logical_height {
            Some((nx / d, ny / d))
        } else {
            None
        }
    }

    /// Maps a surface position back to the logical texel shown there, by the
    /// inverse transform, exactly. This is the coordinate mapping a caller
    /// needs to turn a pointer position into a buffer position.
    pub fn surface_to_logical(&self, px: u32, py: u32) -> (r: Option<(u32, u32)>)
        requires
            self.wf(),
        ensures
            match (r, self.spec_pick(px as int, py as int)) {
                (Some(t), Some(s)) => t.0 == s.0 && t.1 == s.1,
                (None, None) => true,
                _ => false,
            },
    {
        let d: i64 = 4 * (self.scale as i64);
        let nx: i64 = 4 * (px as i64) - 2 * (self.surface_width as i64) + 2 * (self.scaled_width
            as i64) - ((self.surface_width % 2) as i64);
        let ny: i64 = 4 * (py as i64) - 2 * (self.surface_height as i64) + 2 * (self.scaled_height
            as i64) - ((self.surface_height % 2) as i64);
        if nx < 0 || ny < 0 {
            return None;
        }
        proof {
            lemma_div_pos_is_pos(nx as int, d as int);
            lemma_div_pos_is_pos(ny as int, d as int);
        }
        let tx: i64 = nx / d;
        if tx >= self.logical_width as i64 {
            return None;
        }
        let ty: i64 = ny / d;
        if ty >= self.logical_height as i64 {
            return None;
        }
        Some((tx as u32, ty as u32))
    }
}

/// The upscaled buffer fits in a `u32` on each axis: when the scale came from
/// an axis ratio the product stays within that axis of the surface, and when
/// the clamp forced the scale to 1 the product is the logical size itself.
/// Along the way: whenever both ratios are at least 1, the scaled buffer fits
/// inside the surface on both axes.
pub proof fn lemma_scaled_size_fits(lw: int, lh: int, sw: int, sh: int)
    requires
        lw > 0,
        lh > 0,
        sw > 0,
        sh > 0,
    ensures
        spec_scaled_width(lw, lh, sw, sh) <= if sw >= lw {
            sw
        } else {
            lw
        },
        spec_scaled_height(lw, lh, sw, sh) <= if sh >= lh {
            sh
        } else {
            lh
        },
        sw / lw >= 1 && sh / lh >= 1 ==> spec_scaled_width(lw, lh, sw, sh) <= sw
            && spec_scaled_height(lw, lh, sw, sh) <= sh,
{
    let wr = sw / lw;
    let hr = sh / lh;
    let scale = spec_scale(lw, lh, sw, sh);
    lemma_fundamental_div_mod(sw, lw);
    lemma_mod_division_less_than_divisor(sw, lw);
    lemma_fundamental_div_mod(sh, lh);
    lemma_mod_division_less_than_divisor(sh, lh);
    assert(wr * lw <= sw) by {
        assert(sw == lw * wr + sw % lw);
        lemma_mul_is_commutative(lw, wr);
    }
    assert(hr * lh <= sh) by {
        assert(sh == lh * hr + sh % lh);
        lemma_mul_is_commutative(lh, hr);
    }
    if wr >= 1 && hr >= 1 {
        lemma_mul_inequality(scale, wr, lw);
        lemma_mul_inequality(scale, hr, lh);
    } else {
        assert(scale == 1);
        assert(spec_scaled_width(lw, lh, sw, sh) == lw) by {
            lemma_mul_basics(lw);
        }
        assert(spec_scaled_height(lw, lh, sw, sh) == lh) by {
            lemma_mul_basics(lh);
        }
        if wr >= 1 {
            lemma_mul_inequality(1, wr, lw);
        }
        if hr >= 1 {
            lemma_mul_inequality(1, hr, lh);
        }
    }
}

/// The clip rectangle never leaves the surface: for any positive sizes, its
/// width and height are at most the surface's, and it lies, whole, inside the
/// surface bounds.
pub proof fn lemma_clip_rect_within_surface(lw: int, lh: int, sw: int, sh: int)
    requires
        lw > 0,
        lh > 0,
        sw > 0,
        sh > 0,
    ensures
        spec_clip_width(lw, lh, sw, sh) <= sw,
        spec_clip_height(lw, lh, sw, sh) <= sh,
        0 <= spec_clip_x(lw, lh, sw, sh),
        0 <= spec_clip_y(lw, lh, sw, sh),
        spec_clip_x(lw, lh, sw, sh) + spec_clip_width(lw, lh, sw, sh) <= sw,
        spec_clip_y(lw, lh, sw, sh) + spec_clip_height(lw, lh, sw, sh) <= sh,
{
    let scale = spec_scale(lw, lh, sw, sh);
    lemma_mul_strictly_positive(scale, lw);
    lemma_mul_strictly_positive(scale, lh);
    let cw = spec_clip_width(lw, lh, sw, sh);
    let ch = spec_clip_height(lw, lh, sw, sh);
    lemma_div_pos_is_pos(sw - cw, 2);
    lemma_div_pos_is_pos(sh - ch, 2);
    lemma_div_nonincreasing(sw - cw, 2);
    lemma_div_nonincreasing(sh - ch, 2);
}

/// When the surface is an exact whole multiple `k` of the logical buffer, the
/// scale is exactly `k` and the clip rectangle is the whole surface: the image
/// fills it with no letterbox.
pub proof fn lemma_exact_multiple_fills_surface(lw: int, lh: int, k: int)
    requires
        lw > 0,
        lh > 0,
        k >= 1,
    ensures
        spec_scale(lw, lh, k * lw, k * lh) == k,
        spec_clip_x(lw, lh, k * lw, k * lh) == 0,
        spec_clip_y(lw, lh, k * lw, k * lh) == 0,
        spec_clip_width(lw, lh, k * lw, k * lh) == k * lw,
        spec_clip_height(lw, lh, k * lw, k * lh) == k * lh,
{
    lemma_div_by_multiple(k, lw);
    lemma_div_by_multiple(k, lh);
    assert(spec_scale(lw, lh, k * lw, k * lh) == k);
    lemma_div_of0(2);
}

/// The clamp-order artifact, pinned: when the surface is shorter than the
/// logical buffer (height ratio under 1), the scale is 1 — whatever the width
/// ratio says, even when the surface is much wider than the buffer. The image
/// is then shown at natural size, cut to the surface height.
pub proof fn lemma_short_surface_keeps_scale_one(lw: int, lh: int, sw: int, sh: int)
    requires
        lw > 0,
        lh > 0,
        sw > 0,
        sh > 0,
        sh < lh,
    ensures
        spec_scale(lw, lh, sw, sh) == 1,
        spec_scaled_width(lw, lh, sw, sh) == lw,
        spec_scaled_height(lw, lh, sw, sh) == lh,
        spec_clip_height(lw, lh, sw, sh) == sh,
{
    lemma_basic_div(sh, lh);
    lemma_div_pos_is_pos(sw, lw);
    lemma_mul_basics(lw);
    lemma_mul_basics(lh);
}

/// The transform is invertible: applying the forward transform and then the
/// inverse transform to any point of an axis gives the point back, exactly,
/// as fractions. The coefficients used are exactly the entries that
/// `transform` and `inverse_transform` hand out: on the horizontal axis the
/// scale entry is `s / w` with translation `t / (2 * w)`, the inverse scale
/// entry is `w / s` with translation `-t / (2 * s)`, and likewise vertically.
pub proof fn lemma_transform_inverse_round_trip(m: ScalingMatrix, xn: int, xd: int)
    requires
        m.wf(),
        xd > 0,
    ensures
        m.spec_tx_fraction().den == 2 * m.spec_sw_fraction().den,
        m.spec_inv_sw_fraction().num == m.spec_sw_fraction().den,
        m.spec_inv_sw_fraction().den == m.spec_sw_fraction().num,
        m.spec_inv_tx_fraction().num == -m.spec_tx_fraction().num,
        m.spec_inv_tx_fraction().den == 2 * m.spec_sw_fraction().num,
        m.spec_ty_fraction().den == 2 * m.spec_sh_fraction().den,
        m.spec_inv_sh_fraction().num == m.spec_sh_fraction().den,
        m.spec_inv_sh_fraction().den == m.spec_sh_fraction().num,
        m.spec_inv_ty_fraction().num == -m.spec_ty_fraction().num,
        m.spec_inv_ty_fraction().den == 2 * m.spec_sh_fraction().num,
        ({
            let s = m.spec_sw_fraction().num as int;
            let w = m.spec_sw_fraction().den as int;
            let t = m.spec_tx_fraction().num as int;
            let yn = spec_fwd_num(s, t, xn, xd);
            let yd = spec_fwd_den(w, xd);
            let zn = spec_inv_num(w, t, yn, yd);
            let zd = spec_inv_den(s, yd);
            zd > 0 && zn * xd == xn * zd
        }),
        ({
            let s = m.spec_sh_fraction().num as int;
            let w = m.spec_sh_fraction().den as int;
            let t = m.spec_ty_fraction().num as int;
            let yn = spec_fwd_num(s, t, xn, xd);
            let yd = spec_fwd_den(w, xd);
            let zn = spec_inv_num(w, t, yn, yd);
            let zd = spec_inv_den(s, yd);
            zd > 0 && zn * xd == xn * zd
        }),
{
    lemma_mul_strictly_positive(m.spec_scale_factor(), m.logical_width as int);
    lemma_mul_strictly_positive(m.spec_scale_factor(), m.logical_height as int);
    lemma_axis_round_trip(
        m.scaled_width as int,
        m.surface_width as int,
        (m.surface_width as int) % 2,
        xn,
        xd,
    );
    lemma_axis_round_trip(
        m.scaled_height as int,
        m.surface_height as int,
        (m.surface_height as int) % 2,
        xn,
        xd,
    );
}

/// One axis of the round trip: scaling by `s / w` and translating by
/// `t / (2 * w)`, then scaling by `w / s` and translating by `-t / (2 * s)`,
/// is the identity on fractions.
proof fn lemma_axis_round_trip(s: int, w: int, t: int, xn: int, xd: int)
    requires
        s > 0,
        w > 0,
        xd > 0,
    ensures
        ({
            let yn = spec_fwd_num(s, t, xn, xd);
            let yd = spec_fwd_den(w, xd);
            let zn = spec_inv_num(w, t, yn, yd);
            let zd = spec_inv_den(s, yd);
            zd > 0 && zn * xd == xn * zd
        }),
{
    let yn = spec_fwd_num(s, t, xn, xd);
    let yd = spec_fwd_den(w, xd);
    let zn = spec_inv_num(w, t, yn, yd);
    let zd = spec_inv_den(s, yd);
    assert(yn == 2 * s * xn + t * xd && yd == 2 * w * xd);
    assert(zn == 2 * w * yn - t * yd && zd == 2 * s * yd);
    assert(2 * w * yn == 4 * (w * s) * xn + 2 * (w * t) * xd) by (nonlinear_arith)
        requires
            yn == 2 * s * xn + t * xd,
    ;
    assert(t * yd == 2 * (w * t) * xd) by (nonlinear_arith)
        requires
            yd == 2 * w * xd,
    ;
    assert(zn == 4 * (w * s) * xn);
    assert(zd == 4 * (s * w) * xd) by (nonlinear_arith)
        requires
            zd == 2 * s * yd,
            yd == 2 * w * xd,
    ;
    assert(zn * xd == xn * zd) by (nonlinear_arith)
        requires
            zn == 4 * (w * s) * xn,
            zd == 4 * (s * w) * xd,
    ;
    assert(zd > 0) by (nonlinear_arith)
        requires
            zd == 4 * (s * w) * xd,
            s > 0,
            w > 0,
            xd > 0,
    ;
}

/// The round trip through the inverse transform, at the corners of the clip
/// rectangle, when the upscaled image fits the surface: the left and top
/// corners map back to a logical coordinate within one texel below zero, the
/// right and bottom corners to within one texel below the buffer's width and
/// height, and the error vanishes — the corners map back exactly — whenever
/// the surface axis and the leftover letterbox are both even.
pub proof fn lemma_clip_corners_round_trip(m: ScalingMatrix)
    requires
        m.wf(),
        m.scaled_width <= m.surface_width,
        m.scaled_height <= m.surface_height,
    ensures
        m.spec_pick_den() >= 4,
        -m.spec_pick_den() < m.spec_pick_x_num(m.clip.0 as int) <= 0,
        -m.spec_pick_den() < m.spec_pick_y_num(m.clip.1 as int) <= 0,
        m.spec_pick_x_num(m.clip.0 + m.clip.2) == m.spec_pick_den() * m.logical_width
            + m.spec_pick_x_num(m.clip.0 as int),
        m.spec_pick_y_num(m.clip.1 + m.clip.3) == m.spec_pick_den() * m.logical_height
            + m.spec_pick_y_num(m.clip.1 as int),
        (m.surface_width as int) % 2 == 0 && (m.surface_width - m.scaled_width) % 2 == 0
            ==> m.spec_pick_x_num(m.clip.0 as int) == 0,
        (m.surface_height as int) % 2 == 0 && (m.surface_height - m.scaled_height) % 2 == 0
            ==> m.spec_pick_y_num(m.clip.1 as int) == 0,
{
    let lw = m.logical_width as int;
    let lh = m.logical_height as int;
    let sw = m.surface_width as int;
    let sh = m.surface_height as int;
    let scale = m.spec_scale_factor();
    let sx = m.scaled_width as int;
    let sy = m.scaled_height as int;
    lemma_fundamental_div_mod(sw - sx, 2);
    lemma_mod_division_less_than_divisor(sw - sx, 2);
    lemma_mod_division_less_than_divisor(sw, 2);
    lemma_fundamental_div_mod(sh - sy, 2);
    lemma_mod_division_less_than_divisor(sh - sy, 2);
    lemma_mod_division_less_than_divisor(sh, 2);
    assert(4 * sx == m.spec_pick_den() * lw) by (nonlinear_arith)
        requires
            sx == scale * lw,
            m.spec_pick_den() == 4 * scale,
    ;
    assert(4 * sy == m.spec_pick_den() * lh) by (nonlinear_arith)
        requires
            sy == scale * lh,
            m.spec_pick_den() == 4 * scale,
    ;
}

} // verus!

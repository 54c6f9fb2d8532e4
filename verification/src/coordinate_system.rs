//! Exact rational geometry for the map viewport.
//!
//! The reference image has a fixed pixel resolution. A position can be
//! expressed in reference-image pixels, as a percentage of the image extent
//! (centred, so the interval [-1/2, 1/2] spans the image), or in screen
//! pixels of the render frame. The conversions are purely multiplicative:
//! `screen = percent * frame_dimension * scale`. Working with exact rational
//! numbers keeps the forward and inverse conversions exact inverses of one
//! another, with no accumulated error.

use vstd::prelude::*;

verus! {

/// Horizontal pixel resolution of the reference map image.
pub const X_RESOLUTION: i64 = 8262;

/// Vertical pixel resolution of the reference map image.
pub const Y_RESOLUTION: i64 = 5803;

/// Subpixel units per screen pixel, used where exact rationals are quantized
/// for rendering.
pub const SUBPIX: i64 = 4096;

/// An exact rational number with a positive denominator.
#[derive(Clone, Copy, Debug, PartialEq, Eq, Structural)]
pub struct Rat {
    pub num: i64,
    pub den: i64,
}

/// A two-dimensional integer vector. Screen points and reference-image
/// positions carry their coordinates in subpixel units (`SUBPIX` units per
/// pixel); label metadata uses the same scale for dimensionless multipliers
/// (`SUBPIX` meaning a factor of one).
#[derive(Clone, Copy, Debug, PartialEq, Eq, Structural)]
pub struct Vec2 {
    pub x: i64,
    pub y: i64,
}

/// Truncating division (the semantics of `/` on Rust's signed integers),
/// for a positive divisor.
pub open spec fn trunc_div(a: int, b: int) -> int {
    if a >= 0 {
        a / b
    } else {
        -((-a) / b)
    }
}

/// Two numerator/denominator pairs denote the same rational number.
pub open spec fn frac_eq(a: (int, int), b: (int, int)) -> bool {
    a.0 * b.1 == b.0 * a.1
}

/// The value fits comfortably in a 64-bit signed integer.
pub open spec fn fits(x: int) -> bool {
    -0x7fff_ffff_ffff_ffff <= x <= 0x7fff_ffff_ffff_ffff
}

impl Rat {
    /// A well-formed rational has a positive denominator.
    pub open spec fn wf(self) -> bool {
        self.den > 0
    }

    /// The pair of mathematical integers this rational is made of.
    pub open spec fn frac(self) -> (int, int) {
        (self.num as int, self.den as int)
    }

    /// The rational `num / den`.
    pub fn new(num: i64, den: i64) -> (r: Rat)
        requires
            den > 0,
        ensures
            r == (Rat { num, den }),
            r.wf(),
    {
        Rat { num, den }
    }

    /// The rational with integer value `n`.
    pub fn from_int(n: i64) -> (r: Rat)
        ensures
            r == (Rat { num: n, den: 1 }),
            r.wf(),
    {
        Rat { num: n, den: 1 }
    }

    /// Exact product of two rationals.
    pub fn mul(self, o: Rat) -> (r: Rat)
        requires
            self.wf(),
            o.wf(),
            -0x7fff_ffff_ffff_ffff <= self.num * o.num <= 0x7fff_ffff_ffff_ffff,
            self.den * o.den <= 0x7fff_ffff_ffff_ffff,
        ensures
            r.num == self.num * o.num,
            r.den == self.den * o.den,
            r.wf(),
    {
        proof {
            assert(self.den * o.den >= 1) by (nonlinear_arith)
                requires
                    self.den >= 1,
                    o.den >= 1,
            ;
        }
        Rat { num: self.num * o.num, den: self.den * o.den }
    }

    /// Exact quotient of two rationals; the divisor must be nonzero.
    pub fn div(self, o: Rat) -> (r: Rat)
        requires
            self.wf(),
            o.wf(),
            o.num != 0,
            -0x7fff_ffff_ffff_ffff <= self.num * o.den <= 0x7fff_ffff_ffff_ffff,
            -0x7fff_ffff_ffff_ffff <= self.den * o.num <= 0x7fff_ffff_ffff_ffff,
        ensures
            r.wf(),
            frac_eq(r.frac(), (self.num * o.den, self.den * o.num)),
    {
        proof {
            assert((o.num > 0 ==> self.den * o.num > 0) && (o.num < 0 ==> self.den * o.num < 0))
                by (nonlinear_arith)
                requires
                    self.den >= 1,
            ;
        }
        if o.num > 0 {
            Rat { num: self.num * o.den, den: self.den * o.num }
        } else {
            let r = Rat { num: -(self.num * o.den), den: -(self.den * o.num) };
            proof {
                assert(r.num * (self.den * o.num) == (self.num * o.den) * r.den)
                    by (nonlinear_arith)
                    requires
                        r.num == -(self.num * o.den),
                        r.den == -(self.den * o.num),
                ;
            }
            r
        }
    }

    /// Whether two rationals denote the same number.
    pub fn eq_rat(&self, o: &Rat) -> (r: bool)
        ensures
            r == frac_eq(self.frac(), o.frac()),
    {
        proof {
            lemma_i64_product_in_i128(self.num as int, o.den as int);
            lemma_i64_product_in_i128(o.num as int, self.den as int);
        }
        (self.num as i128) * (o.den as i128) == (o.num as i128) * (self.den as i128)
    }

    /// Quantizes the rational to subpixel units, truncating toward zero.
    pub fn to_subpix(&self) -> (r: i64)
        requires
            self.wf(),
            -0x7fff_ffff_ffff_ffff <= self.num * SUBPIX <= 0x7fff_ffff_ffff_ffff,
        ensures
            r == trunc_div(self.num * SUBPIX, self.den as int),
    {
        (self.num * SUBPIX) / self.den
    }
}

/// The magnitudes of two factors bound the magnitude of their product.
pub proof fn lemma_product_bound(a: int, b: int, abound: int, bbound: int)
    requires
        -abound <= a <= abound,
        -bbound <= b <= bbound,
    ensures
        -(abound * bbound) <= a * b <= abound * bbound,
{
    assert(-(abound * bbound) <= a * b <= abound * bbound) by (nonlinear_arith)
        requires
            -abound <= a <= abound,
            -bbound <= b <= bbound,
    ;
}

/// The product of two 64-bit values fits in a 128-bit integer.
proof fn lemma_i64_product_in_i128(a: int, b: int)
    requires
        -0x8000_0000_0000_0000 <= a <= 0x8000_0000_0000_0000,
        -0x8000_0000_0000_0000 <= b <= 0x8000_0000_0000_0000,
    ensures
        -0x4000_0000_0000_0000_0000_0000_0000_0000 <= a * b
            <= 0x4000_0000_0000_0000_0000_0000_0000_0000,
{
    assert(-0x4000_0000_0000_0000_0000_0000_0000_0000 <= a * b
        <= 0x4000_0000_0000_0000_0000_0000_0000_0000) by (nonlinear_arith)
        requires
            -0x8000_0000_0000_0000 <= a <= 0x8000_0000_0000_0000,
            -0x8000_0000_0000_0000 <= b <= 0x8000_0000_0000_0000,
    ;
}

/// Screen distance of a centred percentage: `percent * frame * scale`,
/// as a pair (numerator, denominator) of mathematical integers.
pub open spec fn spec_to_screen(p: (int, int), frame: (int, int), scale: (int, int)) -> (
    int,
    int,
) {
    (p.0 * frame.0 * scale.0, p.1 * frame.1 * scale.1)
}

/// Centred percentage of a screen distance: `dist / (frame * scale)`,
/// as a pair (numerator, denominator) of mathematical integers.
pub open spec fn spec_to_percent(d: (int, int), frame: (int, int), scale: (int, int)) -> (
    int,
    int,
) {
    (d.0 * frame.1 * scale.1, d.1 * frame.0 * scale.0)
}

/// Converts between reference-image pixels, centred percentages of the image
/// extent, and screen pixels, for one render frame and zoom scale.
#[derive(Clone, Copy, Debug, PartialEq, Eq, Structural)]
pub struct CoordinateSystem {
    pub frame_width: Rat,
    pub frame_height: Rat,
    pub scale: Rat,
}

impl CoordinateSystem {
    /// A usable coordinate system has well-formed dimensions and a positive
    /// scale and frame, so every conversion can be inverted.
    pub open spec fn wf(self) -> bool {
        &&& self.frame_width.wf()
        &&& self.frame_height.wf()
        &&& self.scale.wf()
        &&& self.frame_width.num > 0
        &&& self.frame_height.num > 0
        &&& self.scale.num > 0
    }

    pub fn new(frame_width: Rat, frame_height: Rat, scale: Rat) -> (r: CoordinateSystem)
        ensures
            r == (CoordinateSystem { frame_width, frame_height, scale }),
    {
        CoordinateSystem { frame_width, frame_height, scale }
    }

    /// One horizontal reference-image pixel as a fraction of the image width.
    pub fn rel_x() -> (r: Rat)
        ensures
            r == (Rat { num: 1, den: X_RESOLUTION }),
    {
        Rat { num: 1, den: X_RESOLUTION }
    }

    /// One vertical reference-image pixel as a fraction of the image height.
    pub fn rel_y() -> (r: Rat)
        ensures
            r == (Rat { num: 1, den: Y_RESOLUTION }),
    {
        Rat { num: 1, den: Y_RESOLUTION }
    }

    /// Screen distance covered by a horizontal percentage of the image.
    pub fn x_dist_percent(&self, percent: Rat) -> (r: Rat)
        requires
            self.wf(),
            percent.wf(),
            fits(percent.num * self.frame_width.num),
            fits(percent.den * self.frame_width.den),
            fits(percent.num * self.frame_width.num * self.scale.num),
            fits(percent.den * self.frame_width.den * self.scale.den),
        ensures
            r.wf(),
            r.frac() == spec_to_screen(percent.frac(), self.frame_width.frac(), self.scale.frac()),
    {
        percent.mul(self.frame_width).mul(self.scale)
    }

    /// Screen distance covered by a vertical percentage of the image.
    pub fn y_dist_percent(&self, percent: Rat) -> (r: Rat)
        requires
            self.wf(),
            percent.wf(),
            fits(percent.num * self.frame_height.num),
            fits(percent.den * self.frame_height.den),
            fits(percent.num * self.frame_height.num * self.scale.num),
            fits(percent.den * self.frame_height.den * self.scale.den),
        ensures
            r.wf(),
            r.frac() == spec_to_screen(percent.frac(), self.frame_height.frac(), self.scale.frac()),
    {
        percent.mul(self.frame_height).mul(self.scale)
    }

    /// Screen distance covered by a horizontal distance in reference-image
    /// pixels.
    pub fn x_dist_pixels(&self, dist: Rat) -> (r: Rat)
        requires
            self.wf(),
            dist.wf(),
            fits(dist.num as int),
            fits(dist.den * X_RESOLUTION),
            fits(dist.num * self.frame_width.num),
            fits(dist.den * X_RESOLUTION * self.frame_width.den),
            fits(dist.num * self.frame_width.num * self.scale.num),
            fits(dist.den * X_RESOLUTION * self.frame_width.den * self.scale.den),
        ensures
            r.wf(),
            r.frac() == spec_to_screen(
                (dist.num as int, dist.den * X_RESOLUTION),
                self.frame_width.frac(),
                self.scale.frac(),
            ),
    {
        self.x_dist_percent(dist.mul(Self::rel_x()))
    }

    /// Screen distance covered by a vertical distance in reference-image
    /// pixels.
    pub fn y_dist_pixels(&self, dist: Rat) -> (r: Rat)
        requires
            self.wf(),
            dist.wf(),
            fits(dist.num as int),
            fits(dist.den * Y_RESOLUTION),
            fits(dist.num * self.frame_height.num),
            fits(dist.den * Y_RESOLUTION * self.frame_height.den),
            fits(dist.num * self.frame_height.num * self.scale.num),
            fits(dist.den * Y_RESOLUTION * self.frame_height.den * self.scale.den),
        ensures
            r.wf(),
            r.frac() == spec_to_screen(
                (dist.num as int, dist.den * Y_RESOLUTION),
                self.frame_height.frac(),
                self.scale.frac(),
            ),
    {
        self.y_dist_percent(dist.mul(Self::rel_y()))
    }

    /// Inverse of `x_dist_percent`: the horizontal percentage whose screen
    /// distance is `dist`.
    pub fn x_percent_from_dist(&self, dist: Rat) -> (r: Rat)
        requires
            self.wf(),
            dist.wf(),
            fits(self.frame_width.num * self.scale.num),
            fits(self.frame_width.den * self.scale.den),
            fits(dist.num * (self.frame_width.den * self.scale.den)),
            fits(dist.den * (self.frame_width.num * self.scale.num)),
        ensures
            r.wf(),
            frac_eq(
                r.frac(),
                spec_to_percent(dist.frac(), self.frame_width.frac(), self.scale.frac()),
            ),
    {
        proof {
            assert(self.frame_width.num * self.scale.num > 0) by (nonlinear_arith)
                requires
                    self.frame_width.num >= 1,
                    self.scale.num >= 1,
            ;
        }
        let fs = self.frame_width.mul(self.scale);
        let r = dist.div(fs);
        proof {
            lemma_percent_from_dist_assoc(
                r.frac(),
                dist.frac(),
                self.frame_width.frac(),
                self.scale.frac(),
            );
        }
        r
    }

    /// Inverse of `y_dist_percent`: the vertical percentage whose screen
    /// distance is `dist`.
    pub fn y_percent_from_dist(&self, dist: Rat) -> (r: Rat)
        requires
            self.wf(),
            dist.wf(),
            fits(self.frame_height.num * self.scale.num),
            fits(self.frame_height.den * self.scale.den),
            fits(dist.num * (self.frame_height.den * self.scale.den)),
            fits(dist.den * (self.frame_height.num * self.scale.num)),
        ensures
            r.wf(),
            frac_eq(
                r.frac(),
                spec_to_percent(dist.frac(), self.frame_height.frac(), self.scale.frac()),
            ),
    {
        proof {
            assert(self.frame_height.num * self.scale.num > 0) by (nonlinear_arith)
                requires
                    self.frame_height.num >= 1,
                    self.scale.num >= 1,
            ;
        }
        let fs = self.frame_height.mul(self.scale);
        let r = dist.div(fs);
        proof {
            lemma_percent_from_dist_assoc(
                r.frac(),
                dist.frac(),
                self.frame_height.frac(),
                self.scale.frac(),
            );
        }
        r
    }
}

/// Rearranging the parenthesisation of the quotient `d / (f * s)` does not
/// change the rational it denotes.
proof fn lemma_percent_from_dist_assoc(r: (int, int), d: (int, int), f: (int, int), s: (int, int))
    requires
        frac_eq(r, (d.0 * (f.1 * s.1), d.1 * (f.0 * s.0))),
    ensures
        frac_eq(r, spec_to_percent(d, f, s)),
{
    assert(r.0 * (d.1 * f.0 * s.0) == (d.0 * f.1 * s.1) * r.1) by (nonlinear_arith)
        requires
            r.0 * (d.1 * (f.0 * s.0)) == (d.0 * (f.1 * s.1)) * r.1,
    ;
}

/// Converting a centred percentage to a screen distance and back returns the
/// same percentage, for any frame and any nonzero scale: the two conversions
/// are exact inverses.
pub proof fn lemma_screen_percent_round_trip(p: (int, int), frame: (int, int), scale: (int, int))
    requires
        p.1 != 0,
        frame.1 != 0,
        scale.1 != 0,
        frame.0 != 0,
        scale.0 != 0,
    ensures
        frac_eq(spec_to_percent(spec_to_screen(p, frame, scale), frame, scale), p),
{
    let d = spec_to_screen(p, frame, scale);
    let q = spec_to_percent(d, frame, scale);
    assert(q.0 * p.1 == p.0 * q.1) by (nonlinear_arith)
        requires
            q.0 == (p.0 * frame.0 * scale.0) * frame.1 * scale.1,
            q.1 == (p.1 * frame.1 * scale.1) * frame.0 * scale.0,
    ;
}

} // verus!

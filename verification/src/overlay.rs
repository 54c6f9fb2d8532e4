//! The overlay's contract with the pannable base layer.
//!
//! The base image viewer owns the pan/zoom state; the overlay gets a
//! read-only copy of it each frame through `PubState`, an explicit published
//! structure rather than a peek into the viewer's internals. This module
//! also carries the overlay-side geometry decisions: whether the pointer is
//! within the composited bounds (interaction outside them is never
//! forwarded), when the cached overlay geometry must be recomputed, and the
//! proximity colour of a guessed marker.

use vstd::prelude::*;

use crate::colour::Rgb;
use crate::coordinate_system::{Rat, SUBPIX, Vec2, X_RESOLUTION, Y_RESOLUTION};
use crate::game::Feedback;

verus! {

/// The live pan/zoom state the base image viewer publishes to the overlay
/// on every frame. The overlay only reads it.
#[derive(Clone, Copy, Debug, PartialEq, Eq, Structural)]
pub struct PubState {
    /// Current zoom scale.
    pub scale: Rat,
    /// Pan offset at the moment the current drag started, in subpixels.
    pub starting_offset: Vec2,
    /// Current pan offset, in subpixels.
    pub current_offset: Vec2,
    /// Where the pointer grabbed the map, while a drag is active.
    pub cursor_grabbed_at: Option<Vec2>,
}

/// A screen-space rectangle in subpixel units.
#[derive(Clone, Copy, Debug, PartialEq, Eq, Structural)]
pub struct Bounds {
    pub x: i64,
    pub y: i64,
    pub width: i64,
    pub height: i64,
}

impl Bounds {
    /// A usable rectangle: non-negative extent, corners within range.
    pub open spec fn wf(self) -> bool {
        &&& 0 <= self.width
        &&& 0 <= self.height
        &&& self.x + self.width <= i64::MAX
        &&& self.y + self.height <= i64::MAX
    }

    /// Whether a point lies within the rectangle.
    pub open spec fn spec_contains(self, p: Vec2) -> bool {
        &&& self.x <= p.x < self.x + self.width
        &&& self.y <= p.y < self.y + self.height
    }

    /// Whether a point lies within the rectangle.
    pub fn contains_point(&self, p: &Vec2) -> (r: bool)
        requires
            self.wf(),
        ensures
            r == self.spec_contains(*p),
    {
        self.x <= p.x && p.x < self.x + self.width && self.y <= p.y && p.y < self.y + self.height
    }
}

/// Whether pointer interaction is forwarded to the base layer: only when
/// there is a pointer position and it lies within the composited bounds;
/// anywhere else the overlay reports no interaction, so sibling widgets
/// keep their input.
pub fn forward_interaction(bounds: &Bounds, cursor: &Option<Vec2>) -> (r: bool)
    requires
        bounds.wf(),
    ensures
        r == match *cursor {
            Some(p) => bounds.spec_contains(p),
            None => false,
        },
{
    match cursor {
        Some(p) => bounds.contains_point(p),
        None => false,
    }
}

/// The integer square root: the largest `r` with `r * r <= n`.
pub open spec fn spec_isqrt(n: nat) -> nat
    decreases n,
{
    if n == 0 {
        0
    } else {
        let h = 2 * spec_isqrt(n / 4);
        if (h + 1) * (h + 1) <= n {
            h + 1
        } else {
            h
        }
    }
}

/// The recursive integer square root is correct: its square is at most
/// `n`, and the next square is beyond `n`.
pub proof fn lemma_isqrt_correct(n: nat)
    ensures
        spec_isqrt(n) * spec_isqrt(n) <= n,
        (spec_isqrt(n) + 1) * (spec_isqrt(n) + 1) > n,
    decreases n,
{
    if n > 0 {
        lemma_isqrt_correct(n / 4);
        let q = n / 4;
        let h0 = spec_isqrt(q);
        let h = 2 * h0;
        assert(4 * q <= n < 4 * q + 4);
        assert(h * h == 4 * (h0 * h0)) by (nonlinear_arith)
            requires
                h == 2 * h0,
        ;
        assert(4 * (h0 * h0) <= 4 * q) by (nonlinear_arith)
            requires
                h0 * h0 <= q,
        ;
        assert((h + 2) * (h + 2) == 4 * ((h0 + 1) * (h0 + 1))) by (nonlinear_arith)
            requires
                h == 2 * h0,
        ;
        assert(4 * ((h0 + 1) * (h0 + 1)) >= 4 * (q + 1)) by (nonlinear_arith)
            requires
                (h0 + 1) * (h0 + 1) >= q + 1,
        ;
        let r = spec_isqrt(n);
        if (h + 1) * (h + 1) <= n {
            assert(r == h + 1);
            assert(r * r == (h + 1) * (h + 1)) by (nonlinear_arith)
                requires
                    r == h + 1,
            ;
            assert((r + 1) * (r + 1) == (h + 2) * (h + 2)) by (nonlinear_arith)
                requires
                    r == h + 1,
            ;
            assert((r + 1) * (r + 1) > n);
        } else {
            assert(r == h);
            assert(r * r == h * h) by (nonlinear_arith)
                requires
                    r == h,
            ;
            assert((r + 1) * (r + 1) == (h + 1) * (h + 1)) by (nonlinear_arith)
                requires
                    r == h,
            ;
            assert(r * r <= n);
        }
        assert(spec_isqrt(n) * spec_isqrt(n) <= n);
        assert((spec_isqrt(n) + 1) * (spec_isqrt(n) + 1) > n);
    } else {
        assert(n == 0);
        assert(spec_isqrt(n) == 0);
        assert(spec_isqrt(n) * spec_isqrt(n) <= n);
        assert((spec_isqrt(n) + 1) * (spec_isqrt(n) + 1) > n) by (nonlinear_arith)
            requires
                spec_isqrt(n) == 0,
                n == 0,
        ;
    }
}

/// Two integer square roots of the same number agree.
proof fn lemma_isqrt_unique(n: nat, a: nat, b: nat)
    requires
        a * a <= n < (a + 1) * (a + 1),
        b * b <= n < (b + 1) * (b + 1),
    ensures
        a == b,
{
    assert(a == b) by (nonlinear_arith)
        requires
            a * a <= n < (a + 1) * (a + 1),
            b * b <= n < (b + 1) * (b + 1),
    ;
}

/// Computes the integer square root by bisection.
pub fn isqrt64(n: u64) -> (r: u64)
    ensures
        r == spec_isqrt(n as nat),
        r * r <= n,
        r <= 0x1_0000_0000,
{
    let mut lo: u64 = 0;
    let mut hi: u64 = 0x1_0000_0000;
    proof {
        assert((0x1_0000_0000 as int) * (0x1_0000_0000 as int) > n as int);
    }
    while lo + 1 < hi
        invariant
            lo < hi <= 0x1_0000_0000,
            (lo as int) * (lo as int) <= n as int,
            (hi as int) * (hi as int) > n as int,
        decreases hi - lo,
    {
        let mid = lo + (hi - lo) / 2;
        proof {
            assert((mid as int) * (mid as int) <= 0x1_0000_0000 * 0x1_0000_0000)
                by (nonlinear_arith)
                requires
                    0 <= mid as int <= 0x1_0000_0000,
            ;
        }
        if (mid as u128) * (mid as u128) <= n as u128 {
            lo = mid;
        } else {
            hi = mid;
        }
    }
    proof {
        lemma_isqrt_correct(n as nat);
        lemma_isqrt_unique(n as nat, lo as nat, spec_isqrt(n as nat));
    }
    lo
}

/// Pure red, the colour of a far-off guess.
pub open spec fn spec_red() -> Rgb {
    Rgb { r: 255, g: 0, b: 0 }
}

/// Pure yellow, the midpoint of the proximity ramp.
pub open spec fn spec_yellow() -> Rgb {
    Rgb { r: 255, g: 255, b: 0 }
}

/// Pure green, the colour of a guess at the target.
pub open spec fn spec_green() -> Rgb {
    Rgb { r: 0, g: 255, b: 0 }
}

/// The colour-coded proximity of a guessed position to the target, from
/// the offset between them in subpixels of reference-image pixels. The
/// distance is normalized by the vertical image extent: beyond 0.7 the
/// marker is pure red; from 0.2 to 0.7 it blends from yellow towards red;
/// below 0.2 it blends from green towards yellow.
pub open spec fn spec_proximity_colour(dx: int, dy: int) -> Rgb {
    let d = spec_isqrt((dx * dx + dy * dy) as nat) as int;
    let unit = (Y_RESOLUTION * SUBPIX) as int;
    if 10 * d > 7 * unit {
        spec_red()
    } else if 10 * d > 2 * unit {
        Rgb {
            r: crate::colour::lerp_channel(255, 255, 10 * d - 2 * unit, 5 * unit) as u8,
            g: crate::colour::lerp_channel(255, 0, 10 * d - 2 * unit, 5 * unit) as u8,
            b: crate::colour::lerp_channel(0, 0, 10 * d - 2 * unit, 5 * unit) as u8,
        }
    } else {
        Rgb {
            r: crate::colour::lerp_channel(0, 255, 5 * d, unit) as u8,
            g: crate::colour::lerp_channel(255, 255, 5 * d, unit) as u8,
            b: crate::colour::lerp_channel(0, 0, 5 * d, unit) as u8,
        }
    }
}

/// Computes the proximity colour of a guessed position.
pub fn proximity_colour(dx: i64, dy: i64) -> (c: Rgb)
    requires
        -(X_RESOLUTION * SUBPIX) <= dx <= X_RESOLUTION * SUBPIX,
        -(Y_RESOLUTION * SUBPIX) <= dy <= Y_RESOLUTION * SUBPIX,
    ensures
        c == spec_proximity_colour(dx as int, dy as int),
{
    proof {
        assert(X_RESOLUTION * SUBPIX == 33841152);
        assert(Y_RESOLUTION * SUBPIX == 23769088);
        assert(dx * dx <= 33841152 * 33841152 && dx * dx >= 0) by (nonlinear_arith)
            requires
                -33841152 <= dx <= 33841152,
        ;
        assert(dy * dy <= 23769088 * 23769088 && dy * dy >= 0) by (nonlinear_arith)
            requires
                -23769088 <= dy <= 23769088,
        ;
    }
    let sq: u64 = ((dx * dx) as u64) + ((dy * dy) as u64);
    let d: i64 = isqrt64(sq) as i64;
    let unit: i64 = Y_RESOLUTION * SUBPIX;
    proof {
        assert(unit == 23769088);
    }
    let red = Rgb { r: 255, g: 0, b: 0 };
    let yellow = Rgb { r: 255, g: 255, b: 0 };
    let green = Rgb { r: 0, g: 255, b: 0 };
    if 10 * d > 7 * unit {
        red
    } else if 10 * d > 2 * unit {
        crate::colour::lerp_colour(&yellow, &red, 10 * d - 2 * unit, 5 * unit)
    } else {
        crate::colour::lerp_colour(&green, &yellow, 5 * d, unit)
    }
}

/// The componentwise sum of a list of positions.
pub open spec fn sum_positions(ps: Seq<Vec2>) -> (int, int)
    decreases ps.len(),
{
    if ps.len() == 0 {
        (0, 0)
    } else {
        let rest = sum_positions(ps.drop_last());
        (rest.0 + ps.last().x, rest.1 + ps.last().y)
    }
}

/// The componentwise mean of a list of positions, rounded down. A
/// multi-position station is marked at this mean when measuring proximity.
pub fn average_position(positions: &Vec<Vec2>) -> (avg: Vec2)
    requires
        1 <= positions@.len() <= 0x10_0000,
        forall|i: int|
            0 <= i < positions@.len() ==> {
                &&& 0 <= (#[trigger] positions@[i]).x <= X_RESOLUTION * SUBPIX
                &&& 0 <= positions@[i].y <= Y_RESOLUTION * SUBPIX
            },
    ensures
        avg.x == sum_positions(positions@).0 / positions@.len() as int,
        avg.y == sum_positions(positions@).1 / positions@.len() as int,
        0 <= avg.x <= X_RESOLUTION * SUBPIX,
        0 <= avg.y <= Y_RESOLUTION * SUBPIX,
{
    let n = positions.len();
    let mut sum_x: i64 = 0;
    let mut sum_y: i64 = 0;
    let mut i: usize = 0;
    while i < n
        invariant
            0 <= i <= n,
            n == positions@.len() <= 0x10_0000,
            forall|k: int|
                0 <= k < positions@.len() ==> {
                    &&& 0 <= (#[trigger] positions@[k]).x <= X_RESOLUTION * SUBPIX
                    &&& 0 <= positions@[k].y <= Y_RESOLUTION * SUBPIX
                },
            (sum_x as int, sum_y as int) == sum_positions(positions@.take(i as int)),
            0 <= sum_x <= (i as int) * (X_RESOLUTION * SUBPIX),
            0 <= sum_y <= (i as int) * (Y_RESOLUTION * SUBPIX),
        decreases n - i,
    {
        proof {
            let taken = positions@.take(i + 1);
            assert(taken.drop_last() =~= positions@.take(i as int));
            assert(taken.last() == positions@[i as int]);
            assert((i as int + 1) * (X_RESOLUTION * SUBPIX) == (i as int) * (X_RESOLUTION * SUBPIX)
                + X_RESOLUTION * SUBPIX) by (nonlinear_arith);
            assert((i as int + 1) * (Y_RESOLUTION * SUBPIX) == (i as int) * (Y_RESOLUTION * SUBPIX)
                + Y_RESOLUTION * SUBPIX) by (nonlinear_arith);
            assert((i as int) * (X_RESOLUTION * SUBPIX) <= 0x10_0000 * (X_RESOLUTION * SUBPIX))
                by (nonlinear_arith)
                requires
                    0 <= i as int <= 0x10_0000,
            ;
            assert((i as int) * (Y_RESOLUTION * SUBPIX) <= 0x10_0000 * (Y_RESOLUTION * SUBPIX))
                by (nonlinear_arith)
                requires
                    0 <= i as int <= 0x10_0000,
            ;
        }
        sum_x = sum_x + positions[i].x;
        sum_y = sum_y + positions[i].y;
        i = i + 1;
    }
    proof {
        assert(positions@.take(n as int) =~= positions@);
        lemma_mean_in_range(sum_x as int, n as int, (X_RESOLUTION * SUBPIX) as int);
        lemma_mean_in_range(sum_y as int, n as int, (Y_RESOLUTION * SUBPIX) as int);
    }
    Vec2 { x: sum_x / (n as i64), y: sum_y / (n as i64) }
}

/// The mean of values within a range stays within the range.
proof fn lemma_mean_in_range(sum: int, n: int, bound: int)
    requires
        n >= 1,
        0 <= sum <= n * bound,
        bound >= 0,
    ensures
        0 <= sum / n <= bound,
{
    vstd::arithmetic::div_mod::lemma_div_pos_is_pos(sum, n);
    vstd::arithmetic::div_mod::lemma_div_is_ordered(sum, n * bound, n);
    vstd::arithmetic::div_mod::lemma_div_multiples_vanish(bound, n);
    assert(n * bound == bound * n) by (nonlinear_arith);
}

/// Everything the overlay's rendered geometry depends on. The geometry is
/// cached and recomputed only when one of these inputs actually changed.
#[derive(Clone, Debug)]
pub struct RenderKey {
    /// The published pan/zoom state of the base layer.
    pub viewport: PubState,
    /// The guessed-set membership flags.
    pub guessed: Vec<bool>,
    /// The active feedback message, if any.
    pub feedback: Option<Feedback>,
    /// Whether the full map is shown.
    pub viewing_map: bool,
}

/// Two feedback messages render identically.
pub open spec fn feedback_same(a: Feedback, b: Feedback) -> bool {
    &&& a.message@ == b.message@
    &&& a.colour == b.colour
    &&& a.overlay == b.overlay
    &&& a.created_ms == b.created_ms
    &&& a.duration_ms == b.duration_ms
}

/// Two render keys produce identical geometry.
pub open spec fn key_same(a: RenderKey, b: RenderKey) -> bool {
    &&& a.viewport == b.viewport
    &&& a.guessed@ == b.guessed@
    &&& a.viewing_map == b.viewing_map
    &&& match (a.feedback, b.feedback) {
        (Some(fa), Some(fb)) => feedback_same(fa, fb),
        (None, None) => true,
        _ => false,
    }
}

/// Whether two flag vectors agree.
fn flags_same(a: &Vec<bool>, b: &Vec<bool>) -> (r: bool)
    ensures
        r == (a@ == b@),
{
    if a.len() != b.len() {
        return false;
    }
    let n = a.len();
    let mut i: usize = 0;
    while i < n
        invariant
            0 <= i <= n,
            n == a@.len() == b@.len(),
            forall|k: int| 0 <= k < i ==> a@[k] == b@[k],
        decreases n - i,
    {
        if a[i] != b[i] {
            return false;
        }
        i = i + 1;
    }
    proof {
        assert(a@ =~= b@);
    }
    true
}

/// The redraw policy: the cached overlay geometry is rebuilt exactly when
/// the pan/zoom transform, the guessed set, the feedback state or the
/// map-view toggle changed.
pub fn needs_redraw(previous: &RenderKey, current: &RenderKey) -> (r: bool)
    ensures
        r == !key_same(*previous, *current),
{
    let viewport_same = previous.viewport.scale.num == current.viewport.scale.num
        && previous.viewport.scale.den == current.viewport.scale.den
        && previous.viewport.starting_offset.x == current.viewport.starting_offset.x
        && previous.viewport.starting_offset.y == current.viewport.starting_offset.y
        && previous.viewport.current_offset.x == current.viewport.current_offset.x
        && previous.viewport.current_offset.y == current.viewport.current_offset.y
        && match (&previous.viewport.cursor_grabbed_at, &current.viewport.cursor_grabbed_at) {
            (Some(a), Some(b)) => a.x == b.x && a.y == b.y,
            (None, None) => true,
            _ => false,
        };
    let feedback_matches = match (&previous.feedback, &current.feedback) {
        (Some(a), Some(b)) => {
            a.message == b.message && a.colour.r == b.colour.r && a.colour.g
                == b.colour.g && a.colour.b == b.colour.b && a.overlay == b.overlay
                && a.created_ms == b.created_ms && a.duration_ms == b.duration_ms
        },
        (None, None) => true,
        _ => false,
    };
    let same = viewport_same && feedback_matches && previous.viewing_map == current.viewing_map
        && flags_same(&previous.guessed, &current.guessed);
    !same
}

} // verus!

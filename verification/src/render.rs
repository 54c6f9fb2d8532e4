//! The overlay's render plan.
//!
//! On every redraw the overlay turns the round state and the published
//! viewport into plain geometry: per station, the positioned label runs and
//! the proximity-coloured markers; and, while a feedback message is live,
//! its backdrop and centred text. The plan is pure data; painting it is the
//! shell's business.

use vstd::prelude::*;

use crate::colour::{Rgb, Rgba};
use crate::coordinate_system::{
    lemma_product_bound, trunc_div, Rat, SUBPIX, Vec2, X_RESOLUTION, Y_RESOLUTION,
};
use crate::game::{Feedback, Game};
use crate::overlay::{
    average_position, proximity_colour, spec_green, spec_proximity_colour, PubState,
};
use crate::stations::{spec_render_lines, Station, TextRun, MAX_FONT};

verus! {

/// Font size of the feedback message, in subpixel units (60 pixels).
pub const FEEDBACK_FONT: i64 = 245760;

/// How far the feedback shadow is offset, in fine units (4 pixels).
pub const FEEDBACK_SHADOW_FINE: i64 = 67108864;

/// Radius of a marker's black outer disc, in reference-image pixels.
pub const OUTER_RADIUS_PX: i64 = 32;

/// Radius of a marker's coloured inner disc, in reference-image pixels.
pub const INNER_RADIUS_PX: i64 = 25;

/// How far a highlighted label's shadow is offset, in reference-image
/// pixels.
pub const SHADOW_PX: i64 = 2;

/// Font size of station labels, in reference-image pixels.
pub const LABEL_PX: i64 = 36;

/// Black, the colour of shadows and marker rims.
pub open spec fn spec_black() -> Rgb {
    Rgb { r: 0, g: 0, b: 0 }
}

/// A circular guess marker: a black outer disc under a proximity-coloured
/// inner disc. Position and radii are in subpixel units.
#[derive(Clone, Debug)]
pub struct Marker {
    pub position: Vec2,
    pub outer_radius: i64,
    pub inner_radius: i64,
    pub colour: Rgb,
}

/// What the overlay paints for one frame: per station a block of label
/// runs and a list of markers (both empty when the station is hidden), and
/// the live feedback backdrop and text, if any.
#[derive(Clone, Debug)]
pub struct RenderPlan {
    pub texts: Vec<Vec<TextRun>>,
    pub markers: Vec<Vec<Marker>>,
    pub overlay_fill: Option<Rgba>,
    pub feedback_texts: Vec<TextRun>,
}

/// Bounds on the published viewport under which the render pipeline cannot
/// overflow: the zoom is positive, at most 8192-fold, with 20-bit
/// numerator and denominator, and the pan offset fits in 38 bits.
pub open spec fn viewport_in_range(view: PubState) -> bool {
    &&& view.scale.wf()
    &&& 0 < view.scale.num <= 0x10_0000
    &&& view.scale.den <= 0x10_0000
    &&& view.scale.num <= 8192 * view.scale.den
    &&& -0x40_0000_0000 <= view.current_offset.x <= 0x40_0000_0000
    &&& -0x40_0000_0000 <= view.current_offset.y <= 0x40_0000_0000
}

/// One screen coordinate of a reference-image position: the centred
/// percentage of the image extent, times the frame dimension and the zoom,
/// quantized to subpixels and shifted by the pan offset.
pub open spec fn spec_station_coord(pos: int, res: int, frame: int, scale: Rat, off: int) -> int {
    trunc_div((2 * pos - 4096 * res) * frame * scale.num, (8192 * res) * scale.den) + off
}

/// A distance of `px` reference-image pixels on the screen, in subpixels:
/// scaled by the frame dimension over the image resolution and by the
/// zoom, rounded toward zero.
pub open spec fn spec_scaled_len(px: int, res: int, frame: int, scale: Rat) -> int {
    trunc_div(px * frame * scale.num, res * scale.den)
}

/// The screen point of a reference-image position under the current
/// viewport.
pub open spec fn spec_point(pos: Vec2, frame_w: int, frame_h: int, scale: Rat, off: Vec2) -> Vec2 {
    Vec2 {
        x: spec_station_coord(pos.x as int, X_RESOLUTION as int, frame_w, scale, off.x as int)
            as i64,
        y: spec_station_coord(pos.y as int, Y_RESOLUTION as int, frame_h, scale, off.y as int)
            as i64,
    }
}

/// The drawing offset of the frame: its centre, shifted back by the pan.
pub open spec fn spec_offset(frame_w: int, frame_h: int, view: PubState) -> Vec2 {
    Vec2 { x: (frame_w / 2 - view.current_offset.x) as i64, y: (frame_h / 2
        - view.current_offset.y) as i64 }
}

/// The componentwise mean of a station's positions, rounded down.
pub open spec fn spec_avg(st: Station) -> Vec2 {
    Vec2 {
        x: (crate::overlay::sum_positions(st.station_positions@).0 / st.station_positions@.len()
            as int) as i64,
        y: (crate::overlay::sum_positions(st.station_positions@).1 / st.station_positions@.len()
            as int) as i64,
    }
}

/// The markers of one displayed station: one disc pair per position,
/// coloured by the position's proximity to the target's mean position.
pub open spec fn spec_station_markers(
    st: Station,
    frame_w: int,
    frame_h: int,
    scale: Rat,
    off: Vec2,
    avg: Vec2,
    r_outer: int,
    r_inner: int,
) -> Seq<Marker> {
    Seq::new(
        st.station_positions@.len(),
        |k: int|
            Marker {
                position: spec_point(st.station_positions@[k], frame_w, frame_h, scale, off),
                outer_radius: r_outer as i64,
                inner_radius: r_inner as i64,
                colour: spec_proximity_colour(
                    st.station_positions@[k].x - avg.x,
                    st.station_positions@[k].y - avg.y,
                ),
            },
    )
}

/// A label run re-inked in another colour.
pub open spec fn spec_recolour(run: TextRun, colour: Rgb) -> TextRun {
    TextRun { colour, ..run }
}

/// The label block of the target station: in front of each green run, the
/// same run laid out at the shadow-shifted point, in black.
pub open spec fn spec_target_texts(st: Station, pt: Vec2, pt_shadow: Vec2, size: int) -> Seq<
    TextRun,
> {
    let base = spec_render_lines(st, pt, size);
    let shadow = spec_render_lines(st, pt_shadow, size);
    Seq::new(
        2 * base.len(),
        |j: int|
            if j % 2 == 0 {
                spec_recolour(shadow[j / 2], spec_black())
            } else {
                spec_recolour(base[j / 2], spec_green())
            },
    )
}

/// Whether station `i` is displayed: every station in full-map view, the
/// guessed ones otherwise.
pub open spec fn spec_displayed(game: Game, i: int) -> bool {
    game.viewing_map || game.guessed_stations@[i]
}

/// Whether station `i` is highlighted as the target: outside full-map
/// view, any station sharing the target's display name.
pub open spec fn spec_highlighted(game: Game, i: int) -> bool {
    match game.target_station {
        Some(t) => !game.viewing_map && game.all_stations@[i].name@
            == game.all_stations@[t as int].name@,
        None => false,
    }
}

/// The feedback message as centred text: its black shadow first, then the
/// message in its own colour.
pub open spec fn spec_feedback_texts(f: Feedback, frame_w: int, frame_h: int) -> Seq<TextRun> {
    seq![
        TextRun {
            content: f.message,
            x_fine: ((frame_w / 2) * (SUBPIX as int) + FEEDBACK_SHADOW_FINE) as i64,
            y_fine: ((frame_h / 2) * (SUBPIX as int) + FEEDBACK_SHADOW_FINE) as i64,
            size: FEEDBACK_FONT,
            colour: spec_black(),
            horizontal: crate::stations::HorizontalAlign::Center,
            vertical: crate::stations::VerticalAlign::Center,
        },
        TextRun {
            content: f.message,
            x_fine: ((frame_w / 2) * (SUBPIX as int)) as i64,
            y_fine: ((frame_h / 2) * (SUBPIX as int)) as i64,
            size: FEEDBACK_FONT,
            colour: f.colour,
            horizontal: crate::stations::HorizontalAlign::Center,
            vertical: crate::stations::VerticalAlign::Center,
        },
    ]
}

/// A truncating quotient is bounded by any `m` whose product with the
/// divisor bounds the dividend.
proof fn lemma_trunc_div_bounded(a: int, b: int, m: int)
    requires
        b > 0,
        m >= 0,
        -(m * b) <= a <= m * b,
    ensures
        -m <= trunc_div(a, b) <= m,
{
    vstd::arithmetic::div_mod::lemma_div_multiples_vanish(m, b);
    assert(m * b == b * m) by (nonlinear_arith);
    if a >= 0 {
        vstd::arithmetic::div_mod::lemma_div_pos_is_pos(a, b);
        vstd::arithmetic::div_mod::lemma_div_is_ordered(a, m * b, b);
    } else {
        vstd::arithmetic::div_mod::lemma_div_pos_is_pos(-a, b);
        vstd::arithmetic::div_mod::lemma_div_is_ordered(-a, m * b, b);
    }
}

/// Computes one screen coordinate of a reference-image position.
pub fn station_coord(pos: i64, res: i64, frame: i64, scale: &Rat, off: i64) -> (c: i64)
    requires
        5803 <= res <= 8262,
        0 <= pos <= res * SUBPIX,
        0 < frame <= 0x100_0000,
        scale.wf(),
        0 < scale.num <= 0x10_0000,
        scale.den <= 0x10_0000,
        scale.num <= 8192 * scale.den,
        -0x80_0000_0000 <= off <= 0x80_0000_0000,
    ensures
        c == spec_station_coord(pos as int, res as int, frame as int, *scale, off as int),
        -0x100_0000_0000 <= c <= 0x100_0000_0000,
{
    let rel: i64 = 2 * pos - 4096 * res;
    proof {
        lemma_product_bound(rel as int, frame as int, (4096 * 8262) as int, 0x100_0000 as int);
        lemma_product_bound(
            (rel as int) * (frame as int),
            scale.num as int,
            ((4096 * 8262) * 0x100_0000) as int,
            0x10_0000,
        );
        lemma_product_bound(8192 * (res as int), scale.den as int, (8192 * 8262) as int, 0x10_0000 as int);
        assert(8192 * res * scale.den >= 1) by (nonlinear_arith)
            requires
                res >= 1,
                scale.den >= 1,
        ;
    }
    let num: i128 = (rel as i128) * (frame as i128) * (scale.num as i128);
    let den: i128 = ((8192 * res) as i128) * (scale.den as i128);
    proof {
        let m: int = 0x10_0000_0000;
        let fs: int = (frame as int) * (scale.num as int);
        assert(fs >= 0) by (nonlinear_arith)
            requires
                fs == (frame as int) * (scale.num as int),
                frame as int >= 0,
                scale.num as int >= 0,
        ;
        assert(fs <= 0x20_0000_0000 * (scale.den as int)) by (nonlinear_arith)
            requires
                fs == (frame as int) * (scale.num as int),
                0 <= frame as int <= 0x100_0000,
                0 <= scale.num as int <= 8192 * (scale.den as int),
                1 <= scale.den as int,
        ;
        assert(-(m * (den as int)) <= num as int <= m * (den as int)) by (nonlinear_arith)
            requires
                num as int == (rel as int) * (frame as int) * (scale.num as int),
                den as int == (8192 * (res as int)) * (scale.den as int),
                -(4096 * (res as int)) <= rel as int <= 4096 * (res as int),
                fs == (frame as int) * (scale.num as int),
                0 <= fs <= 0x20_0000_0000 * (scale.den as int),
                5803 <= res as int <= 8262,
                1 <= scale.den as int,
                m == 0x10_0000_0000,
        ;
        lemma_trunc_div_bounded(num as int, den as int, m);
    }
    let q: i128 = num / den;
    (q as i64) + off
}

/// Computes a scaled on-screen length of up to 36 reference-image pixels.
pub fn scaled_len(px: i64, res: i64, frame: i64, scale: &Rat) -> (d: i64)
    requires
        0 <= px <= 36,
        5803 <= res <= 8262,
        0 < frame <= 0x100_0000,
        scale.wf(),
        0 < scale.num <= 0x10_0000,
        scale.den <= 0x10_0000,
        scale.num <= 8192 * scale.den,
    ensures
        d == spec_scaled_len(px as int, res as int, frame as int, *scale),
        0 <= d <= MAX_FONT,
{
    proof {
        lemma_product_bound(px as int, frame as int, 36 as int, 0x100_0000 as int);
        lemma_product_bound(
            (px as int) * (frame as int),
            scale.num as int,
            (36 * 0x100_0000) as int,
            0x10_0000 as int,
        );
        lemma_product_bound(res as int, scale.den as int, 8262 as int, 0x10_0000 as int);
        assert(res * scale.den >= 1) by (nonlinear_arith)
            requires
                res >= 1,
                scale.den >= 1,
        ;
        assert((px as int) * (frame as int) * (scale.num as int) >= 0) by (nonlinear_arith)
            requires
                px as int >= 0,
                frame as int >= 0,
                scale.num as int >= 0,
        ;
        assert((px as int) * (frame as int) * (scale.num as int) <= (MAX_FONT as int) * ((
        res as int) * (scale.den as int))) by (nonlinear_arith)
            requires
                0 <= px as int <= 36,
                0 < frame as int <= 0x100_0000,
                0 < scale.num as int,
                scale.num as int <= 8192 * (scale.den as int),
                1 <= scale.den as int,
                5803 <= res as int,
                MAX_FONT as int == 0x4000_0000,
        ;
        lemma_trunc_div_bounded(
            (px as int) * (frame as int) * (scale.num as int),
            (res as int) * (scale.den as int),
            MAX_FONT as int,
        );
    }
    let num: i64 = px * frame * scale.num;
    let den: i64 = res * scale.den;
    let d = num / den;
    proof {
        vstd::arithmetic::div_mod::lemma_div_pos_is_pos(num as int, den as int);
    }
    d
}

/// What one station contributes to the plan: nothing when hidden;
/// otherwise its label block — shadowed and greened when it carries the
/// target's name — and, outside full-map view when a target is set, its
/// proximity markers.
pub open spec fn spec_blocks_ok(
    game: Game,
    view: PubState,
    frame_w: int,
    frame_h: int,
    i: int,
    texts: Seq<TextRun>,
    markers: Seq<Marker>,
) -> bool {
    let st = game.all_stations@[i];
    let off = spec_offset(frame_w, frame_h, view);
    let pt = spec_point(st.station_positions@[0], frame_w, frame_h, view.scale, off);
    let size = spec_scaled_len(LABEL_PX as int, Y_RESOLUTION as int, frame_h, view.scale);
    let dx = spec_scaled_len(SHADOW_PX as int, X_RESOLUTION as int, frame_w, view.scale);
    let dy = spec_scaled_len(SHADOW_PX as int, Y_RESOLUTION as int, frame_h, view.scale);
    let pt_shadow = Vec2 { x: (pt.x + dx) as i64, y: (pt.y + dy) as i64 };
    if !spec_displayed(game, i) {
        texts.len() == 0 && markers.len() == 0
    } else {
        &&& texts == if spec_highlighted(game, i) {
            spec_target_texts(st, pt, pt_shadow, size)
        } else {
            spec_render_lines(st, pt, size)
        }
        &&& markers == match game.target_station {
            Some(t) => if game.viewing_map {
                Seq::<Marker>::empty()
            } else {
                spec_station_markers(
                    st,
                    frame_w,
                    frame_h,
                    view.scale,
                    off,
                    spec_avg(game.all_stations@[t as int]),
                    spec_scaled_len(OUTER_RADIUS_PX as int, X_RESOLUTION as int, frame_w, view.scale),
                    spec_scaled_len(INNER_RADIUS_PX as int, X_RESOLUTION as int, frame_w, view.scale),
                )
            },
            None => Seq::<Marker>::empty(),
        }
    }
}

/// Computes the whole overlay geometry for one frame from the round state,
/// the published viewport, the frame size (in subpixels) and the current
/// time.
#[verifier::loop_isolation(false)]
pub fn render_plan(game: &Game, view: &PubState, frame_w: i64, frame_h: i64, now_ms: u64) -> (plan:
    RenderPlan)
    requires
        game.wf(),
        viewport_in_range(*view),
        0 < frame_w <= 0x100_0000,
        0 < frame_h <= 0x100_0000,
        match game.feedback {
            Some(f) => f.created_ms <= now_ms,
            None => true,
        },
    ensures
        plan.texts@.len() == game.all_stations@.len(),
        plan.markers@.len() == game.all_stations@.len(),
        forall|i: int|
            0 <= i < game.all_stations@.len() ==> spec_blocks_ok(
                *game,
                *view,
                frame_w as int,
                frame_h as int,
                i,
                (#[trigger] plan.texts@[i])@,
                plan.markers@[i]@,
            ),
        match game.feedback {
            Some(f) => if f.visible_at(now_ms) {
                &&& plan.overlay_fill == f.overlay
                &&& plan.feedback_texts@ == spec_feedback_texts(f, frame_w as int, frame_h as int)
            } else {
                plan.overlay_fill is None && plan.feedback_texts@.len() == 0
            },
            None => plan.overlay_fill is None && plan.feedback_texts@.len() == 0,
        },
{
    let scale = view.scale;
    let off = Vec2 { x: frame_w / 2 - view.current_offset.x, y: frame_h / 2
        - view.current_offset.y };
    proof {
        assert(off == spec_offset(frame_w as int, frame_h as int, *view));
    }
    let size = scaled_len(LABEL_PX, Y_RESOLUTION, frame_h, &scale);
    let r_outer = scaled_len(OUTER_RADIUS_PX, X_RESOLUTION, frame_w, &scale);
    let r_inner = scaled_len(INNER_RADIUS_PX, X_RESOLUTION, frame_w, &scale);
    let dx_sh = scaled_len(SHADOW_PX, X_RESOLUTION, frame_w, &scale);
    let dy_sh = scaled_len(SHADOW_PX, Y_RESOLUTION, frame_h, &scale);

    let avg_target: Option<Vec2> = match game.target_station {
        Some(t) => Some(average_position(&game.all_stations[t].station_positions)),
        None => None,
    };

    let n = game.all_stations.len();
    let mut texts: Vec<Vec<TextRun>> = Vec::new();
    let mut markers: Vec<Vec<Marker>> = Vec::new();
    let mut i: usize = 0;
    while i < n
        invariant
            0 <= i <= n,
            texts@.len() == i,
            markers@.len() == i,
            forall|j: int|
                0 <= j < i ==> spec_blocks_ok(
                    *game,
                    *view,
                    frame_w as int,
                    frame_h as int,
                    j,
                    (#[trigger] texts@[j])@,
                    markers@[j]@,
                ),
        decreases n - i,
    {
        proof {
            assert(game.all_stations@[i as int].wf());
        }
        let st = &game.all_stations[i];
        let displayed = game.viewing_map || game.guessed_stations[i];
        if !displayed {
            texts.push(Vec::new());
            markers.push(Vec::new());
        } else {
            let p0 = st.station_positions[0];
            let pt = Vec2 {
                x: station_coord(p0.x, X_RESOLUTION, frame_w, &scale, off.x),
                y: station_coord(p0.y, Y_RESOLUTION, frame_h, &scale, off.y),
            };
            proof {
                assert(pt == spec_point(
                    p0,
                    frame_w as int,
                    frame_h as int,
                    view.scale,
                    spec_offset(frame_w as int, frame_h as int, *view),
                ));
            }
            let highlighted = match game.target_station {
                Some(t) => !game.viewing_map && st.name == game.all_stations[t].name,
                None => false,
            };
            let base = st.get_render_lines(&pt, size);
            if highlighted {
                let pt_sh = Vec2 { x: pt.x + dx_sh, y: pt.y + dy_sh };
                let shadow_runs = st.get_render_lines(&pt_sh, size);
                proof {
                    assert(shadow_runs@.len() == base@.len());
                }
                let nlines = base.len();
                let mut block: Vec<TextRun> = Vec::new();
                let mut k: usize = 0;
                while k < nlines
                    invariant
                        0 <= k <= nlines,
                        block@ == spec_target_texts(*st, pt, pt_sh, size as int).take(2 * k),
                    decreases nlines - k,
                {
                    let sh = &shadow_runs[k];
                    block.push(
                        TextRun {
                            content: sh.content.clone(),
                            x_fine: sh.x_fine,
                            y_fine: sh.y_fine,
                            size: sh.size,
                            colour: Rgb { r: 0, g: 0, b: 0 },
                            horizontal: sh.horizontal,
                            vertical: sh.vertical,
                        },
                    );
                    let b = &base[k];
                    block.push(
                        TextRun {
                            content: b.content.clone(),
                            x_fine: b.x_fine,
                            y_fine: b.y_fine,
                            size: b.size,
                            colour: Rgb { r: 0, g: 255, b: 0 },
                            horizontal: b.horizontal,
                            vertical: b.vertical,
                        },
                    );
                    proof {
                        assert(block@ =~= spec_target_texts(*st, pt, pt_sh, size as int).take(
                        2 * (k + 1)));
                    }
                    k = k + 1;
                }
                proof {
                    assert(block@ =~= spec_target_texts(*st, pt, pt_sh, size as int));
                }
                texts.push(block);
            } else {
                texts.push(base);
            }
            if game.viewing_map {
                markers.push(Vec::new());
            } else {
                match &avg_target {
                    Some(avg) => {
                        let npos = st.station_positions.len();
                        let mut mk: Vec<Marker> = Vec::new();
                        let mut k: usize = 0;
                        while k < npos
                            invariant
                                0 <= k <= npos,
                                mk@ == spec_station_markers(
                                    *st,
                                    frame_w as int,
                                    frame_h as int,
                                    view.scale,
                                    spec_offset(frame_w as int, frame_h as int, *view),
                                    *avg,
                                    r_outer as int,
                                    r_inner as int,
                                ).take(k as int),
                            decreases npos - k,
                        {
                            let p = st.station_positions[k];
                            let mx = station_coord(p.x, X_RESOLUTION, frame_w, &scale, off.x);
                            let my = station_coord(p.y, Y_RESOLUTION, frame_h, &scale, off.y);
                            let colour = proximity_colour(p.x - avg.x, p.y - avg.y);
                            mk.push(
                                Marker {
                                    position: Vec2 { x: mx, y: my },
                                    outer_radius: r_outer,
                                    inner_radius: r_inner,
                                    colour,
                                },
                            );
                            proof {
                                assert(mk@ =~= spec_station_markers(
                                    *st,
                                    frame_w as int,
                                    frame_h as int,
                                    view.scale,
                                    spec_offset(frame_w as int, frame_h as int, *view),
                                    *avg,
                                    r_outer as int,
                                    r_inner as int,
                                ).take(k + 1));
                            }
                            k = k + 1;
                        }
                        proof {
                            assert(mk@ =~= spec_station_markers(
                                *st,
                                frame_w as int,
                                frame_h as int,
                                view.scale,
                                spec_offset(frame_w as int, frame_h as int, *view),
                                *avg,
                                r_outer as int,
                                r_inner as int,
                            ));
                        }
                        markers.push(mk);
                    },
                    None => {
                        markers.push(Vec::new());
                    },
                }
            }
            proof {
                assert(spec_blocks_ok(
                    *game,
                    *view,
                    frame_w as int,
                    frame_h as int,
                    i as int,
                    texts@[i as int]@,
                    markers@[i as int]@,
                ));
            }
        }
        i = i + 1;
    }

    let mut feedback_texts: Vec<TextRun> = Vec::new();
    let mut overlay_fill: Option<Rgba> = None;
    if let Some(f) = &game.feedback {
        if f.is_visible(now_ms) {
            overlay_fill = f.overlay;
            feedback_texts.push(
                TextRun {
                    content: f.message.clone(),
                    x_fine: (frame_w / 2) * SUBPIX + FEEDBACK_SHADOW_FINE,
                    y_fine: (frame_h / 2) * SUBPIX + FEEDBACK_SHADOW_FINE,
                    size: FEEDBACK_FONT,
                    colour: Rgb { r: 0, g: 0, b: 0 },
                    horizontal: crate::stations::HorizontalAlign::Center,
                    vertical: crate::stations::VerticalAlign::Center,
                },
            );
            feedback_texts.push(
                TextRun {
                    content: f.message.clone(),
                    x_fine: (frame_w / 2) * SUBPIX,
                    y_fine: (frame_h / 2) * SUBPIX,
                    size: FEEDBACK_FONT,
                    colour: f.colour,
                    horizontal: crate::stations::HorizontalAlign::Center,
                    vertical: crate::stations::VerticalAlign::Center,
                },
            );
            proof {
                assert(feedback_texts@ =~= spec_feedback_texts(
                    *f,
                    frame_w as int,
                    frame_h as int,
                ));
            }
        }
    }
    RenderPlan { texts, markers, overlay_fill, feedback_texts }
}

} // verus!

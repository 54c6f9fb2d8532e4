//! Stations and the label layout engine.
//!
//! A station has a display name, one or more positions on the reference
//! image, and name-rendering metadata: an anchor direction, a manual offset
//! (in multiples of the font size) and an optional multi-line override of the
//! name. Coordinates are carried in subpixel units (`SUBPIX` units per
//! pixel); positioned text runs are produced in finer units (`SUBPIX`
//! subpixel units per subpixel, `FINE` per pixel) so that the whole layout is
//! exact integer arithmetic with no rounding anywhere.

use vstd::prelude::*;

use crate::colour::Rgb;
use crate::coordinate_system::{lemma_product_bound, SUBPIX, X_RESOLUTION, Y_RESOLUTION, Vec2};

verus! {

/// Units per pixel of a positioned text run: `SUBPIX * SUBPIX`.
pub const FINE: i64 = 16_777_216;

/// The diagonal unit-vector component in subpixel units: `SUBPIX / sqrt(2)`,
/// rounded to the nearest integer.
pub const DIAG: i64 = 2896;

/// Ink colour of station labels.
pub const LABEL_R: u8 = 0x1b;

/// Ink colour of station labels.
pub const LABEL_G: u8 = 0x40;

/// Ink colour of station labels.
pub const LABEL_B: u8 = 0x94;

/// Most lines a multi-line label may have.
pub const MAX_LINES: usize = 64;

/// Largest supported font size, in subpixel units.
pub const MAX_FONT: i64 = 0x4000_0000;

/// Largest magnitude of a screen point handed to the layout engine, in
/// subpixel units.
pub const MAX_POINT: i64 = 0x200_0000_0000;

/// Largest magnitude of a manual label offset, in subpixel multiples of the
/// font size.
pub const MAX_OFFSET: i64 = 0x40_0000;

/// The eight compass directions a label can be anchored towards.
#[derive(Clone, Copy, Debug, PartialEq, Eq, Structural)]
pub enum Anchor {
    North,
    NorthEast,
    East,
    SouthEast,
    South,
    SouthWest,
    West,
    NorthWest,
}

/// Horizontal text alignment of a positioned run.
#[derive(Clone, Copy, Debug, PartialEq, Eq, Structural)]
pub enum HorizontalAlign {
    Left,
    Center,
    Right,
}

/// Vertical text alignment of a positioned run.
#[derive(Clone, Copy, Debug, PartialEq, Eq, Structural)]
pub enum VerticalAlign {
    Top,
    Center,
    Bottom,
}

impl Anchor {
    /// The unit vector pointing away from the anchor point, in subpixel
    /// units; diagonals have both components at `DIAG`, one over the square
    /// root of two. The y axis grows downward.
    pub open spec fn spec_unit_vec(self) -> (int, int) {
        match self {
            Anchor::North => (0, -(SUBPIX as int)),
            Anchor::NorthEast => (DIAG as int, -(DIAG as int)),
            Anchor::East => (SUBPIX as int, 0),
            Anchor::SouthEast => (DIAG as int, DIAG as int),
            Anchor::South => (0, SUBPIX as int),
            Anchor::SouthWest => (-(DIAG as int), DIAG as int),
            Anchor::West => (-(SUBPIX as int), 0),
            Anchor::NorthWest => (-(DIAG as int), -(DIAG as int)),
        }
    }

    /// The vertical unit-vector component rounded to the nearest integer:
    /// -1 for the northern directions, 0 for east and west, 1 for the
    /// southern directions.
    pub open spec fn y_sign(self) -> int {
        match self {
            Anchor::North => -1,
            Anchor::NorthEast => -1,
            Anchor::NorthWest => -1,
            Anchor::East => 0,
            Anchor::West => 0,
            Anchor::South => 1,
            Anchor::SouthEast => 1,
            Anchor::SouthWest => 1,
        }
    }

    /// The unit vector pointing away from the anchor point.
    pub fn unit_vec(&self) -> (v: Vec2)
        ensures
            (v.x as int, v.y as int) == self.spec_unit_vec(),
    {
        match self {
            Anchor::North => Vec2 { x: 0, y: -SUBPIX },
            Anchor::NorthEast => Vec2 { x: DIAG, y: -DIAG },
            Anchor::East => Vec2 { x: SUBPIX, y: 0 },
            Anchor::SouthEast => Vec2 { x: DIAG, y: DIAG },
            Anchor::South => Vec2 { x: 0, y: SUBPIX },
            Anchor::SouthWest => Vec2 { x: -DIAG, y: DIAG },
            Anchor::West => Vec2 { x: -SUBPIX, y: 0 },
            Anchor::NorthWest => Vec2 { x: -DIAG, y: -DIAG },
        }
    }

    /// Text alignments that make a run extend away from the anchor point in
    /// this direction.
    pub open spec fn spec_alignments(self) -> (HorizontalAlign, VerticalAlign) {
        match self {
            Anchor::North => (HorizontalAlign::Center, VerticalAlign::Bottom),
            Anchor::NorthEast => (HorizontalAlign::Left, VerticalAlign::Bottom),
            Anchor::East => (HorizontalAlign::Left, VerticalAlign::Center),
            Anchor::SouthEast => (HorizontalAlign::Left, VerticalAlign::Top),
            Anchor::South => (HorizontalAlign::Center, VerticalAlign::Top),
            Anchor::SouthWest => (HorizontalAlign::Right, VerticalAlign::Top),
            Anchor::West => (HorizontalAlign::Right, VerticalAlign::Center),
            Anchor::NorthWest => (HorizontalAlign::Right, VerticalAlign::Bottom),
        }
    }

    /// The vertical unit-vector component rounded to the nearest integer.
    pub fn y_round(&self) -> (s: i64)
        ensures
            s == self.y_sign(),
    {
        match self {
            Anchor::North => -1,
            Anchor::NorthEast => -1,
            Anchor::NorthWest => -1,
            Anchor::East => 0,
            Anchor::West => 0,
            Anchor::South => 1,
            Anchor::SouthEast => 1,
            Anchor::SouthWest => 1,
        }
    }

    /// Text alignments that make a run extend away from the anchor point in
    /// this direction.
    pub fn alignments(&self) -> (a: (HorizontalAlign, VerticalAlign))
        ensures
            a == self.spec_alignments(),
    {
        match self {
            Anchor::North => (HorizontalAlign::Center, VerticalAlign::Bottom),
            Anchor::NorthEast => (HorizontalAlign::Left, VerticalAlign::Bottom),
            Anchor::East => (HorizontalAlign::Left, VerticalAlign::Center),
            Anchor::SouthEast => (HorizontalAlign::Left, VerticalAlign::Top),
            Anchor::South => (HorizontalAlign::Center, VerticalAlign::Top),
            Anchor::SouthWest => (HorizontalAlign::Right, VerticalAlign::Top),
            Anchor::West => (HorizontalAlign::Right, VerticalAlign::Center),
            Anchor::NorthWest => (HorizontalAlign::Right, VerticalAlign::Bottom),
        }
    }
}

/// Name-rendering metadata of a station.
#[derive(Clone, Debug)]
pub struct NameData {
    /// Which side of the anchor point the label sits on.
    pub anchor: Anchor,
    /// Optional multi-line override of the single-line name.
    pub name_lines: Option<Vec<String>>,
    /// Manual offset, in subpixel multiples of the font size.
    pub offset: Vec2,
}

impl NameData {
    /// Bounds under which label layout cannot overflow.
    pub open spec fn wf(self) -> bool {
        &&& match self.name_lines {
            Some(lines) => lines.len() <= MAX_LINES,
            None => true,
        }
        &&& -MAX_OFFSET <= self.offset.x <= MAX_OFFSET
        &&& -MAX_OFFSET <= self.offset.y <= MAX_OFFSET
    }
}

impl Default for NameData {
    /// The default metadata: anchored North, no multi-line override, no
    /// manual offset.
    fn default() -> (d: NameData)
        ensures
            d.anchor == Anchor::North,
            d.name_lines is None,
            d.offset == (Vec2 { x: 0, y: 0 }),
    {
        NameData { anchor: Anchor::North, name_lines: None, offset: Vec2 { x: 0, y: 0 } }
    }
}

/// A station of the reference dataset.
#[derive(Clone, Debug)]
pub struct Station {
    /// Display name.
    pub name: String,
    /// Positions on the reference image, in subpixel units of reference
    /// pixels. The first position anchors the label.
    pub station_positions: Vec<Vec2>,
    /// Name-rendering metadata.
    pub name_data: NameData,
}

impl Station {
    /// A valid station has at least one position (and not absurdly many),
    /// all of them on the reference image, and layout metadata in range.
    pub open spec fn wf(self) -> bool {
        &&& 1 <= self.station_positions.len() <= 0x10_0000
        &&& forall|i: int|
            0 <= i < self.station_positions@.len() ==> {
                &&& 0 <= #[trigger] self.station_positions@[i].x <= X_RESOLUTION * SUBPIX
                &&& 0 <= self.station_positions@[i].y <= Y_RESOLUTION * SUBPIX
            }
        &&& self.name_data.wf()
    }
}

/// A positioned run of label text. The position is in fine units (`FINE`
/// per pixel); the size is in subpixel units.
#[derive(Clone, Debug)]
pub struct TextRun {
    pub content: String,
    pub x_fine: i64,
    pub y_fine: i64,
    pub size: i64,
    pub colour: Rgb,
    pub horizontal: HorizontalAlign,
    pub vertical: VerticalAlign,
}

/// Ink colour of station labels.
pub open spec fn spec_label_colour() -> Rgb {
    Rgb { r: LABEL_R, g: LABEL_G, b: LABEL_B }
}

/// Ink colour of station labels.
pub fn label_colour() -> (c: Rgb)
    ensures
        c == spec_label_colour(),
{
    Rgb { r: LABEL_R, g: LABEL_G, b: LABEL_B }
}

/// The runs of a station's label laid out around `point` at font size
/// `size`: one per authored line (or a single one for the plain name),
/// emitted in reverse authored order, in the label ink, with the anchor's
/// alignments.
pub open spec fn spec_render_lines(st: Station, point: Vec2, size: int) -> Seq<TextRun> {
    match st.name_data.name_lines {
        Some(lines) => Seq::new(
            lines@.len(),
            |k: int|
                TextRun {
                    content: lines@[lines@.len() - 1 - k],
                    x_fine: line_x_fine(st.name_data.anchor, st.name_data.offset, point, size)
                        as i64,
                    y_fine: line_y_fine(
                        st.name_data.anchor,
                        st.name_data.offset,
                        point,
                        size,
                        lines@.len() as int,
                        k,
                    ) as i64,
                    size: size as i64,
                    colour: spec_label_colour(),
                    horizontal: st.name_data.anchor.spec_alignments().0,
                    vertical: st.name_data.anchor.spec_alignments().1,
                },
        ),
        None => seq![
            TextRun {
                content: st.name,
                x_fine: line_x_fine(st.name_data.anchor, st.name_data.offset, point, size) as i64,
                y_fine: (point.y * SUBPIX + (st.name_data.anchor.spec_unit_vec().1
                    + st.name_data.offset.y) * size) as i64,
                size: size as i64,
                colour: spec_label_colour(),
                horizontal: st.name_data.anchor.spec_alignments().0,
                vertical: st.name_data.anchor.spec_alignments().1,
            },
        ],
    }
}

impl Station {
    /// Lays the station's label out around an anchor point on the screen:
    /// one positioned run per authored line, emitted in reverse authored
    /// order. `point` is in subpixel units, `size` is the font size in
    /// subpixel units; the runs' positions are in fine units.
    pub fn get_render_lines(&self, point: &Vec2, size: i64) -> (runs: Vec<TextRun>)
        requires
            self.name_data.wf(),
            0 <= size <= MAX_FONT,
            -MAX_POINT <= point.x <= MAX_POINT,
            -MAX_POINT <= point.y <= MAX_POINT,
        ensures
            runs@ == spec_render_lines(*self, *point, size as int),
    {
        let unit = self.name_data.anchor.unit_vec();
        let (horizontal, vertical) = self.name_data.anchor.alignments();
        let off = self.name_data.offset;
        proof {
            lemma_product_bound((unit.x + off.x) as int, size as int, SUBPIX + MAX_OFFSET, MAX_FONT as int);
            lemma_product_bound((unit.y + off.y) as int, size as int, SUBPIX + MAX_OFFSET, MAX_FONT as int);
        }
        let base_x: i64 = point.x * SUBPIX + (unit.x + off.x) * size;
        let anchor_y: i64 = point.y * SUBPIX + (unit.y + off.y) * size;

        if let Some(lines) = &self.name_data.name_lines {
            let nlines = lines.len();
            let n = nlines as i64;
            proof {
                lemma_product_bound(
                    self.name_data.anchor.y_sign() - 1,
                    size as int,
                    2,
                    MAX_FONT as int,
                );
                lemma_product_bound(
                    (self.name_data.anchor.y_sign() - 1) * (size as int),
                    n as int,
                    2 * (MAX_FONT as int),
                    MAX_LINES as int,
                );
                lemma_product_bound(size as int, n as int, MAX_FONT as int, MAX_LINES as int);
            }
            let corr: i64 = (self.name_data.anchor.y_round() - 1) * size * n * 1024;
            let shift_init: i64 = size * n * 2048;
            let base_y: i64 = anchor_y + corr + shift_init;

            let mut runs: Vec<TextRun> = Vec::new();
            let mut k: usize = 0;
            while k < nlines
                invariant
                    k <= nlines,
                    nlines == lines@.len(),
                    nlines <= MAX_LINES,
                    n == nlines as i64,
                    0 <= size <= MAX_FONT,
                    -0x80_0000_0000_0000 <= base_y <= 0x80_0000_0000_0000,
                    base_x == line_x_fine(
                        self.name_data.anchor,
                        self.name_data.offset,
                        *point,
                        size as int,
                    ),
                    base_y == line_y_fine(
                        self.name_data.anchor,
                        self.name_data.offset,
                        *point,
                        size as int,
                        nlines as int,
                        0,
                    ),
                    off == self.name_data.offset,
                    (horizontal, vertical) == self.name_data.anchor.spec_alignments(),
                    runs@.len() == k,
                    forall|j: int|
                        0 <= j < k ==> {
                            &&& (#[trigger] runs@[j]).content == lines@[lines@.len() - 1 - j]
                            &&& runs@[j].x_fine == line_x_fine(
                                self.name_data.anchor,
                                self.name_data.offset,
                                *point,
                                size as int,
                            )
                            &&& runs@[j].y_fine == line_y_fine(
                                self.name_data.anchor,
                                self.name_data.offset,
                                *point,
                                size as int,
                                nlines as int,
                                j,
                            )
                            &&& runs@[j].size == size
                            &&& runs@[j].colour == spec_label_colour()
                            &&& (runs@[j].horizontal, runs@[j].vertical)
                                == self.name_data.anchor.spec_alignments()
                        },
                decreases nlines - k,
            {
                proof {
                    lemma_product_bound(
                        k as int,
                        (size as int) * (SUBPIX as int),
                        MAX_LINES as int,
                        (MAX_FONT as int) * (SUBPIX as int),
                    );
                    assert((k as int) * ((size as int) * (SUBPIX as int)) == (k as int) * (
                    size as int) * (SUBPIX as int)) by (nonlinear_arith);
                }
                let shift_down: i64 = (k as i64) * (size * SUBPIX);
                let run = Self::name_to_text(
                    &lines[nlines - 1 - k],
                    base_x,
                    base_y - shift_down,
                    size,
                    horizontal,
                    vertical,
                );
                runs.push(run);
                k = k + 1;
            }
            proof {
                assert(runs@ =~= spec_render_lines(*self, *point, size as int));
            }
            runs
        } else {
            let run = Self::name_to_text(&self.name, base_x, anchor_y, size, horizontal, vertical);
            let mut runs: Vec<TextRun> = Vec::new();
            runs.push(run);
            proof {
                assert(runs@ =~= spec_render_lines(*self, *point, size as int));
            }
            runs
        }
    }

    /// Builds one positioned run of label ink.
    fn name_to_text(
        name: &String,
        x_fine: i64,
        y_fine: i64,
        size: i64,
        horizontal: HorizontalAlign,
        vertical: VerticalAlign,
    ) -> (run: TextRun)
        ensures
            run.content == *name,
            run.x_fine == x_fine,
            run.y_fine == y_fine,
            run.size == size,
            run.colour == spec_label_colour(),
            run.horizontal == horizontal,
            run.vertical == vertical,
    {
        TextRun {
            content: name.clone(),
            x_fine,
            y_fine,
            size,
            colour: label_colour(),
            horizontal,
            vertical,
        }
    }
}

/// For a label anchored North the emitted runs read top-to-bottom in
/// authored order, one font size apart, and — as long as the manual offset
/// does not push the label more than one font size downward — every run
/// lies strictly above the anchor point. Together with the bottom vertical
/// alignment the North anchor carries, the whole label stacks upward from
/// the point.
pub proof fn lemma_north_label_stacks_upward(offset: Vec2, point: Vec2, size: int, nlines: int)
    requires
        size > 0,
        nlines >= 1,
        offset.y < SUBPIX,
    ensures
        forall|ka: int, kb: int|
            0 <= kb < ka < nlines ==> #[trigger] line_y_fine(
                Anchor::North,
                offset,
                point,
                size,
                nlines,
                ka,
            ) < #[trigger] line_y_fine(Anchor::North, offset, point, size, nlines, kb),
        forall|k: int|
            0 <= k < nlines ==> line_y_fine(Anchor::North, offset, point, size, nlines, k)
                < point.y * SUBPIX,
        Anchor::North.spec_alignments().1 == VerticalAlign::Bottom,
{
    assert forall|ka: int, kb: int| 0 <= kb < ka < nlines implies line_y_fine(
        Anchor::North,
        offset,
        point,
        size,
        nlines,
        ka,
    ) < line_y_fine(Anchor::North, offset, point, size, nlines, kb) by {
        lemma_north_y_closed_form(offset, point, size, nlines, ka);
        lemma_north_y_closed_form(offset, point, size, nlines, kb);
        assert(kb * (size * (SUBPIX as int)) < ka * (size * (SUBPIX as int))) by (nonlinear_arith)
            requires
                kb < ka,
                size > 0,
        ;
    }
    assert forall|k: int| 0 <= k < nlines implies line_y_fine(
        Anchor::North,
        offset,
        point,
        size,
        nlines,
        k,
    ) < point.y * SUBPIX by {
        lemma_north_y_closed_form(offset, point, size, nlines, k);
        assert((offset.y - SUBPIX) * size < 0) by (nonlinear_arith)
            requires
                offset.y < SUBPIX,
                size > 0,
        ;
        assert(k * (size * (SUBPIX as int)) >= 0) by (nonlinear_arith)
            requires
                k >= 0,
                size > 0,
        ;
    }
}

/// For a North anchor the stacking corrections cancel: the `k`-th emitted
/// run sits one font size above the anchor, and `k` further font sizes up.
proof fn lemma_north_y_closed_form(offset: Vec2, point: Vec2, size: int, nlines: int, k: int)
    ensures
        line_y_fine(Anchor::North, offset, point, size, nlines, k) == point.y * SUBPIX + (offset.y
            - SUBPIX) * size - k * (size * (SUBPIX as int)),
{
    assert((Anchor::North.y_sign() - 1) * size * nlines * 1024 + size * nlines * 2048 == 0)
        by (nonlinear_arith)
        requires
            Anchor::North.y_sign() == -1,
    ;
    assert((Anchor::North.spec_unit_vec().1 + offset.y) * size == (offset.y - SUBPIX) * size)
        by (nonlinear_arith)
        requires
            Anchor::North.spec_unit_vec().1 == -(SUBPIX as int),
    ;
    assert(k * size * (SUBPIX as int) == k * (size * (SUBPIX as int))) by (nonlinear_arith);
}

/// Horizontal position shared by every run of a label: the anchor point plus
/// the anchored and manual offsets scaled by the font size.
pub open spec fn line_x_fine(anchor: Anchor, offset: Vec2, point: Vec2, size: int) -> int {
    point.x * SUBPIX + (anchor.spec_unit_vec().0 + offset.x) * size
}

/// Vertical position of the `k`-th emitted run of a label of `nlines` lines.
/// Runs are emitted in reverse authored order: run `k` shows authored line
/// `nlines - 1 - k`. On top of the anchored and manual offsets, a label of
/// `nlines` lines is shifted so that north-anchored labels stack upward from
/// the point, east- and west-anchored labels centre on it, and
/// south-anchored labels stack downward; successive runs are one font size
/// apart.
pub open spec fn line_y_fine(
    anchor: Anchor,
    offset: Vec2,
    point: Vec2,
    size: int,
    nlines: int,
    k: int,
) -> int {
    point.y * SUBPIX + (anchor.spec_unit_vec().1 + offset.y) * size + (anchor.y_sign() - 1) * size
        * nlines * 1024 + size * nlines * 2048 - k * size * SUBPIX
}

} // verus!

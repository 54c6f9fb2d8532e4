use tube_tag::colour::Rgb;
use tube_tag::coordinate_system::Vec2;
use tube_tag::stations::{Anchor, HorizontalAlign, NameData, Station, VerticalAlign};

fn label_station(name: &str, anchor: Anchor, lines: Option<Vec<String>>) -> Station {
    Station {
        name: name.to_string(),
        station_positions: vec![Vec2 { x: 0, y: 0 }],
        name_data: NameData { anchor, name_lines: lines, offset: Vec2 { x: 0, y: 0 } },
    }
}

#[test]
fn default_metadata_anchors_north_with_no_offset() {
    let data = NameData::default();
    assert_eq!(data.anchor, Anchor::North);
    assert!(data.name_lines.is_none());
    assert_eq!(data.offset, Vec2 { x: 0, y: 0 });
}

#[test]
fn unit_vectors_point_away_from_the_anchor() {
    assert_eq!(Anchor::North.unit_vec(), Vec2 { x: 0, y: -4096 });
    assert_eq!(Anchor::South.unit_vec(), Vec2 { x: 0, y: 4096 });
    assert_eq!(Anchor::East.unit_vec(), Vec2 { x: 4096, y: 0 });
    assert_eq!(Anchor::West.unit_vec(), Vec2 { x: -4096, y: 0 });
    assert_eq!(Anchor::NorthEast.unit_vec(), Vec2 { x: 2896, y: -2896 });
    assert_eq!(Anchor::SouthWest.unit_vec(), Vec2 { x: -2896, y: 2896 });
}

#[test]
fn alignments_extend_text_away_from_the_point() {
    assert_eq!(
        Anchor::North.alignments(),
        (HorizontalAlign::Center, VerticalAlign::Bottom),
    );
    assert_eq!(
        Anchor::South.alignments(),
        (HorizontalAlign::Center, VerticalAlign::Top),
    );
    assert_eq!(
        Anchor::East.alignments(),
        (HorizontalAlign::Left, VerticalAlign::Center),
    );
    assert_eq!(
        Anchor::SouthWest.alignments(),
        (HorizontalAlign::Right, VerticalAlign::Top),
    );
}

#[test]
fn single_line_label_sits_one_font_size_above_a_north_anchor() {
    let st = label_station("X", Anchor::North, None);
    let runs = st.get_render_lines(&Vec2 { x: 40960, y: 40960 }, 4096);
    assert_eq!(runs.len(), 1);
    assert_eq!(runs[0].content, "X");
    assert_eq!(runs[0].x_fine, 40960 * 4096);
    assert_eq!(runs[0].y_fine, 40960 * 4096 - 4096 * 4096);
    assert_eq!(runs[0].size, 4096);
    assert_eq!(runs[0].colour, Rgb { r: 0x1b, g: 0x40, b: 0x94 });
    assert_eq!(runs[0].horizontal, HorizontalAlign::Center);
    assert_eq!(runs[0].vertical, VerticalAlign::Bottom);
}

#[test]
fn three_line_north_label_stacks_upward_in_authored_order() {
    let lines = Some(vec!["A".to_string(), "B".to_string(), "C".to_string()]);
    let st = label_station("ABC", Anchor::North, lines);
    let runs = st.get_render_lines(&Vec2 { x: 0, y: 0 }, 4096);
    assert_eq!(runs.len(), 3);
    // Runs come out in reverse authored order, each one font size higher.
    assert_eq!(runs[0].content, "C");
    assert_eq!(runs[1].content, "B");
    assert_eq!(runs[2].content, "A");
    assert_eq!(runs[0].y_fine, -16777216);
    assert_eq!(runs[1].y_fine, -33554432);
    assert_eq!(runs[2].y_fine, -50331648);
    // The authored order reads top to bottom, all above the anchor point.
    assert!(runs[2].y_fine < runs[1].y_fine);
    assert!(runs[1].y_fine < runs[0].y_fine);
    assert!(runs[0].y_fine < 0);
}

#[test]
fn two_line_south_label_stacks_downward() {
    let lines = Some(vec!["A".to_string(), "B".to_string()]);
    let st = label_station("AB", Anchor::South, lines);
    let runs = st.get_render_lines(&Vec2 { x: 0, y: 0 }, 4096);
    assert_eq!(runs.len(), 2);
    assert_eq!(runs[0].content, "B");
    assert_eq!(runs[1].content, "A");
    assert_eq!(runs[1].y_fine, 16777216);
    assert_eq!(runs[0].y_fine, 33554432);
    assert!(runs[1].y_fine > 0 && runs[0].y_fine > runs[1].y_fine);
}

#[test]
fn manual_offset_shifts_by_multiples_of_the_font_size() {
    let st = Station {
        name: "X".to_string(),
        station_positions: vec![Vec2 { x: 0, y: 0 }],
        name_data: NameData {
            anchor: Anchor::East,
            name_lines: None,
            // Half a font size right, one down.
            offset: Vec2 { x: 2048, y: 4096 },
        },
    };
    let runs = st.get_render_lines(&Vec2 { x: 0, y: 0 }, 4096);
    assert_eq!(runs.len(), 1);
    assert_eq!(runs[0].x_fine, (4096 + 2048) * 4096);
    assert_eq!(runs[0].y_fine, 4096 * 4096);
}

use tube_tag::colour::Rgb;
use tube_tag::coordinate_system::{Rat, Vec2};
use tube_tag::game::{Feedback, Game};
use tube_tag::overlay::PubState;
use tube_tag::render::render_plan;
use tube_tag::stations::{Anchor, NameData, Station};

fn station(name: &str, x: i64, y: i64) -> Station {
    Station {
        name: name.to_string(),
        station_positions: vec![Vec2 { x, y }],
        name_data: NameData {
            anchor: Anchor::North,
            name_lines: None,
            offset: Vec2 { x: 0, y: 0 },
        },
    }
}

fn sample_game() -> Game {
    let stations = vec![
        station("Paddington", 4096000, 4096000),
        station("Victoria", 8192000, 8192000),
    ];
    let mut rng = rand::thread_rng();
    Game::new(stations, &mut rng)
}

fn still_viewport() -> PubState {
    PubState {
        scale: Rat::new(1, 1),
        starting_offset: Vec2 { x: 0, y: 0 },
        current_offset: Vec2 { x: 0, y: 0 },
        cursor_grabbed_at: None,
    }
}

const FRAME_W: i64 = 800 * 4096;
const FRAME_H: i64 = 600 * 4096;

#[test]
fn hidden_stations_contribute_nothing() {
    let mut game = sample_game();
    game.target_station = Some(1);
    game.guessed_stations[0] = true;
    let plan = render_plan(&game, &still_viewport(), FRAME_W, FRAME_H, 0);
    assert_eq!(plan.texts.len(), 2);
    assert_eq!(plan.markers.len(), 2);
    assert_eq!(plan.texts[0].len(), 1);
    assert_eq!(plan.markers[0].len(), 1);
    assert!(plan.texts[1].is_empty());
    assert!(plan.markers[1].is_empty());
    assert!(plan.overlay_fill.is_none());
    assert!(plan.feedback_texts.is_empty());
}

#[test]
fn full_map_view_shows_every_label_and_no_markers() {
    let mut game = sample_game();
    game.target_station = Some(1);
    game.viewing_map = true;
    let plan = render_plan(&game, &still_viewport(), FRAME_W, FRAME_H, 0);
    assert_eq!(plan.texts[0].len(), 1);
    assert_eq!(plan.texts[1].len(), 1);
    assert!(plan.markers[0].is_empty());
    assert!(plan.markers[1].is_empty());
}

#[test]
fn a_guess_at_the_target_gets_a_green_marker() {
    let mut game = sample_game();
    game.target_station = Some(0);
    game.guessed_stations[0] = true;
    let plan = render_plan(&game, &still_viewport(), FRAME_W, FRAME_H, 0);
    assert_eq!(plan.markers[0].len(), 1);
    assert_eq!(plan.markers[0][0].colour, Rgb { r: 0, g: 255, b: 0 });
    assert!(plan.markers[0][0].outer_radius > plan.markers[0][0].inner_radius);
}

#[test]
fn the_targets_label_is_shadowed_and_greened() {
    let mut game = sample_game();
    game.target_station = Some(0);
    game.guessed_stations[0] = true;
    let plan = render_plan(&game, &still_viewport(), FRAME_W, FRAME_H, 0);
    let runs = &plan.texts[0];
    assert_eq!(runs.len(), 2);
    assert_eq!(runs[0].colour, Rgb { r: 0, g: 0, b: 0 });
    assert_eq!(runs[1].colour, Rgb { r: 0, g: 255, b: 0 });
    assert_eq!(runs[0].content, "Paddington");
    assert_eq!(runs[1].content, "Paddington");
    // The shadow sits below and right of the label.
    assert!(runs[0].x_fine >= runs[1].x_fine);
    assert!(runs[0].y_fine >= runs[1].y_fine);
}

#[test]
fn live_feedback_enters_the_plan_with_its_backdrop() {
    let mut game = sample_game();
    game.target_station = Some(0);
    game.feedback = Some(Feedback::new(
        "You Won!",
        Rgb { r: 0, g: 255, b: 0 },
        Some(tube_tag::colour::Rgba { r: 255, g: 255, b: 255, alpha_pm: 500 }),
        15000,
        1000,
    ));
    let plan = render_plan(&game, &still_viewport(), FRAME_W, FRAME_H, 2000);
    assert!(plan.overlay_fill.is_some());
    assert_eq!(plan.feedback_texts.len(), 2);
    assert_eq!(plan.feedback_texts[0].colour, Rgb { r: 0, g: 0, b: 0 });
    assert_eq!(plan.feedback_texts[1].colour, Rgb { r: 0, g: 255, b: 0 });
    assert_eq!(plan.feedback_texts[1].content, "You Won!");
    // Centred on the frame.
    assert_eq!(plan.feedback_texts[1].x_fine, (FRAME_W / 2) * 4096);
    assert_eq!(plan.feedback_texts[1].y_fine, (FRAME_H / 2) * 4096);
}

#[test]
fn expired_feedback_no_longer_renders() {
    let mut game = sample_game();
    game.target_station = Some(0);
    game.feedback = Some(Feedback::new(
        "Unknown Station",
        Rgb { r: 200, g: 0, b: 0 },
        None,
        2000,
        1000,
    ));
    let visible = render_plan(&game, &still_viewport(), FRAME_W, FRAME_H, 2999);
    assert_eq!(visible.feedback_texts.len(), 2);
    let expired = render_plan(&game, &still_viewport(), FRAME_W, FRAME_H, 3000);
    assert!(expired.feedback_texts.is_empty());
    assert!(expired.overlay_fill.is_none());
}

#[test]
fn markers_follow_the_pan_offset() {
    let mut game = sample_game();
    game.target_station = Some(1);
    game.give_up();
    let centred = render_plan(&game, &still_viewport(), FRAME_W, FRAME_H, 0);
    let mut panned_view = still_viewport();
    panned_view.current_offset = Vec2 { x: 4096, y: -4096 };
    let panned = render_plan(&game, &panned_view, FRAME_W, FRAME_H, 0);
    assert_eq!(
        panned.markers[0][0].position.x,
        centred.markers[0][0].position.x - 4096,
    );
    assert_eq!(
        panned.markers[0][0].position.y,
        centred.markers[0][0].position.y + 4096,
    );
}

use tube_tag::colour::{lerp_colour, Rgb};
use tube_tag::coordinate_system::{Rat, Vec2};
use tube_tag::game::Feedback;
use tube_tag::overlay::{
    average_position, forward_interaction, isqrt64, needs_redraw, proximity_colour, Bounds,
    PubState, RenderKey,
};

#[test]
fn integer_square_roots() {
    assert_eq!(isqrt64(0), 0);
    assert_eq!(isqrt64(1), 1);
    assert_eq!(isqrt64(3), 1);
    assert_eq!(isqrt64(4), 2);
    assert_eq!(isqrt64(15), 3);
    assert_eq!(isqrt64(16), 4);
    assert_eq!(isqrt64(6400), 80);
    assert_eq!(isqrt64(u64::MAX), 4294967295);
}

#[test]
fn proximity_at_the_target_is_green() {
    assert_eq!(proximity_colour(0, 0), Rgb { r: 0, g: 255, b: 0 });
}

#[test]
fn proximity_far_away_is_red() {
    assert_eq!(proximity_colour(33841152, 0), Rgb { r: 255, g: 0, b: 0 });
    assert_eq!(proximity_colour(0, 23769088), Rgb { r: 255, g: 0, b: 0 });
}

#[test]
fn proximity_mid_range_blends_yellow_towards_red() {
    // Half the vertical extent away: forty percent of the way from yellow
    // to red.
    assert_eq!(
        proximity_colour(0, 11884544),
        Rgb { r: 255, g: 102, b: 0 },
    );
}

#[test]
fn proximity_close_blends_green_towards_yellow() {
    // A tenth of the vertical extent away, just under the half-way point
    // of the near ramp.
    assert_eq!(
        proximity_colour(0, 2376908),
        Rgb { r: 127, g: 255, b: 0 },
    );
}

#[test]
fn colour_interpolation_is_exact_integer_arithmetic() {
    let black = Rgb { r: 0, g: 0, b: 0 };
    let white = Rgb { r: 255, g: 255, b: 255 };
    assert_eq!(lerp_colour(&black, &white, 0, 1), black);
    assert_eq!(lerp_colour(&black, &white, 1, 1), white);
    assert_eq!(
        lerp_colour(&black, &white, 1, 2),
        Rgb { r: 127, g: 127, b: 127 },
    );
}

#[test]
fn average_of_positions_is_the_componentwise_mean() {
    let single = vec![Vec2 { x: 4096, y: 8192 }];
    assert_eq!(average_position(&single), Vec2 { x: 4096, y: 8192 });

    let pair = vec![Vec2 { x: 0, y: 0 }, Vec2 { x: 4096, y: 8192 }];
    assert_eq!(average_position(&pair), Vec2 { x: 2048, y: 4096 });

    let triple = vec![
        Vec2 { x: 0, y: 0 },
        Vec2 { x: 0, y: 0 },
        Vec2 { x: 4096, y: 0 },
    ];
    assert_eq!(average_position(&triple), Vec2 { x: 1365, y: 0 });
}

#[test]
fn bounds_contain_only_inside_points() {
    let bounds = Bounds { x: 0, y: 0, width: 100, height: 50 };
    assert!(bounds.contains_point(&Vec2 { x: 0, y: 0 }));
    assert!(bounds.contains_point(&Vec2 { x: 99, y: 49 }));
    assert!(!bounds.contains_point(&Vec2 { x: 100, y: 0 }));
    assert!(!bounds.contains_point(&Vec2 { x: 0, y: 50 }));
    assert!(!bounds.contains_point(&Vec2 { x: -1, y: 10 }));
}

#[test]
fn interaction_is_forwarded_only_inside_the_bounds() {
    let bounds = Bounds { x: 10, y: 10, width: 20, height: 20 };
    assert!(forward_interaction(&bounds, &Some(Vec2 { x: 15, y: 15 })));
    assert!(!forward_interaction(&bounds, &Some(Vec2 { x: 5, y: 15 })));
    assert!(!forward_interaction(&bounds, &None));
}

fn viewport(offset_x: i64) -> PubState {
    PubState {
        scale: Rat::new(1, 1),
        starting_offset: Vec2 { x: 0, y: 0 },
        current_offset: Vec2 { x: offset_x, y: 0 },
        cursor_grabbed_at: None,
    }
}

#[test]
fn redraw_happens_only_when_an_input_changed() {
    let key = RenderKey {
        viewport: viewport(0),
        guessed: vec![false, true],
        feedback: None,
        viewing_map: false,
    };
    let same = RenderKey {
        viewport: viewport(0),
        guessed: vec![false, true],
        feedback: None,
        viewing_map: false,
    };
    assert!(!needs_redraw(&key, &same));

    let panned = RenderKey { viewport: viewport(7), ..same.clone() };
    assert!(needs_redraw(&key, &panned));

    let guessed_more = RenderKey { guessed: vec![true, true], ..same.clone() };
    assert!(needs_redraw(&key, &guessed_more));

    let toggled = RenderKey { viewing_map: true, ..same.clone() };
    assert!(needs_redraw(&key, &toggled));

    let with_feedback = RenderKey {
        feedback: Some(Feedback::new(
            "Unknown Station",
            Rgb { r: 200, g: 0, b: 0 },
            None,
            2000,
            0,
        )),
        ..same.clone()
    };
    assert!(needs_redraw(&key, &with_feedback));
    assert!(!needs_redraw(&with_feedback, &with_feedback));
}

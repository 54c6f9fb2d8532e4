use tube_tag::colour::Rgb;
use tube_tag::coordinate_system::Vec2;
use tube_tag::game::{Feedback, Game, Message, Phase};
use tube_tag::stations::{Anchor, NameData, Station};

fn station(name: &str, x: i64, y: i64) -> Station {
    Station {
        name: name.to_string(),
        station_positions: vec![Vec2 { x, y }],
        name_data: NameData {
            anchor: Anchor::North,
            name_lines: None,
            offset: Vec2 { x: 0, y: 0 },
        },
    }
}

fn sample_game() -> Game {
    let stations = vec![
        station("Paddington", 4096000, 4096000),
        station("Victoria", 8192000, 8192000),
        station("Edgware Road (Circle Line)", 12288000, 4096000),
        station("Edgware Road (Bakerloo Line)", 12300000, 4100000),
        station("Oxford Circus", 16384000, 8192000),
    ];
    let mut rng = rand::thread_rng();
    Game::new(stations, &mut rng)
}

#[test]
fn new_game_starts_a_round() {
    let game = sample_game();
    assert_eq!(game.phase, Phase::InProgress);
    assert!(game.target_station.is_some());
    assert!(game.target_station.unwrap() < 5);
    assert!(game.guessed_stations.iter().all(|g| !g));
    assert!(game.feedback.is_none());
    assert_eq!(game.station_input, "");
    assert!(!game.viewing_map);
}

#[test]
fn guessing_the_target_name_wins_and_reveals_everything() {
    let mut game = sample_game();
    game.target_station = Some(1);
    game.guess_input_changed("Victoria".to_string());
    game.submit_guess(5000);
    assert_eq!(game.phase, Phase::Won);
    assert!(game.guessed_stations.iter().all(|g| *g));
    let feedback = game.feedback.as_ref().unwrap();
    assert_eq!(feedback.message, "You Won!");
    assert_eq!(feedback.duration_ms, 15000);
    assert_eq!(feedback.created_ms, 5000);
    assert!(feedback.overlay.is_some());
    assert_eq!(game.station_input, "");
}

#[test]
fn guessing_a_duplicate_name_target_wins_through_the_pair() {
    let mut game = sample_game();
    game.target_station = Some(3);
    game.guess_input_changed("Edgware Road".to_string());
    game.submit_guess(100);
    assert_eq!(game.phase, Phase::Won);
    assert!(game.guessed_stations.iter().all(|g| *g));
}

#[test]
fn wrong_guess_marks_the_station_and_keeps_playing() {
    let mut game = sample_game();
    game.target_station = Some(0);
    game.guess_input_changed("Victoria".to_string());
    game.submit_guess(100);
    assert_eq!(game.phase, Phase::InProgress);
    assert!(game.guessed_stations[1]);
    assert!(!game.guessed_stations[0]);
    assert_eq!(game.station_input, "");
    assert!(game.feedback.is_none());
}

#[test]
fn unrecognized_guess_sets_feedback_and_keeps_the_input() {
    let mut game = sample_game();
    game.target_station = Some(0);
    game.guess_input_changed("zzzzqqqqxxxx".to_string());
    game.submit_guess(250);
    assert_eq!(game.phase, Phase::InProgress);
    assert!(game.guessed_stations.iter().all(|g| !g));
    assert_eq!(game.station_input, "zzzzqqqqxxxx");
    let feedback = game.feedback.as_ref().unwrap();
    assert_eq!(feedback.message, "Unknown Station");
    assert_eq!(feedback.colour, Rgb { r: 200, g: 0, b: 0 });
    assert!(feedback.overlay.is_none());
    assert_eq!(feedback.created_ms, 250);
    assert_eq!(feedback.duration_ms, 2000);
}

#[test]
fn restart_twice_always_leaves_a_fresh_round() {
    let mut game = sample_game();
    let mut rng = rand::thread_rng();
    game.give_up();
    game.restart(&mut rng);
    assert!(game.guessed_stations.iter().all(|g| !g));
    assert_eq!(game.phase, Phase::InProgress);
    assert!(game.target_station.is_some());
    assert!(game.feedback.is_none());
    game.restart(&mut rng);
    assert!(game.guessed_stations.iter().all(|g| !g));
    assert_eq!(game.phase, Phase::InProgress);
    assert!(game.target_station.unwrap() < 5);
    assert!(game.feedback.is_none());
}

#[test]
fn give_up_reveals_without_winning() {
    let mut game = sample_game();
    let target = game.target_station;
    game.give_up();
    assert!(game.guessed_stations.iter().all(|g| *g));
    assert_eq!(game.phase, Phase::InProgress);
    assert_eq!(game.target_station, target);
    assert!(game.feedback.is_none());
}

#[test]
fn feedback_renders_only_while_its_duration_lasts() {
    let feedback = Feedback::new(
        "Unknown Station",
        Rgb { r: 200, g: 0, b: 0 },
        None,
        2000,
        1000,
    );
    assert!(feedback.is_visible(1000));
    assert!(feedback.is_visible(2999));
    assert!(!feedback.is_visible(3000));
    assert!(!feedback.is_visible(10000));
}

#[test]
fn update_dispatches_player_actions() {
    let mut game = sample_game();
    let mut rng = rand::thread_rng();
    game.update(
        Message::GuessInputChanged("Bank".to_string()),
        &mut rng,
        0,
    );
    assert_eq!(game.station_input, "Bank");
    game.update(Message::ShowMap, &mut rng, 0);
    assert!(game.viewing_map);
    game.update(Message::ShowMap, &mut rng, 0);
    assert!(!game.viewing_map);
    game.update(Message::GiveUp, &mut rng, 0);
    assert!(game.guessed_stations.iter().all(|g| *g));
    game.update(Message::Restart, &mut rng, 0);
    assert!(game.guessed_stations.iter().all(|g| !g));
    game.target_station = Some(4);
    game.update(
        Message::GuessInputChanged("Oxford Circus".to_string()),
        &mut rng,
        7,
    );
    game.update(Message::GuessSubmitted, &mut rng, 7);
    assert_eq!(game.phase, Phase::Won);
}

#[test]
fn empty_input_is_an_unknown_station() {
    let mut game = sample_game();
    game.target_station = Some(0);
    game.submit_guess(40);
    assert_eq!(game.phase, Phase::InProgress);
    assert!(game.guessed_stations.iter().all(|g| !g));
    let feedback = game.feedback.as_ref().unwrap();
    assert_eq!(feedback.message, "Unknown Station");
}

#[test]
fn reinserting_a_guess_is_a_no_op() {
    let mut game = sample_game();
    game.target_station = Some(0);
    game.apply_guess(&vec![1], 10);
    game.apply_guess(&vec![1], 20);
    assert!(game.guessed_stations[1]);
    assert_eq!(game.guessed_stations.iter().filter(|g| **g).count(), 1);
    assert_eq!(game.phase, Phase::InProgress);
}

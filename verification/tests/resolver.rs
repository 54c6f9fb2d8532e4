use tube_tag::coordinate_system::Vec2;
use tube_tag::resolver::{find_duplicate_members, resolve_hits, StationIndex};
use tube_tag::stations::{Anchor, NameData, Station};

fn station(name: &str, x: i64, y: i64) -> Station {
    Station {
        name: name.to_string(),
        station_positions: vec![Vec2 { x, y }],
        name_data: NameData {
            anchor: Anchor::North,
            name_lines: None,
            offset: Vec2 { x: 0, y: 0 },
        },
    }
}

fn sample_stations() -> Vec<Station> {
    vec![
        station("Paddington", 4096000, 4096000),
        station("Victoria", 8192000, 8192000),
        station("Edgware Road (Circle Line)", 12288000, 4096000),
        station("Edgware Road (Bakerloo Line)", 12300000, 4100000),
        station("Oxford Circus", 16384000, 8192000),
    ]
}

#[test]
fn exact_name_resolves_to_its_station() {
    let stations = sample_stations();
    let index = StationIndex::build(&stations);
    assert_eq!(index.resolve("Victoria"), vec![1]);
    assert_eq!(index.resolve("Oxford Circus"), vec![4]);
    assert_eq!(index.resolve("Paddington"), vec![0]);
}

#[test]
fn small_typos_still_resolve() {
    let stations = sample_stations();
    let index = StationIndex::build(&stations);
    assert_eq!(index.resolve("Paddingtun"), vec![0]);
    assert_eq!(index.resolve("Oxford Circuss"), vec![4]);
}

#[test]
fn unrelated_text_resolves_to_nothing() {
    let stations = sample_stations();
    let index = StationIndex::build(&stations);
    assert_eq!(index.resolve("zzzzqqqqxxxx"), Vec::<usize>::new());
}

#[test]
fn duplicate_name_resolves_to_both_stations() {
    let stations = sample_stations();
    let index = StationIndex::build(&stations);
    let ids = index.resolve("Edgware Road");
    assert_eq!(ids.len(), 2);
    assert!(ids.contains(&2));
    assert!(ids.contains(&3));
}

#[test]
fn other_names_resolve_to_exactly_one() {
    let stations = sample_stations();
    let index = StationIndex::build(&stations);
    assert_eq!(index.resolve("Victoria").len(), 1);
    assert_eq!(index.resolve("Oxford Circus").len(), 1);
}

#[test]
fn duplicate_table_lists_the_first_two_matches() {
    let stations = sample_stations();
    let members = find_duplicate_members(&stations, "Edgware Road");
    assert_eq!(members, vec![2, 3]);
    let none = find_duplicate_members(&stations, "Mornington Crescent");
    assert_eq!(none, Vec::<usize>::new());
}

#[test]
fn hit_post_processing_applies_the_carve_out() {
    let stations = sample_stations();
    let index = StationIndex::build(&stations);
    // Nothing resolved stays nothing.
    assert_eq!(resolve_hits(&index.groups, &vec![]), Vec::<usize>::new());
    // A best hit outside the duplicate group stands alone.
    assert_eq!(resolve_hits(&index.groups, &vec![1, 0]), vec![1]);
    // A best hit inside the group widens to the whole group.
    assert_eq!(resolve_hits(&index.groups, &vec![2]), vec![2, 3]);
    assert_eq!(resolve_hits(&index.groups, &vec![3, 1]), vec![2, 3]);
}

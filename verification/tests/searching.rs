use tube_tag::searching::levenshtein_distance;

#[test]
fn distance_of_equal_strings_is_zero() {
    assert_eq!(levenshtein_distance("Victoria", "Victoria"), 0);
    assert_eq!(levenshtein_distance("", ""), 0);
}

#[test]
fn distance_from_empty_is_length() {
    assert_eq!(levenshtein_distance("", "Angel"), 5);
    assert_eq!(levenshtein_distance("Angel", ""), 5);
}

#[test]
fn classic_distance_examples() {
    assert_eq!(levenshtein_distance("kitten", "sitting"), 3);
    assert_eq!(levenshtein_distance("flaw", "lawn"), 2);
    assert_eq!(levenshtein_distance("gumbo", "gambol"), 2);
}

#[test]
fn single_typo_is_distance_one() {
    assert_eq!(levenshtein_distance("Victoria", "Victorla"), 1);
    assert_eq!(levenshtein_distance("Angel", "Angle"), 2);
    assert_eq!(levenshtein_distance("Bank", "Banks"), 1);
}

#[test]
fn distance_is_symmetric_on_samples() {
    assert_eq!(
        levenshtein_distance("Waterloo", "Bakerloo"),
        levenshtein_distance("Bakerloo", "Waterloo"),
    );
}

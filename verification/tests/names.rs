use tube_tag::names::{contains_substring, has_parenthetical_str, strip_parenthetical};

#[test]
fn detects_parenthetical_qualifiers() {
    assert!(has_parenthetical_str("Edgware Road (Circle Line)"));
    assert!(has_parenthetical_str("a(b)c"));
    assert!(!has_parenthetical_str("Edgware Road"));
    assert!(!has_parenthetical_str(""));
    // An unclosed or lone parenthesis is no qualifier.
    assert!(!has_parenthetical_str("Oval ("));
    assert!(!has_parenthetical_str(") ("));
}

#[test]
fn strips_the_qualifier_and_keeps_the_rest() {
    assert_eq!(
        strip_parenthetical("Edgware Road (Circle Line)"),
        "Edgware Road ",
    );
    assert_eq!(strip_parenthetical("Hammersmith (H&C)"), "Hammersmith ");
    assert_eq!(strip_parenthetical("plain"), "plain");
    assert_eq!(strip_parenthetical(""), "");
}

#[test]
fn strips_every_qualifier() {
    assert_eq!(strip_parenthetical("a(b)c(d)e"), "ace");
}

#[test]
fn unclosed_parenthesis_stays() {
    assert_eq!(strip_parenthetical("a(bc"), "a(bc");
    assert_eq!(strip_parenthetical("a)b"), "a)b");
}

#[test]
fn minimal_spans_are_removed() {
    // Stripping runs from each opening parenthesis to the next closing
    // one.
    assert_eq!(strip_parenthetical("((a)b)"), "b)");
}

#[test]
fn substring_search_finds_infixes() {
    assert!(contains_substring("Edgware Road (Circle Line)", "Edgware Road"));
    assert!(contains_substring("abc", "abc"));
    assert!(contains_substring("abc", ""));
    assert!(contains_substring("abc", "bc"));
    assert!(!contains_substring("abc", "cb"));
    assert!(!contains_substring("ab", "abc"));
}

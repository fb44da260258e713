use slq::text::{
    chars_of, contains, first_line, lowercase_chars, matches_at, same_text, starts_with,
    string_of,
};

#[test]
fn contains_finds_an_inner_word() {
    let text = chars_of("Stockholm Central Station");
    assert!(contains(&text, &chars_of("Central")));
    assert!(contains(&text, &chars_of("Stockholm")));
    assert!(contains(&text, &chars_of("Station")));
    assert!(!contains(&text, &chars_of("central")));
    assert!(!contains(&text, &chars_of("Stations")));
}

#[test]
fn contains_takes_the_empty_needle_everywhere() {
    assert!(contains(&chars_of("abc"), &chars_of("")));
    assert!(contains(&chars_of(""), &chars_of("")));
    assert!(!contains(&chars_of(""), &chars_of("a")));
}

#[test]
fn matches_at_checks_one_position() {
    let text = chars_of("T-Centralen");
    let needle = chars_of("Cent");
    assert!(matches_at(&text, &needle, 2));
    assert!(!matches_at(&text, &needle, 1));
    assert!(!matches_at(&text, &needle, 9));
    assert!(!matches_at(&text, &needle, 400));
}

#[test]
fn starts_with_compares_the_head() {
    assert!(starts_with(&chars_of("28s"), &chars_of("28")));
    assert!(starts_with(&chars_of("28"), &chars_of("28")));
    assert!(!starts_with(&chars_of("2"), &chars_of("28")));
    assert!(!starts_with(&chars_of("128"), &chars_of("28")));
}

#[test]
fn same_text_needs_equal_length_and_characters() {
    assert!(same_text(&chars_of("metro"), &chars_of("metro")));
    assert!(!same_text(&chars_of("metro"), &chars_of("metros")));
    assert!(!same_text(&chars_of("metro"), &chars_of("metra")));
}

#[test]
fn chars_and_string_round_trip() {
    let text = "Älvsjö 28S";
    let chars = chars_of(text);
    assert_eq!(chars.len(), 10);
    assert_eq!(chars[0], 'Ä');
    assert_eq!(string_of(&chars), text);
    assert_eq!(string_of(&Vec::new()), "");
}

#[test]
fn lowercase_chars_folds_beyond_ascii() {
    assert_eq!(string_of(&lowercase_chars("PENDELTÅG Älvsjö")), "pendeltåg älvsjö");
}

#[test]
fn first_line_stops_at_the_line_feed() {
    let line = |text: &str| first_line(&chars_of(text)).map(|l| string_of(&l));
    assert_eq!(line("slq 0.1\nusage"), Some("slq 0.1".to_string()));
    assert_eq!(line("slq 0.1\r\nusage"), Some("slq 0.1".to_string()));
    assert_eq!(line("one line"), Some("one line".to_string()));
    assert_eq!(line("\nsecond"), Some(String::new()));
    assert_eq!(line(""), None);
}

#[test]
fn first_line_agrees_with_the_standard_lines() {
    let samples =
        ["", "a", "a\n", "a\r\n", "a\r", "\r\n", "\r", "\n", "a\rb\nc", "a\n\nb", "\r\r\n"];
    for text in samples {
        let ours = first_line(&chars_of(text)).map(|l| string_of(&l));
        let theirs = text.lines().next().map(|l| l.to_string());
        assert_eq!(ours, theirs, "{:?}", text);
    }
}

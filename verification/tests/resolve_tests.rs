use slq::model::StopRecord;
use slq::resolve::{plan_resolution, resolve, search_for_sites, Resolution};

fn stop(id: u64, name: &str) -> StopRecord {
    StopRecord { id, name: name.to_string() }
}

fn directory() -> Vec<StopRecord> {
    vec![
        stop(9192, "Slussen"),
        stop(9600, "T-Centralen"),
        stop(9001, "Stockholm Centralstation"),
        stop(9529, "Älvsjö"),
    ]
}

#[test]
fn a_numeric_query_is_its_own_stop() {
    assert_eq!(resolve("9600", &directory()), vec![stop(9600, "9600")]);
    assert_eq!(resolve("9600", &Vec::new()), vec![stop(9600, "9600")]);
    assert_eq!(resolve("9600", &vec![stop(1, "9600")]), vec![stop(9600, "9600")]);
    assert_eq!(resolve("424242", &directory()), vec![stop(424242, "424242")]);
    assert_eq!(resolve("+7", &directory()), vec![stop(7, "+7")]);
}

#[test]
fn a_numeric_query_needs_no_directory() {
    assert_eq!(plan_resolution("9600"), Resolution::Known(stop(9600, "9600")));
    assert_eq!(plan_resolution("0"), Resolution::Known(stop(0, "0")));
    assert_eq!(plan_resolution("central"), Resolution::Lookup);
    assert_eq!(plan_resolution("-1"), Resolution::Lookup);
    assert_eq!(plan_resolution(""), Resolution::Lookup);
    assert_eq!(plan_resolution("96 00"), Resolution::Lookup);
    assert_eq!(plan_resolution("99999999999999999999"), Resolution::Lookup);
}

#[test]
fn a_name_matches_as_a_substring_whatever_the_case() {
    let all = directory();
    assert_eq!(
        resolve("central", &all),
        vec![stop(9600, "T-Centralen"), stop(9001, "Stockholm Centralstation")]
    );
    assert_eq!(resolve("SLUSS", &all), vec![stop(9192, "Slussen")]);
    assert_eq!(resolve("älv", &all), vec![stop(9529, "Älvsjö")]);
    assert_eq!(resolve("ÄLVSJÖ", &all), vec![stop(9529, "Älvsjö")]);
}

#[test]
fn results_follow_directory_order() {
    let all = vec![stop(3, "Centrum C"), stop(1, "Centrum A"), stop(2, "Centrum B")];
    assert_eq!(search_for_sites("centrum", &all), all);
}

#[test]
fn no_match_is_an_empty_list() {
    assert!(resolve("Gamla stan", &directory()).is_empty());
    assert!(resolve("central", &Vec::new()).is_empty());
}

#[test]
fn the_empty_query_matches_every_stop() {
    assert_eq!(search_for_sites("", &directory()), directory());
}

#[test]
fn search_for_sites_does_not_short_circuit() {
    let all = vec![stop(1, "Gate 9600"), stop(9600, "T-Centralen")];
    assert_eq!(search_for_sites("9600", &all), vec![stop(1, "Gate 9600")]);
}

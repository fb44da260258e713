use slq::filter::{
    filter_by_destination, filter_by_line, filter_by_mode, filter_by_transport, get_departures,
    keep_classifiable, limit_to, select_departures, ResolvedQuery,
};
use slq::rules::{classify, destination_rule, group_rule, line_rule, mode_of};
use slq::model::{Departure, Line, TransportMode};

fn departure(designation: &str, group: Option<&str>, destination: &str) -> Departure {
    Departure {
        destination: destination.to_string(),
        expected_local_time: "2025-11-02T11:14:02".to_string(),
        line: Line {
            designation: designation.to_string(),
            transport_group: group.map(|g| g.to_string()),
        },
    }
}

fn designations(departures: &Vec<Departure>) -> Vec<String> {
    departures.iter().map(|d| d.line.designation.clone()).collect()
}

fn line_family() -> Vec<Departure> {
    vec![
        departure("2", Some("Bussar"), "Sofia"),
        departure("28", Some("Tunnelbanans gröna linje"), "Stockholm Central Station"),
        departure("28S", Some("Tunnelbanans gröna linje"), "Ropsten"),
        departure("280", Some("Bussar"), "Kista 7"),
    ]
}

/// What the service might send for the stop with this identifier.
fn sample_board(stop: &str) -> Vec<Departure> {
    assert_eq!(stop, "9600");
    vec![
        departure("28", Some("Tunnelbanans gröna linje"), "Hässelby strand"),
        departure("17", None, "Åkeshov"),
        departure("28S", Some("Tunnelbanans gröna linje"), "Alvik"),
        departure("4", Some("Blåbuss"), "Radiohuset"),
        departure("280", Some("Bussar"), "Kista"),
    ]
}

#[test]
fn get_departures_should_obey_line_limit() {
    let fetched = sample_board("9600");
    let departures = get_departures(&fetched, &None, &Some(2), &None, &None);
    let actual = departures.len();
    assert_eq!(2, actual);

    let departures = get_departures(&fetched, &None, &Some(1), &None, &None);
    let actual = departures.len();
    assert_eq!(1, actual);
}

#[test]
fn get_departures_should_filter_lines() {
    let fetched = sample_board("9600");
    let departures = get_departures(&fetched, &Some("28".to_string()), &Some(1), &None, &None);
    if !departures
        .iter()
        .all(|d| d.line.designation.starts_with("28"))
    {
        assert!(false, "Should only contain results for line 28");
    }
    assert_eq!(designations(&departures), vec!["28"]);
}

#[test]
fn line_filter_keeps_the_base_line_and_its_letter_variants() {
    let kept = filter_by_line(&line_family(), "28");
    assert_eq!(designations(&kept), vec!["28", "28S"]);
}

#[test]
fn line_filter_for_a_variant_keeps_only_that_variant() {
    let kept = filter_by_line(&line_family(), "28S");
    assert_eq!(designations(&kept), vec!["28S"]);
    let kept = filter_by_line(&line_family(), "28s");
    assert_eq!(designations(&kept), vec!["28S"]);
}

#[test]
fn line_rule_decides_single_designations() {
    assert!(line_rule("28", "28"));
    assert!(line_rule("28S", "28"));
    assert!(line_rule("28x", "28"));
    assert!(line_rule("28S", "28s"));
    assert!(!line_rule("2", "28"));
    assert!(!line_rule("280", "28"));
    assert!(!line_rule("28", "28S"));
    assert!(!line_rule("28-", "28"));
    assert!(!line_rule("128", "28"));
    assert!(line_rule("Å", ""));
    assert!(!line_rule("7", ""));
    assert!(line_rule("", ""));
}

#[test]
fn departures_without_a_category_are_dropped() {
    let fetched = sample_board("9600");
    let kept = keep_classifiable(&fetched);
    assert_eq!(designations(&kept), vec!["28", "28S", "4", "280"]);
    assert_eq!(fetched.len(), 5);
}

#[test]
fn departures_without_a_category_never_pass_the_pipeline() {
    let fetched = sample_board("9600");
    let all = get_departures(&fetched, &None, &None, &None, &None);
    assert_eq!(designations(&all), vec!["28", "28S", "4", "280"]);
    let seventeen = get_departures(&fetched, &Some("17".to_string()), &None, &None, &None);
    assert!(seventeen.is_empty());
    let west = get_departures(&fetched, &None, &None, &None, &Some("Åkeshov".to_string()));
    assert!(west.is_empty());
    let unknown_mode =
        get_departures(&fetched, &None, &None, &Some("hovercraft".to_string()), &None);
    assert_eq!(designations(&unknown_mode), vec!["28", "28S", "4", "280"]);
}

#[test]
fn transport_words_name_four_modes() {
    assert_eq!(mode_of("metro"), Some(TransportMode::Metro));
    assert_eq!(mode_of("Bus"), Some(TransportMode::Bus));
    assert_eq!(mode_of("TRAIN"), Some(TransportMode::Train));
    assert_eq!(mode_of("tram"), Some(TransportMode::Tram));
    assert_eq!(mode_of("ferry"), None);
    assert_eq!(mode_of(""), None);
    assert_eq!(mode_of("metro "), None);
}

#[test]
fn category_labels_fall_under_modes_by_their_words() {
    assert!(group_rule("Tunnelbanans gröna linje", TransportMode::Metro));
    assert!(group_rule("TUNNELBANANS RÖDA LINJE", TransportMode::Metro));
    assert!(group_rule("Bussar", TransportMode::Bus));
    assert!(group_rule("Blåbuss", TransportMode::Bus));
    assert!(group_rule("Pendeltåg", TransportMode::Train));
    assert!(group_rule("PENDELTÅG", TransportMode::Train));
    assert!(group_rule("Spårväg City", TransportMode::Tram));
    assert!(group_rule("Spårvagn", TransportMode::Tram));
    assert!(!group_rule("Bussar", TransportMode::Metro));
    assert!(!group_rule("Pendelbåt", TransportMode::Train));
    assert!(!group_rule("", TransportMode::Bus));
}

#[test]
fn classify_takes_the_first_mode_that_fits() {
    assert_eq!(classify("Tunnelbanans blå linje"), Some(TransportMode::Metro));
    assert_eq!(classify("Ersättningsbuss"), Some(TransportMode::Bus));
    assert_eq!(classify("Pendeltåg"), Some(TransportMode::Train));
    assert_eq!(classify("Spårväg City"), Some(TransportMode::Tram));
    assert_eq!(classify("Buss för tunnelbana"), Some(TransportMode::Metro));
    assert_eq!(classify("Pendelbåt"), None);
}

#[test]
fn mode_filter_keeps_one_mode() {
    let fetched = sample_board("9600");
    assert_eq!(designations(&filter_by_mode(&fetched, TransportMode::Metro)), vec!["28", "28S"]);
    assert_eq!(designations(&filter_by_mode(&fetched, TransportMode::Bus)), vec!["4", "280"]);
    assert!(filter_by_mode(&fetched, TransportMode::Tram).is_empty());
}

#[test]
fn an_unknown_transport_word_filters_nothing() {
    let fetched = sample_board("9600");
    let kept = filter_by_transport(&fetched, "zeppelin");
    assert_eq!(kept, fetched);
    let kept = filter_by_transport(&fetched, "BUS");
    assert_eq!(designations(&kept), vec!["4", "280"]);
}

#[test]
fn destination_filter_ignores_case() {
    assert!(destination_rule("Stockholm Central Station", "central"));
    assert!(destination_rule("stockholm central station", "CENTRAL"));
    assert!(destination_rule("Älvsjö", "älv"));
    assert!(!destination_rule("Stockholm Central Station", "centrum"));
    let kept = filter_by_destination(&line_family(), "central");
    assert_eq!(designations(&kept), vec!["28"]);
}

#[test]
fn a_numeric_destination_filter_looks_for_the_numeral() {
    assert!(destination_rule("Kista 7", "7"));
    assert!(destination_rule("Kista 7", "007"));
    assert!(destination_rule("Kista 7", "+7"));
    assert!(destination_rule("Gate 17", "7"));
    assert!(!destination_rule("Kista 7", "8"));
    assert!(!destination_rule("Kista 7", "-7"));
    assert!(destination_rule("Zon -7", "-7"));
    let kept = filter_by_destination(&line_family(), "7");
    assert_eq!(designations(&kept), vec!["280"]);
}

#[test]
fn limit_cuts_at_the_count_and_keeps_the_order() {
    let fetched = sample_board("9600");
    assert_eq!(designations(&limit_to(&fetched, 3)), vec!["28", "17", "28S"]);
    assert!(limit_to(&fetched, 0).is_empty());
    assert_eq!(limit_to(&fetched, 5), fetched);
    assert_eq!(limit_to(&fetched, 50), fetched);
}

#[test]
fn limiting_twice_is_limiting_once() {
    let fetched = sample_board("9600");
    for n in [0usize, 1, 2, 4, 5, 6, usize::MAX] {
        let once = limit_to(&fetched, n);
        let twice = limit_to(&once, n);
        assert_eq!(once, twice);
    }
}

#[test]
fn the_pipeline_applies_every_filter_in_order() {
    let fetched = vec![
        departure("28", Some("Tunnelbanans gröna linje"), "Alvik"),
        departure("28", Some("Bussar"), "Alvik"),
        departure("28S", None, "Alvik"),
        departure("28X", Some("Tunnelbana"), "Ropsten"),
        departure("28S", Some("Tunnelbana"), "Alviks strand"),
        departure("28", Some("tunnelbana"), "ALVIK"),
    ];
    let kept = get_departures(
        &fetched,
        &Some("28".to_string()),
        &Some(2),
        &Some("metro".to_string()),
        &Some("alvik".to_string()),
    );
    assert_eq!(kept, vec![fetched[0].clone(), fetched[4].clone()]);
    let unlimited = get_departures(
        &fetched,
        &Some("28".to_string()),
        &None,
        &Some("metro".to_string()),
        &Some("alvik".to_string()),
    );
    assert_eq!(unlimited, vec![fetched[0].clone(), fetched[4].clone(), fetched[5].clone()]);
}

#[test]
fn an_empty_selection_is_a_result() {
    let kept = get_departures(&Vec::new(), &None, &Some(10), &None, &None);
    assert!(kept.is_empty());
}

#[test]
fn a_query_selects_what_its_request_selects() {
    let fetched = sample_board("9600");
    let query = ResolvedQuery::new(
        9600,
        Some("28".to_string()),
        Some(5),
        &Some("Metro".to_string()),
        None,
    );
    assert_eq!(query.stop_id, 9600);
    assert_eq!(query.transport_filter, Some(TransportMode::Metro));
    assert_eq!(query.limit, Some(5));
    assert_eq!(designations(&query.select(&fetched)), vec!["28", "28S"]);
    let open = ResolvedQuery::new(9600, None, None, &Some("anything".to_string()), None);
    assert_eq!(open.transport_filter, None);
    assert_eq!(designations(&open.select(&fetched)), vec!["28", "28S", "4", "280"]);
    assert_eq!(
        select_departures(&fetched, &None, &Some(1), Some(TransportMode::Bus), &None),
        vec![fetched[3].clone()]
    );
}

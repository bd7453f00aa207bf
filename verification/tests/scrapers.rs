use civic_graph::calendar::{generate_general_election_date as election_date, NoElectionDate};
use civic_graph::election::generate_general_election_title_slug as title_slug;
use civic_graph::geography::State;
use civic_graph::office::{generate_office_slug as office_slug, ElectionScope, UpsertOfficeInput};
use civic_graph::slug::slugify;

#[test]
fn generate_general_election_date() {
    let tests: Vec<((u32, u32), u16)> = vec![
        ((11, 7), 2023),
        ((11, 5), 2024),
        ((11, 4), 2025),
        ((11, 3), 2026),
        ((11, 2), 2027),
        ((11, 7), 2028),
    ];

    for (expected, input) in tests {
        let date = election_date(input).unwrap();
        assert_eq!(expected, (date.month, date.day));
    }
}

#[test]
fn generate_general_election_title_slug() {
    let tests: Vec<((&'static str, &'static str), (State, u16))> = vec![
        (
            (
                "Colorado General Election 2024",
                "colorado-general-election-2024",
            ),
            (State::CO, 2024),
        ),
        (
            (
                "Minnesota General Election 2025",
                "minnesota-general-election-2025",
            ),
            (State::MN, 2025),
        ),
    ];

    for (expected, input) in tests {
        let actual = title_slug(&input.0, input.1);
        assert_eq!(expected.0, actual.0);
        assert_eq!(expected.1, actual.1);
    }
}

#[test]
fn generate_office_slug() {
    let tests: Vec<(&'static str, UpsertOfficeInput)> = vec![
        (
            "co-us-senate-1",
            UpsertOfficeInput {
                state: Some(State::CO),
                name: Some("U.S. Senate".into()),
                seat: Some("1".into()),
                ..Default::default()
            },
        ),
        (
            "co-us-house-1",
            UpsertOfficeInput {
                state: Some(State::CO),
                name: Some("U.S. House".into()),
                election_scope: Some(ElectionScope::District),
                district: Some("1".into()),
                ..Default::default()
            },
        ),
        (
            "co-district-something-at-large",
            UpsertOfficeInput {
                state: Some(State::CO),
                name: Some("District Something".into()),
                election_scope: Some(ElectionScope::District),
                district: None,
                seat: Some("At Large".into()),
                ..Default::default()
            },
        ),
        (
            "co-district-something",
            UpsertOfficeInput {
                state: Some(State::CO),
                name: Some("District Something".into()),
                election_scope: Some(ElectionScope::District),
                // no district or seat specified
                ..Default::default()
            },
        ),
        (
            "co-county-judge-adams",
            UpsertOfficeInput {
                state: Some(State::CO),
                name: Some("County Judge".into()),
                election_scope: Some(ElectionScope::County),
                county: Some("Adams".into()),
                ..Default::default()
            },
        ),
        (
            "co-county-judge",
            UpsertOfficeInput {
                state: Some(State::CO),
                name: Some("County Judge".into()),
                election_scope: Some(ElectionScope::County),
                // no county specified
                ..Default::default()
            },
        ),
        (
            "co-court-of-appeals-judge",
            UpsertOfficeInput {
                state: Some(State::CO),
                name: Some("Court of Appeals Judge".into()),
                ..Default::default()
            },
        ),
    ];

    for (expected, input) in tests {
        assert_eq!(expected, office_slug(&input));
    }
}

#[test]
fn election_day_is_in_the_first_days_of_november() {
    for year in [1900u16, 1999, 2000, 2024, 2100, 9999] {
        let date = election_date(year).unwrap();
        assert_eq!(date.year, year as i32);
        assert_eq!(date.month, 11);
        assert!(2 <= date.day && date.day <= 8);
    }
}

#[test]
fn election_day_of_a_year_that_starts_november_on_a_monday() {
    // 1 November 2021 was a Monday, so the election fell on the 2nd.
    let date = election_date(2021).unwrap();
    assert_eq!((date.year, date.month, date.day), (2021, 11, 2));
    // 1 November 2022 was a Tuesday: the first Monday was the 7th.
    let date = election_date(2022).unwrap();
    assert_eq!((date.year, date.month, date.day), (2022, 11, 8));
}

#[test]
fn no_election_date_message_names_the_year() {
    let e = NoElectionDate { year: 2024 };
    assert_eq!(e.message(), "Unable to determine general election date for year: 2024");
    let e = NoElectionDate { year: 0 };
    assert_eq!(e.message(), "Unable to determine general election date for year: 0");
}

#[test]
fn slugify_lowers_and_hyphenates() {
    assert_eq!(slugify("Hello World"), "hello-world");
    assert_eq!(slugify("  U.S. House  "), "u-s-house");
    assert_eq!(slugify(""), "");
}

#[test]
fn office_slug_of_nothing_is_empty() {
    assert_eq!(office_slug(&UpsertOfficeInput::default()), "");
}

#[test]
fn office_slug_prefers_district_over_seat() {
    let input = UpsertOfficeInput {
        state: Some(State::MN),
        name: Some("State Senate".into()),
        election_scope: Some(ElectionScope::District),
        district: Some("12".into()),
        seat: Some("B".into()),
        ..Default::default()
    };
    assert_eq!(office_slug(&input), "mn-state-senate-12");
}

#[test]
fn office_slug_of_a_county_office_ignores_the_seat() {
    let input = UpsertOfficeInput {
        state: Some(State::MN),
        name: Some("Sheriff".into()),
        election_scope: Some(ElectionScope::County),
        seat: Some("1".into()),
        ..Default::default()
    };
    assert_eq!(office_slug(&input), "mn-sheriff");
}

#[test]
fn state_names() {
    assert_eq!(State::CO.abbreviation(), "CO");
    assert_eq!(State::CO.full_state(), "Colorado");
    assert_eq!(State::DC.full_state(), "District of Columbia");
    assert_eq!(State::NH.full_state(), "New Hampshire");
}

use joel_bot::command::{parse_trip_command, trip_command_ack, trips_outcome};
use joel_bot::sl::SLError;
use joel_bot::timepoint::CivilDateTime;

const USAGE: &str = "Jag behöver två argument fattaru la? Ex: `/gg t-centr fruän`";

#[test]
fn two_tokens_are_accepted() {
    let r = parse_trip_command("t-centr fruän");
    let (from, to) = r.expect("two tokens must parse");
    assert_eq!(from, "t-centr");
    assert_eq!(to, "fruän");
}

#[test]
fn three_tokens_fail_fast_with_usage() {
    match parse_trip_command("a b c") {
        Err(m) => assert_eq!(m, USAGE),
        Ok(_) => panic!("three tokens must be refused"),
    }
}

#[test]
fn one_token_fails_fast_with_usage() {
    match parse_trip_command("centralen") {
        Err(m) => assert_eq!(m, USAGE),
        Ok(_) => panic!("one token must be refused"),
    }
}

#[test]
fn empty_text_fails_fast_with_usage() {
    assert!(parse_trip_command("").is_err());
}

#[test]
fn doubled_separator_fails_fast() {
    // "a  b" splits into three tokens, the middle one empty
    assert!(parse_trip_command("a  b").is_err());
}

#[test]
fn lone_separator_gives_two_empty_tokens() {
    let (from, to) = parse_trip_command(" ").expect("a lone space is two empty tokens");
    assert_eq!(from, "");
    assert_eq!(to, "");
}

#[test]
fn ack_text() {
    assert_eq!(trip_command_ack(), "Låt mig se efter om det finns en resa hos SL åt dig!");
}

#[test]
fn retrieval_failure_names_both_stations() {
    let now = CivilDateTime {
        year: 2020,
        month: 10,
        day: 30,
        hour: 9,
        minute: 0,
        epoch_seconds: 1_604_048_400,
    };
    let fetched = Err(SLError::new(String::from("500 Internal Server Error")));
    match trips_outcome("T-Centralen", "Fruängen", fetched, &now) {
        Err(e) => {
            assert_eq!(e.text, "Hittade ingen resa mellan T-Centralen och Fruängen");
            assert_eq!(e.response_type, "ephemeral");
        }
        Ok(_) => panic!("a failed retrieval must produce an error payload"),
    }
}

use joel_bot::sl::{
    get_first_station, resolve_station, SLError, SLStationInfo, SLStationInfoResponse,
    StationError,
};
use joel_bot::command::station_outcome;

fn candidate(name: &str, site_id: &str) -> SLStationInfo {
    SLStationInfo { name: String::from(name), site_id: String::from(site_id) }
}

fn ok_response(candidates: Vec<SLStationInfo>) -> SLStationInfoResponse {
    SLStationInfoResponse { status_code: 0, message: None, response_data: Some(candidates) }
}

#[test]
fn resolver_returns_first_of_many() {
    let resp = ok_response(vec![candidate("T-Centralen", "9001"), candidate("Tensta", "9002")]);
    let r = resolve_station(resp);
    match r {
        Ok(c) => {
            assert_eq!(c.name, "T-Centralen");
            assert_eq!(c.site_id, "9001");
        }
        Err(_) => panic!("a response with candidates must resolve"),
    }
}

#[test]
fn resolver_returns_single_candidate() {
    let resp = ok_response(vec![candidate("Fruängen", "9260")]);
    let r = resolve_station(resp);
    match r {
        Ok(c) => assert_eq!(c.site_id, "9260"),
        Err(_) => panic!("a response with one candidate must resolve"),
    }
}

#[test]
fn resolver_not_found_on_empty_list() {
    let resp = ok_response(vec![]);
    match resolve_station(resp) {
        Err(StationError::NotFound) => {}
        _ => panic!("an empty candidate list must be NotFound"),
    }
}

#[test]
fn resolver_not_found_on_missing_list() {
    let resp = SLStationInfoResponse { status_code: 0, message: None, response_data: None };
    match resolve_station(resp) {
        Err(StationError::NotFound) => {}
        _ => panic!("a missing candidate list must be NotFound"),
    }
}

#[test]
fn resolver_lookup_failed_on_nonzero_status() {
    let resp = SLStationInfoResponse {
        status_code: 4002,
        message: Some(String::from("Key not valid")),
        response_data: Some(vec![candidate("A", "1")]),
    };
    match resolve_station(resp) {
        Err(StationError::LookupFailed(m)) => assert_eq!(m, "Key not valid"),
        _ => panic!("a non-zero status must be LookupFailed"),
    }
}

#[test]
fn resolver_lookup_failed_without_message() {
    let resp = SLStationInfoResponse { status_code: 1, message: None, response_data: None };
    match resolve_station(resp) {
        Err(StationError::LookupFailed(m)) => assert_eq!(m, ""),
        _ => panic!("a non-zero status must be LookupFailed"),
    }
}

#[test]
fn first_station_of_fetched_result() {
    let r = get_first_station(Ok(ok_response(vec![candidate("Solna", "9305")])));
    assert_eq!(r.unwrap().site_id, "9305");

    let none = get_first_station(Ok(ok_response(vec![])));
    assert!(none.is_none());

    let err = get_first_station(Err(SLError::new(String::from("connection refused"))));
    assert!(err.is_none());
}

#[test]
fn station_outcome_messages_by_position() {
    let failed: Result<SLStationInfoResponse, SLError> =
        Err(SLError::new(String::from("timeout")));
    match station_outcome(true, "huddinge", failed) {
        Err(e) => {
            assert_eq!(e.text, "Hittade ingen station med namnet och huddinge");
            assert_eq!(e.response_type, "ephemeral");
        }
        Ok(_) => panic!("a failed fetch must produce an error payload"),
    }

    let empty = Ok(ok_response(vec![]));
    match station_outcome(false, "huddinge", empty) {
        Err(e) => assert_eq!(e.text, "Hittade ingen station med namnet huddinge"),
        Ok(_) => panic!("an empty search must produce an error payload"),
    }
}

#[test]
fn station_outcome_passes_candidate_through() {
    let fetched = Ok(ok_response(vec![candidate("Gullmarsplan", "9189")]));
    match station_outcome(true, "gullmarsplan", fetched) {
        Ok(c) => assert_eq!(c.site_id, "9189"),
        Err(_) => panic!("a search with a candidate must succeed"),
    }
}

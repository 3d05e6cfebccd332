//! The trip-planner data model: stations, legs, itineraries, the
//! station-search response, and the station resolver.
//!
//! All values here are built per request from remote-API responses by
//! the callers outside the library, which hand them in as plain data.

use vstd::prelude::*;

verus! {

/// A timed stop: a scheduled date and time, with optional
/// real-time-corrected values.
#[derive(Debug)]
pub struct SLStation {
    pub name: String,
    pub time: String,
    pub date: String,
    pub rt_time: Option<String>,
    pub rt_date: Option<String>,
}

impl SLStation {
    /// The effective time: the real-time value when present, else the
    /// scheduled one.
    pub open spec fn spec_effective_time(self) -> Seq<char> {
        match self.rt_time {
            Some(t) => t@,
            None => self.time@,
        }
    }

    /// The effective date: the real-time value when present, else the
    /// scheduled one.
    pub open spec fn spec_effective_date(self) -> Seq<char> {
        match self.rt_date {
            Some(d) => d@,
            None => self.date@,
        }
    }

    pub fn get_time(&self) -> (r: String)
        ensures
            r@ == self.spec_effective_time(),
    {
        match &self.rt_time {
            Some(real_time) => real_time.clone(),
            None => self.time.clone(),
        }
    }

    pub fn get_date(&self) -> (r: String)
        ensures
            r@ == self.spec_effective_date(),
    {
        match &self.rt_date {
            Some(real_date) => real_date.clone(),
            None => self.date.clone(),
        }
    }
}

/// The transport category of a vehicle leg.
#[derive(Debug)]
pub enum SLCategory {
    TRN,
    TRM,
    BUS,
    MET,
    UUU,
}

/// One vehicle ride within an itinerary.
#[derive(Debug)]
pub struct SLVehicle {
    pub origin: SLStation,
    pub destination: SLStation,
    pub name: String,
    pub direction: String,
    pub category: SLCategory,
}

/// One walk within an itinerary.  The planner emits internal filler
/// walks marked `hide: Some(true)`; those must not be shown.
#[derive(Debug)]
pub struct SLWalk {
    pub origin: SLStation,
    pub destination: SLStation,
    pub name: String,
    pub duration: String,
    pub dist: i32,
    pub hide: Option<bool>,
}

/// One leg of an itinerary: a walk or a vehicle ride.
#[derive(Debug)]
pub enum SLLeg {
    WALK(SLWalk),
    JNY(SLVehicle),
}

/// The ordered legs of one itinerary.
#[derive(Debug)]
pub struct SLLegList {
    pub legs: Vec<SLLeg>,
}

/// One complete trip option.
#[derive(Debug)]
pub struct SLTrip {
    pub leg_list: SLLegList,
}

/// The trip-planner response: trip options in the planner's ranking.
#[derive(Debug)]
pub struct SLTripResponse {
    pub trip: Vec<SLTrip>,
}

/// One station-search candidate: display name and the opaque site
/// identifier the trip planner keys on.
#[derive(Debug, Clone)]
pub struct SLStationInfo {
    pub name: String,
    pub site_id: String,
}

/// The station-search response: a provider status code, an optional
/// provider message, and the ranked candidates when the search worked.
#[derive(Debug)]
pub struct SLStationInfoResponse {
    pub status_code: i16,
    pub message: Option<String>,
    pub response_data: Option<Vec<SLStationInfo>>,
}

/// An error message from the planner services.
#[derive(Debug, Clone)]
pub struct SLError {
    pub message: String,
}

impl SLError {
    pub fn new(message: String) -> (r: SLError)
        ensures
            r.message == message,
    {
        SLError { message }
    }
}

/// The two tokens the planner services are called with.
pub struct SLApiKeys {
    pub get_trip_token: String,
    pub get_stations_token: String,
}

/// Namespace of the planner's remote endpoints; the calls themselves
/// are network transport and live outside the library.
pub struct SLApi {}

/// Why a station name did not resolve to a candidate.
#[derive(Debug)]
pub enum StationError {
    /// The search succeeded but returned no candidate.
    NotFound,
    /// The provider reported a failure; the payload is its message,
    /// empty when it sent none.
    LookupFailed(String),
}

/// A search response that carries at least one candidate: status zero
/// and a non-empty candidate list.
pub open spec fn spec_has_candidate(resp: SLStationInfoResponse) -> bool {
    &&& resp.status_code == 0
    &&& resp.response_data matches Some(d) && d@.len() > 0
}

/// The first (highest-ranked) candidate of a search response.
pub open spec fn spec_first_candidate(resp: SLStationInfoResponse) -> SLStationInfo {
    match resp.response_data {
        Some(d) => d@[0],
        None => SLStationInfo { name: arbitrary(), site_id: arbitrary() },
    }
}

/// The provider's message, empty when it sent none.
pub open spec fn spec_provider_message(resp: SLStationInfoResponse) -> Seq<char> {
    match resp.message {
        Some(m) => m@,
        None => Seq::empty(),
    }
}

/// The station resolver: picks the first candidate of a search
/// response, or says why there is none.
///
/// Every response with at least one candidate resolves to its first
/// candidate; a response with a non-zero status code fails with
/// `LookupFailed`, and a successful response without candidates fails
/// with `NotFound`.
pub fn resolve_station(resp: SLStationInfoResponse) -> (r: Result<SLStationInfo, StationError>)
    ensures
        spec_has_candidate(resp) ==> (r matches Ok(c) && c == spec_first_candidate(resp)),
        resp.status_code != 0 ==> (r matches Err(e) && e matches StationError::LookupFailed(m)
            && m@ == spec_provider_message(resp)),
        resp.status_code == 0 && !spec_has_candidate(resp) ==> r matches Err(
            StationError::NotFound,
        ),
{
    if resp.status_code != 0 {
        let m = match resp.message {
            Some(m) => m,
            None => String::new(),
        };
        proof {
            assert(m@ == spec_provider_message(resp));
        }
        Err(StationError::LookupFailed(m))
    } else {
        match resp.response_data {
            Some(mut d) => {
                if d.len() > 0 {
                    Ok(d.remove(0))
                } else {
                    Err(StationError::NotFound)
                }
            },
            None => Err(StationError::NotFound),
        }
    }
}

/// Picks the first candidate out of a fetched search result, if the
/// fetch succeeded and brought any candidate.
pub fn get_first_station(result: Result<SLStationInfoResponse, SLError>) -> (r: Option<
    SLStationInfo,
>)
    ensures
        r matches Some(c) ==> (result matches Ok(resp) && resp.response_data matches Some(d)
            && d@.len() > 0 && c == d@[0]),
        r is None ==> match result {
            Ok(resp) => match resp.response_data {
                Some(d) => d@.len() == 0,
                None => true,
            },
            Err(_) => true,
        },
{
    match result {
        Ok(resp) => match resp.response_data {
            Some(mut d) => {
                if d.len() > 0 {
                    Some(d.remove(0))
                } else {
                    None
                }
            },
            None => None,
        },
        Err(_) => None,
    }
}

} // verus!

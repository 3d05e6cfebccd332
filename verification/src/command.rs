//! The trip-command decisions: input validation, the immediate
//! acknowledgement, and the outcome of each workflow stage.
//!
//! The caller outside the library performs the remote calls and hands
//! each stage's raw outcome in; every decision between the calls is
//! made here.  On any failure exactly one user-facing error payload
//! comes back, and the workflow stops there.

use vstd::prelude::*;
use vstd::string::{StrSliceExecFns, StringExecFns};
use crate::text::spec_count_char;
use crate::timepoint::{CivilDateTime, spec_civil_wf};
use crate::sl::{
    SLError, SLStationInfo, SLStationInfoResponse, SLTripResponse, resolve_station,
    spec_has_candidate, spec_first_candidate,
};
use crate::blocks::{SlackBlockResponse, SlackErrorResponse};
use crate::formatter::{spec_create_trip_response, spec_trips_wf};

verus! {

/// A slash command as the chat client delivers it: the free text after
/// the command word, and the callback address for the deferred answer.
pub struct SlackSlashMessage {
    pub text: String,
    pub response_url: String,
}

/// The usage message for a malformed trip command.
pub open spec fn spec_usage_text() -> Seq<char> {
    "Jag behöver två argument fattaru la? Ex: `/gg t-centr fruän`"@
}

/// The immediate acknowledgement a trip command is answered with.
pub open spec fn spec_ack_text() -> Seq<char> {
    "Låt mig se efter om det finns en resa hos SL åt dig!"@
}

/// The error text when a station name resolved to nothing; the origin
/// position uses its own wording.
pub open spec fn spec_station_error_text(is_origin: bool, name: Seq<char>) -> Seq<char> {
    (if is_origin {
        "Hittade ingen station med namnet och "@
    } else {
        "Hittade ingen station med namnet "@
    }) + name
}

/// The error text when no trip between the two names was found.
pub open spec fn spec_trips_error_text(from_name: Seq<char>, to_name: Seq<char>) -> Seq<char> {
    "Hittade ingen resa mellan "@ + from_name + " och "@ + to_name
}

/// The immediate acknowledgement of a trip command.
pub fn trip_command_ack() -> (r: String)
    ensures
        r@ == spec_ack_text(),
{
    String::from_str("Låt mig se efter om det finns en resa hos SL åt dig!")
}

/// Splits a trip command's text into its origin and destination tokens.
///
/// The command must consist of exactly two tokens separated by a single
/// space character; any other shape fails fast with the usage message,
/// before any remote call is made.
pub fn parse_trip_command(text: &str) -> (r: Result<(String, String), String>)
    ensures
        (spec_count_char(text@, ' ') == 1) <==> r is Ok,
        r matches Ok(p) ==> (exists|k: int|
            0 <= k < text@.len() && text@[k] == ' ' && p.0@ == text@.subrange(0, k) && p.1@
                == text@.subrange(k + 1, text@.len() as int)),
        r matches Err(m) ==> m@ == spec_usage_text(),
{
    let n: usize = text.unicode_len();
    let mut count: usize = 0;
    let mut first: Option<usize> = None;
    let mut j: usize = 0;
    proof {
        assert(text@.take(0).len() == 0);
    }
    while j < n
        invariant
            j <= n,
            n == text@.len(),
            count <= j,
            count as int == spec_count_char(text@.take(j as int), ' '),
            first matches Some(f) ==> (f < j && text@[f as int] == ' ' && forall|k: int|
                0 <= k < f ==> text@[k] != ' '),
            first is None ==> ((forall|k: int| 0 <= k < j ==> text@[k] != ' ') && count == 0),
        decreases n - j,
    {
        let c = text.get_char(j);
        proof {
            assert(text@.take(j as int + 1).drop_last() =~= text@.take(j as int));
            assert(text@.take(j as int + 1).last() == text@[j as int]);
        }
        if c == ' ' {
            count = count + 1;
            if first.is_none() {
                first = Some(j);
            }
        }
        j = j + 1;
    }
    proof {
        assert(text@.take(n as int) =~= text@);
    }
    if count == 1 {
        match first {
            Some(f) => {
                let from = String::from_str(text.substring_char(0, f));
                let to = String::from_str(text.substring_char(f + 1, n));
                proof {
                    assert(from@ == text@.subrange(0, f as int));
                    assert(to@ == text@.subrange(f as int + 1, text@.len() as int));
                }
                Ok((from, to))
            },
            None => unreached(),
        }
    } else {
        Err(String::from_str("Jag behöver två argument fattaru la? Ex: `/gg t-centr fruän`"))
    }
}

fn station_error(is_origin: bool, name: &str) -> (r: SlackErrorResponse)
    ensures
        r.text@ == spec_station_error_text(is_origin, name@),
        r.response_type@ == "ephemeral"@,
{
    let text = if is_origin {
        String::from_str("Hittade ingen station med namnet och ").concat(name)
    } else {
        String::from_str("Hittade ingen station med namnet ").concat(name)
    };
    SlackErrorResponse::new(text)
}

/// Decides the station-resolution stage: the first candidate of a
/// successful search, or the user-facing error payload for this
/// station's position in the command.
pub fn station_outcome(
    is_origin: bool,
    name: &str,
    fetched: Result<SLStationInfoResponse, SLError>,
) -> (r: Result<SLStationInfo, SlackErrorResponse>)
    ensures
        (match fetched {
            Ok(resp) => spec_has_candidate(resp) ==> (r matches Ok(c) && c
                == spec_first_candidate(resp)),
            Err(_) => true,
        }),
        (match fetched {
            Ok(resp) => !spec_has_candidate(resp),
            Err(_) => true,
        }) ==> (r matches Err(e) && e.text@ == spec_station_error_text(is_origin, name@)
            && e.response_type@ == "ephemeral"@),
{
    match fetched {
        Ok(resp) => match resolve_station(resp) {
            Ok(c) => Ok(c),
            Err(_) => Err(station_error(is_origin, name)),
        },
        Err(_) => Err(station_error(is_origin, name)),
    }
}

/// Decides the trip-retrieval stage: the rendered message for a
/// retrieved trip list, or the user-facing error payload naming both
/// stations.
pub fn trips_outcome(
    from_name: &str,
    to_name: &str,
    fetched: Result<SLTripResponse, SLError>,
    now: &CivilDateTime,
) -> (r: Result<SlackBlockResponse, SlackErrorResponse>)
    requires
        spec_civil_wf(*now),
        fetched matches Ok(resp) ==> spec_trips_wf(resp),
    ensures
        fetched matches Ok(resp) ==> (r matches Ok(msg) && msg@ == spec_create_trip_response(
            from_name@,
            to_name@,
            resp,
            *now,
        )),
        fetched matches Err(_) ==> (r matches Err(e) && e.text@ == spec_trips_error_text(
            from_name@,
            to_name@,
        ) && e.response_type@ == "ephemeral"@),
{
    match fetched {
        Ok(resp) => Ok(SlackBlockResponse::create_trip_response(from_name, to_name, &resp, now)),
        Err(_) => {
            let text = String::from_str("Hittade ingen resa mellan ").concat(from_name).concat(
                " och ",
            ).concat(to_name);
            proof {
                assert(text@ =~= spec_trips_error_text(from_name@, to_name@));
            }
            Err(SlackErrorResponse::new(text))
        },
    }
}

} // verus!

//! The itinerary formatter: turns trip options into display blocks.
//!
//! Rendering degrades rather than fails: a timestamp that does not
//! parse is shown as the raw planner strings, and an unknown transport
//! category gets a fallback icon.  The summary works on civil
//! timestamps under the single-offset approximation: the planner's
//! wall-clock strings carry no offset, so one shared offset is assumed
//! for all of them, and it cancels out of every time difference.

use vstd::prelude::*;
use vstd::string::StringExecFns;
use crate::sl::{SLCategory, SLLeg, SLStation, SLTrip, SLTripResponse, SLVehicle, SLWalk};
use crate::blocks::{
    SlackBlock, SlackBlockV, SlackBlockResponse, SlackBlockResponseV, SlackText,
    spec_text_section_v, spec_context_v, spec_fields_section_v, spec_divider_v,
    text_section_block, context_block, fields_section_block, divider_block,
};
use crate::text::{
    spec_nat_str, spec_int_str, spec_capitalize, u64_to_string, i64_to_string,
    some_kind_of_uppercase_first_letter,
};
use crate::timepoint::{
    CivilDateTime, spec_civil_wf, spec_parse_civil, parse_civil, spec_hm, spec_ymd, hm_string,
    ymd_string,
};

verus! {

/// How many trip options one message shows at most.
pub const MAX_TRIPS: usize = 3;

/// The ordinal icon for leg number `n`: `:one:` through `:nine:`, and a
/// generic number icon beyond nine.
pub open spec fn spec_emoji(n: int) -> Seq<char> {
    if n == 1 {
        ":one:"@
    } else if n == 2 {
        ":two:"@
    } else if n == 3 {
        ":three:"@
    } else if n == 4 {
        ":four:"@
    } else if n == 5 {
        ":five:"@
    } else if n == 6 {
        ":six:"@
    } else if n == 7 {
        ":seven:"@
    } else if n == 8 {
        ":eight:"@
    } else if n == 9 {
        ":nine:"@
    } else {
        ":1234:"@
    }
}

/// The ordinal icon for a leg number.
pub fn get_slack_emoji_from_number(i: usize) -> (r: String)
    ensures
        r@ == spec_emoji(i as int),
{
    if i == 1 {
        String::from_str(":one:")
    } else if i == 2 {
        String::from_str(":two:")
    } else if i == 3 {
        String::from_str(":three:")
    } else if i == 4 {
        String::from_str(":four:")
    } else if i == 5 {
        String::from_str(":five:")
    } else if i == 6 {
        String::from_str(":six:")
    } else if i == 7 {
        String::from_str(":seven:")
    } else if i == 8 {
        String::from_str(":eight:")
    } else if i == 9 {
        String::from_str(":nine:")
    } else {
        String::from_str(":1234:")
    }
}

/// The icon for a transport category; an unknown category falls back
/// to a puzzled icon.
pub open spec fn spec_category_icon(c: SLCategory) -> Seq<char> {
    match c {
        SLCategory::MET => ":metro:"@,
        SLCategory::BUS => ":bus:"@,
        SLCategory::TRN => ":bullettrain_front:"@,
        SLCategory::TRM => ":tram:"@,
        SLCategory::UUU => ":thonking:"@,
    }
}

/// The icon for a transport category.
pub fn category_icon(c: &SLCategory) -> (r: String)
    ensures
        r@ == spec_category_icon(*c),
{
    match c {
        SLCategory::MET => String::from_str(":metro:"),
        SLCategory::BUS => String::from_str(":bus:"),
        SLCategory::TRN => String::from_str(":bullettrain_front:"),
        SLCategory::TRM => String::from_str(":tram:"),
        SLCategory::UUU => String::from_str(":thonking:"),
    }
}

/// A timed stop rendered as a chat-native date token when its effective
/// timestamp parses, and as the raw scheduled date and time otherwise.
pub open spec fn spec_point_text(st: SLStation) -> Seq<char> {
    match spec_parse_civil(st.spec_effective_date(), st.spec_effective_time()) {
        Some(c) => "<!date^"@ + spec_int_str(c.epoch_seconds as int) + "^{date_short_pretty} "@
            + spec_hm(c) + "|"@ + spec_ymd(c) + " "@ + spec_hm(c) + ">"@,
        None => st.date@ + " "@ + st.time@,
    }
}

/// Renders a timed stop's effective timestamp for display.
pub fn generate_timestamps_from_vehicle(vehicle_point: &SLStation) -> (r: String)
    ensures
        r@ == spec_point_text(*vehicle_point),
{
    let date = vehicle_point.get_date();
    let time = vehicle_point.get_time();
    match parse_civil(date.as_str(), time.as_str()) {
        Some(c) => {
            let hm = hm_string(&c);
            let r = String::from_str("<!date^").concat(i64_to_string(c.epoch_seconds).as_str())
                .concat("^{date_short_pretty} ").concat(hm.as_str()).concat("|").concat(
                ymd_string(&c).as_str(),
            ).concat(" ").concat(hm.as_str()).concat(">");
            proof {
                assert(r@ =~= spec_point_text(*vehicle_point));
            }
            r
        },
        None => {
            let r = vehicle_point.date.clone().concat(" ").concat(vehicle_point.time.as_str());
            proof {
                assert(r@ =~= spec_point_text(*vehicle_point));
            }
            r
        },
    }
}

/// The civil timestamp a timed stop stands for: its effective date and
/// time when they parse, else the injected current time, mirroring the
/// graceful fallback of the summary computation.
pub open spec fn spec_endpoint_civil(st: SLStation, now: CivilDateTime) -> CivilDateTime {
    match spec_parse_civil(st.spec_effective_date(), st.spec_effective_time()) {
        Some(c) => c,
        None => now,
    }
}

fn resolve_point_time(st: &SLStation, now: &CivilDateTime) -> (c: CivilDateTime)
    requires
        spec_civil_wf(*now),
    ensures
        c == spec_endpoint_civil(*st, *now),
        spec_civil_wf(c),
{
    let date = st.get_date();
    let time = st.get_time();
    match parse_civil(date.as_str(), time.as_str()) {
        Some(c) => c,
        None => *now,
    }
}

/// The whole hours of a signed duration in seconds, truncated toward
/// zero.
pub open spec fn spec_hours_part(secs: int) -> int {
    if secs >= 0 {
        secs / 3600
    } else {
        -((-secs) / 3600)
    }
}

/// The minutes of a signed duration in seconds beyond its whole hours,
/// truncated toward zero.
pub open spec fn spec_minutes_part(secs: int) -> int {
    if secs >= 0 {
        (secs / 60) % 60
    } else {
        -(((-secs) / 60) % 60)
    }
}

/// A duration in words: hour and minute counts with singular and plural
/// unit names chosen by exact equality to one, joined by a connector
/// word only when both parts are present.  Zero or negative component
/// values render as a fixed placeholder for the minutes and as nothing
/// for the hours.
pub open spec fn spec_duration_text(secs: int) -> Seq<char> {
    let h = spec_hours_part(secs);
    let m = spec_minutes_part(secs);
    let mtxt = if m == 1 {
        spec_nat_str(m) + " minut"@
    } else if m > 1 {
        spec_nat_str(m) + " minuter"@
    } else {
        "N/A"@
    };
    if h <= 0 {
        mtxt
    } else {
        let htxt = if h == 1 {
            spec_nat_str(h) + " timme"@
        } else {
            spec_nat_str(h) + " timmar"@
        };
        htxt + " och "@ + mtxt
    }
}

/// Renders a signed duration in seconds as words.
pub fn generate_formatted_duration(seconds: i64) -> (r: String)
    ensures
        r@ == spec_duration_text(seconds as int),
{
    if seconds < 0 {
        proof {
            assert(spec_hours_part(seconds as int) <= 0);
            assert(spec_minutes_part(seconds as int) <= 0);
        }
        String::from_str("N/A")
    } else {
        let mag = seconds as u64;
        let hours: u64 = mag / 3600;
        let minutes: u64 = (mag / 60) % 60;
        proof {
            assert(hours as int == spec_hours_part(seconds as int));
            assert(minutes as int == spec_minutes_part(seconds as int));
        }
        let minutes_txt: String = if minutes == 1 {
            u64_to_string(minutes).concat(" minut")
        } else if minutes > 1 {
            u64_to_string(minutes).concat(" minuter")
        } else {
            String::from_str("N/A")
        };
        if hours == 0 {
            minutes_txt
        } else {
            let hours_txt: String = if hours == 1 {
                u64_to_string(hours).concat(" timme")
            } else {
                u64_to_string(hours).concat(" timmar")
            };
            let r = hours_txt.concat(" och ").concat(minutes_txt.as_str());
            proof {
                assert(r@ =~= spec_duration_text(seconds as int));
            }
            r
        }
    }
}

/// The field texts of a walk leg's detail block: origin, destination,
/// the walking duration verbatim from the planner, and the distance in
/// meters.
pub open spec fn spec_walk_fields(w: SLWalk) -> Seq<Seq<char>> {
    seq![
        "*Från*\n"@ + w.origin.name@,
        "*Till*\n"@ + w.destination.name@,
        "*Tid att gå:*\n"@ + w.duration@,
        "*Avstånd:*\n"@ + spec_int_str(w.dist as int) + " meter"@,
    ]
}

/// The two blocks of a walk leg numbered `i` (zero-based): a header
/// line and a field list.
pub open spec fn spec_walk_blocks(i: int, w: SLWalk) -> Seq<SlackBlockV> {
    seq![
        spec_text_section_v(spec_emoji(i + 1) + " Gå :walking:"@),
        spec_fields_section_v(spec_walk_fields(w)),
    ]
}

/// The field texts of a vehicle leg's detail block: origin,
/// destination, and the effective departure and arrival timestamps.
pub open spec fn spec_vehicle_fields(v: SLVehicle) -> Seq<Seq<char>> {
    seq![
        "*Från*\n"@ + v.origin.name@,
        "*Till*\n"@ + v.destination.name@,
        "*Avgår (preliminärt):*\n"@ + spec_point_text(v.origin),
        "*Framme (preliminärt):*\n"@ + spec_point_text(v.destination),
    ]
}

/// The header line of a vehicle leg numbered `i` (zero-based): ordinal
/// icon, capitalized line name, direction, and category icon.
pub open spec fn spec_vehicle_header(i: int, v: SLVehicle) -> Seq<char> {
    spec_emoji(i + 1) + " *"@ + spec_capitalize(v.name@) + "* mot *"@ + v.direction@ + "* "@
        + spec_category_icon(v.category)
}

/// The two blocks of a vehicle leg numbered `i` (zero-based).
pub open spec fn spec_vehicle_blocks(i: int, v: SLVehicle) -> Seq<SlackBlockV> {
    seq![
        spec_text_section_v(spec_vehicle_header(i, v)),
        spec_fields_section_v(spec_vehicle_fields(v)),
    ]
}

fn mrkdwn_field(label: &str, value: &str) -> (t: SlackText)
    ensures
        t.text_type@ == "mrkdwn"@,
        t.text@ == label@ + value@,
{
    SlackText {
        text_type: String::from_str("mrkdwn"),
        text: String::from_str(label).concat(value),
    }
}

impl SlackBlock {
    /// Renders a walk leg shown as leg number `i + 1`.
    pub fn from_walk(i: usize, walk: &SLWalk) -> (r: Vec<SlackBlock>)
        requires
            i < usize::MAX,
        ensures
            r@.map_values(|b: SlackBlock| b@) == spec_walk_blocks(i as int, *walk),
    {
        let header = get_slack_emoji_from_number(i + 1).concat(" Gå :walking:");
        let mut fields: Vec<SlackText> = Vec::new();
        fields.push(mrkdwn_field("*Från*\n", walk.origin.name.as_str()));
        fields.push(mrkdwn_field("*Till*\n", walk.destination.name.as_str()));
        fields.push(mrkdwn_field("*Tid att gå:*\n", walk.duration.as_str()));
        fields.push(mrkdwn_field("*Avstånd:*\n", i64_to_string(walk.dist as i64).concat(" meter").as_str()));
        let b1 = text_section_block(header);
        proof {
            assert(fields@.map_values(|t: SlackText| t.text@) =~~= spec_walk_fields(*walk));
        }
        let b2 = fields_section_block(fields);
        let mut r: Vec<SlackBlock> = Vec::new();
        r.push(b1);
        r.push(b2);
        proof {
            assert(r@.map_values(|b: SlackBlock| b@) =~= spec_walk_blocks(i as int, *walk));
        }
        r
    }

    /// Renders a vehicle leg shown as leg number `i + 1`.
    pub fn from_vehicle(i: usize, vehicle: &SLVehicle) -> (r: Vec<SlackBlock>)
        requires
            i < usize::MAX,
        ensures
            r@.map_values(|b: SlackBlock| b@) == spec_vehicle_blocks(i as int, *vehicle),
    {
        let cap = some_kind_of_uppercase_first_letter(vehicle.name.as_str());
        let icon = category_icon(&vehicle.category);
        let header = get_slack_emoji_from_number(i + 1).concat(" *").concat(cap.as_str()).concat(
            "* mot *",
        ).concat(vehicle.direction.as_str()).concat("* ").concat(icon.as_str());
        proof {
            assert(header@ =~= spec_vehicle_header(i as int, *vehicle));
        }
        let mut fields: Vec<SlackText> = Vec::new();
        fields.push(mrkdwn_field("*Från*\n", vehicle.origin.name.as_str()));
        fields.push(mrkdwn_field("*Till*\n", vehicle.destination.name.as_str()));
        fields.push(
            mrkdwn_field(
                "*Avgår (preliminärt):*\n",
                generate_timestamps_from_vehicle(&vehicle.origin).as_str(),
            ),
        );
        fields.push(
            mrkdwn_field(
                "*Framme (preliminärt):*\n",
                generate_timestamps_from_vehicle(&vehicle.destination).as_str(),
            ),
        );
        let b1 = text_section_block(header);
        proof {
            assert(fields@.map_values(|t: SlackText| t.text@) =~~= spec_vehicle_fields(*vehicle));
        }
        let b2 = fields_section_block(fields);
        let mut r: Vec<SlackBlock> = Vec::new();
        r.push(b1);
        r.push(b2);
        proof {
            assert(r@.map_values(|b: SlackBlock| b@) =~= spec_vehicle_blocks(i as int, *vehicle));
        }
        r
    }
}

/// Whether a leg is shown: every vehicle leg, and every walk leg not
/// explicitly marked hidden (an absent flag means shown).
pub open spec fn spec_keep_leg(l: SLLeg) -> bool {
    match l {
        SLLeg::WALK(w) => w.hide != Some(true),
        SLLeg::JNY(_) => true,
    }
}

/// The blocks of one shown leg, numbered `i` (zero-based).
pub open spec fn spec_blocks_for_leg(i: int, l: SLLeg) -> Seq<SlackBlockV> {
    match l {
        SLLeg::WALK(w) => spec_walk_blocks(i, w),
        SLLeg::JNY(v) => spec_vehicle_blocks(i, v),
    }
}

/// The leg blocks of an itinerary: hidden walk legs render nothing,
/// and the shown legs are numbered consecutively from `i` in their
/// original order.
pub open spec fn spec_leg_blocks(legs: Seq<SLLeg>, i: int) -> Seq<SlackBlockV>
    decreases legs.len(),
{
    if legs.len() == 0 {
        Seq::empty()
    } else if spec_keep_leg(legs[0]) {
        spec_blocks_for_leg(i, legs[0]) + spec_leg_blocks(legs.drop_first(), i + 1)
    } else {
        spec_leg_blocks(legs.drop_first(), i)
    }
}

impl SlackBlock {
    /// Renders the shown legs of one itinerary, in order.
    pub fn create_trip_block(trip: &SLTrip) -> (r: Vec<SlackBlock>)
        ensures
            r@.map_values(|b: SlackBlock| b@) == spec_leg_blocks(trip.leg_list.legs@, 0),
    {
        let legs = &trip.leg_list.legs;
        let mut r: Vec<SlackBlock> = Vec::new();
        let mut kept: usize = 0;
        let mut idx: usize = 0;
        proof {
            assert(legs@.skip(0) =~= legs@);
        }
        while idx < legs.len()
            invariant
                idx <= legs@.len(),
                kept <= idx,
                spec_leg_blocks(legs@, 0) =~= r@.map_values(|b: SlackBlock| b@)
                    + spec_leg_blocks(legs@.skip(idx as int), kept as int),
            decreases legs@.len() - idx,
        {
            let ghost prev = r@.map_values(|b: SlackBlock| b@);
            proof {
                assert(legs@.skip(idx as int)[0] == legs@[idx as int]);
                assert(legs@.skip(idx as int).drop_first() =~= legs@.skip(idx as int + 1));
            }
            let leg = &legs[idx];
            match leg {
                SLLeg::WALK(w) => {
                    let keep: bool = match w.hide {
                        Some(h) => !h,
                        None => true,
                    };
                    if keep {
                        let mut blocks = SlackBlock::from_walk(kept, w);
                        let ghost bv = blocks@.map_values(|b: SlackBlock| b@);
                        r.append(&mut blocks);
                        kept = kept + 1;
                        proof {
                            assert(r@.map_values(|b: SlackBlock| b@) =~= prev + bv);
                        }
                    }
                },
                SLLeg::JNY(v) => {
                    let mut blocks = SlackBlock::from_vehicle(kept, v);
                    let ghost bv = blocks@.map_values(|b: SlackBlock| b@);
                    r.append(&mut blocks);
                    kept = kept + 1;
                    proof {
                        assert(r@.map_values(|b: SlackBlock| b@) =~= prev + bv);
                    }
                },
            }
            idx = idx + 1;
        }
        proof {
            assert(legs@.skip(legs@.len() as int).len() == 0);
        }
        r
    }
}

/// The origin stop of a leg.
pub open spec fn spec_leg_origin(l: SLLeg) -> SLStation {
    match l {
        SLLeg::WALK(w) => w.origin,
        SLLeg::JNY(v) => v.origin,
    }
}

/// The destination stop of a leg.
pub open spec fn spec_leg_destination(l: SLLeg) -> SLStation {
    match l {
        SLLeg::WALK(w) => w.destination,
        SLLeg::JNY(v) => v.destination,
    }
}

/// The start of an itinerary: the civil timestamp of its first leg's
/// origin, hidden or not.
pub open spec fn spec_summary_start(trip: SLTrip, now: CivilDateTime) -> CivilDateTime {
    spec_endpoint_civil(spec_leg_origin(trip.leg_list.legs@[0]), now)
}

/// The end of an itinerary: the civil timestamp of its last leg's
/// destination, hidden or not.
pub open spec fn spec_summary_end(trip: SLTrip, now: CivilDateTime) -> CivilDateTime {
    spec_endpoint_civil(spec_leg_destination(trip.leg_list.legs@.last()), now)
}

/// The summary line of an itinerary: start and arrival times, the total
/// travel time (end minus start), and the time to arrival (end minus
/// the injected current time).
pub open spec fn spec_summary_text(trip: SLTrip, now: CivilDateTime) -> Seq<char> {
    let o = spec_summary_start(trip, now);
    let d = spec_summary_end(trip, now);
    "*Start*: "@ + spec_hm(o) + " - *Framme*: "@ + spec_hm(d) + " - *Total restid*: "@
        + spec_duration_text(d.epoch_seconds - o.epoch_seconds)
        + "\nTar du denna resa är du framme om ungefär "@
        + spec_duration_text(d.epoch_seconds - now.epoch_seconds)
}

/// The summary context block of an itinerary.
pub open spec fn spec_summary_block(trip: SLTrip, now: CivilDateTime) -> SlackBlockV {
    spec_context_v(spec_summary_text(trip, now))
}

impl SlackBlock {
    /// Renders the summary line of one itinerary; `now` is the injected
    /// current civil time in the reference timezone.
    pub fn total_travel_time(trip: &SLTrip, now: &CivilDateTime) -> (b: SlackBlock)
        requires
            trip.leg_list.legs@.len() > 0,
            spec_civil_wf(*now),
        ensures
            b@ == spec_summary_block(*trip, *now),
    {
        let legs = &trip.leg_list.legs;
        let first = &legs[0];
        let last = &legs[legs.len() - 1];
        let origin_st = match first {
            SLLeg::WALK(w) => &w.origin,
            SLLeg::JNY(v) => &v.origin,
        };
        let dest_st = match last {
            SLLeg::WALK(w) => &w.destination,
            SLLeg::JNY(v) => &v.destination,
        };
        let o = resolve_point_time(origin_st, now);
        let d = resolve_point_time(dest_st, now);
        let duration = generate_formatted_duration(d.epoch_seconds - o.epoch_seconds);
        let to_arrival = generate_formatted_duration(d.epoch_seconds - now.epoch_seconds);
        let text = String::from_str("*Start*: ").concat(hm_string(&o).as_str()).concat(
            " - *Framme*: ",
        ).concat(hm_string(&d).as_str()).concat(" - *Total restid*: ").concat(
            duration.as_str(),
        ).concat("\nTar du denna resa är du framme om ungefär ").concat(to_arrival.as_str());
        proof {
            assert(text@ =~= spec_summary_text(*trip, *now));
        }
        context_block(text)
    }
}

/// One rendered trip option: a divider, the shown leg blocks, then the
/// summary block.
pub open spec fn spec_trip_section(trip: SLTrip, now: CivilDateTime) -> Seq<SlackBlockV> {
    seq![spec_divider_v()] + spec_leg_blocks(trip.leg_list.legs@, 0) + seq![
        spec_summary_block(trip, now),
    ]
}

/// The rendered trip options, in the planner's order.
pub open spec fn spec_trip_sections(trips: Seq<SLTrip>, now: CivilDateTime) -> Seq<SlackBlockV>
    decreases trips.len(),
{
    if trips.len() == 0 {
        Seq::empty()
    } else {
        spec_trip_section(trips[0], now) + spec_trip_sections(trips.drop_first(), now)
    }
}

/// The header line naming the searched origin and destination.
pub open spec fn spec_header_text(from: Seq<char>, to: Seq<char>) -> Seq<char> {
    "*Sökning:* "@ + from + " _till_ "@ + to
}

/// The fixed disclaimer about delays during transfers.
pub open spec fn spec_disclaimer_text() -> Seq<char> {
    ":warning: *Tänk på att vissa byten kan innehålla förseningar*"@
}

/// The trip options a message shows: the first three at most.
pub open spec fn spec_trips_shown(trips: Seq<SLTrip>) -> Seq<SLTrip> {
    if trips.len() <= MAX_TRIPS as int {
        trips
    } else {
        trips.take(MAX_TRIPS as int)
    }
}

/// Every itinerary of a planner response has at least one leg.
pub open spec fn spec_trips_wf(resp: SLTripResponse) -> bool {
    forall|i: int|
        0 <= i < resp.trip@.len() ==> (#[trigger] resp.trip@[i]).leg_list.legs@.len() > 0
}

/// The whole rendered message: header, disclaimer, then at most three
/// trip sections.
pub open spec fn spec_create_trip_response(
    from: Seq<char>,
    to: Seq<char>,
    resp: SLTripResponse,
    now: CivilDateTime,
) -> SlackBlockResponseV {
    SlackBlockResponseV {
        blocks: seq![
            spec_text_section_v(spec_header_text(from, to)),
            spec_context_v(spec_disclaimer_text()),
        ] + spec_trip_sections(spec_trips_shown(resp.trip@), now),
        response_type: Some("ephemeral"@),
    }
}

impl SlackBlockResponse {
    /// Renders the full trip message for a planner response; `now` is
    /// the injected current civil time in the reference timezone.
    pub fn create_trip_response(
        from: &str,
        to: &str,
        trip_response: &SLTripResponse,
        now: &CivilDateTime,
    ) -> (r: SlackBlockResponse)
        requires
            spec_trips_wf(*trip_response),
            spec_civil_wf(*now),
        ensures
            r@ == spec_create_trip_response(from@, to@, *trip_response, *now),
    {
        let ghost shown = spec_trips_shown(trip_response.trip@);
        let mut blocks: Vec<SlackBlock> = Vec::new();
        let header = String::from_str("*Sökning:* ").concat(from).concat(" _till_ ").concat(to);
        proof {
            assert(header@ =~= spec_header_text(from@, to@));
        }
        blocks.push(text_section_block(header));
        blocks.push(
            context_block(
                String::from_str(":warning: *Tänk på att vissa byten kan innehålla förseningar*"),
            ),
        );
        let ghost head = seq![
            spec_text_section_v(spec_header_text(from@, to@)),
            spec_context_v(spec_disclaimer_text()),
        ];
        let n: usize = if trip_response.trip.len() > MAX_TRIPS {
            MAX_TRIPS
        } else {
            trip_response.trip.len()
        };
        proof {
            assert(n as int == shown.len());
            assert(forall|i: int| 0 <= i < shown.len() ==> shown[i] == trip_response.trip@[i]);
            assert(blocks@.map_values(|b: SlackBlock| b@) =~= head);
            assert(shown.skip(0) =~= shown);
        }
        let mut i: usize = 0;
        while i < n
            invariant
                i <= n,
                n as int == shown.len(),
                shown == spec_trips_shown(trip_response.trip@),
                forall|j: int| 0 <= j < shown.len() ==> shown[j] == trip_response.trip@[j],
                n <= trip_response.trip@.len(),
                spec_trips_wf(*trip_response),
                spec_civil_wf(*now),
                head + spec_trip_sections(shown, *now) =~= blocks@.map_values(
                    |b: SlackBlock| b@,
                ) + spec_trip_sections(shown.skip(i as int), *now),
            decreases n - i,
        {
            let ghost prev = blocks@.map_values(|b: SlackBlock| b@);
            proof {
                assert(shown.skip(i as int)[0] == shown[i as int]);
                assert(shown.skip(i as int).drop_first() =~= shown.skip(i as int + 1));
            }
            let trip = &trip_response.trip[i];
            blocks.push(divider_block());
            let mut leg_blocks = SlackBlock::create_trip_block(trip);
            let ghost lv = leg_blocks@.map_values(|b: SlackBlock| b@);
            blocks.append(&mut leg_blocks);
            blocks.push(SlackBlock::total_travel_time(trip, now));
            proof {
                assert(blocks@.map_values(|b: SlackBlock| b@) =~= prev + (seq![spec_divider_v()]
                    + lv + seq![spec_summary_block(*trip, *now)]));
                assert(seq![spec_divider_v()] + lv + seq![spec_summary_block(*trip, *now)]
                    =~= spec_trip_section(shown[i as int], *now));
            }
            i = i + 1;
        }
        proof {
            assert(spec_trip_sections(shown.skip(n as int), *now) =~= Seq::<SlackBlockV>::empty());
            assert(blocks@.map_values(|b: SlackBlock| b@) =~= head + spec_trip_sections(
                shown,
                *now,
            ));
        }
        let r = SlackBlockResponse { blocks, response_type: Some(String::from_str("ephemeral")) };
        r
    }
}

/// For a planner response with at least three trip options, the
/// rendered message shows exactly the first three, in their original
/// order, each section opened by a divider block; the options beyond
/// the third leave no trace.
pub proof fn lemma_formatter_caps_at_three(
    from: Seq<char>,
    to: Seq<char>,
    resp: SLTripResponse,
    now: CivilDateTime,
)
    requires
        resp.trip@.len() >= 3,
    ensures
        spec_create_trip_response(from, to, resp, now).blocks == seq![
            spec_text_section_v(spec_header_text(from, to)),
            spec_context_v(spec_disclaimer_text()),
        ] + spec_trip_section(resp.trip@[0], now) + spec_trip_section(resp.trip@[1], now)
            + spec_trip_section(resp.trip@[2], now),
        forall|t: SLTrip| (#[trigger] spec_trip_section(t, now))[0] == spec_divider_v(),
{
    let shown = spec_trips_shown(resp.trip@);
    assert(shown.len() == 3);
    assert(shown[0] == resp.trip@[0] && shown[1] == resp.trip@[1] && shown[2] == resp.trip@[2]);
    assert(shown.drop_first() =~= shown.skip(1));
    assert(shown.skip(1).drop_first() =~= shown.skip(2));
    assert(shown.skip(2).drop_first() =~= shown.skip(3));
    assert(shown.skip(1)[0] == shown[1]);
    assert(shown.skip(2)[0] == shown[2]);
    assert(shown.skip(3).len() == 0);
    assert(spec_trip_sections(shown.skip(3), now) =~= Seq::<SlackBlockV>::empty());
    assert(spec_trip_sections(shown, now) == spec_trip_section(shown[0], now)
        + spec_trip_sections(shown.skip(1), now));
    assert(spec_trip_sections(shown.skip(1), now) == spec_trip_section(shown[1], now)
        + spec_trip_sections(shown.skip(2), now));
    assert(spec_trip_sections(shown.skip(2), now) == spec_trip_section(shown[2], now)
        + spec_trip_sections(shown.skip(3), now));
    assert(spec_trip_sections(shown, now) =~= spec_trip_section(shown[0], now)
        + spec_trip_section(shown[1], now) + spec_trip_section(shown[2], now));
    assert(spec_create_trip_response(from, to, resp, now).blocks =~= seq![
        spec_text_section_v(spec_header_text(from, to)),
        spec_context_v(spec_disclaimer_text()),
    ] + spec_trip_section(resp.trip@[0], now) + spec_trip_section(resp.trip@[1], now)
        + spec_trip_section(resp.trip@[2], now));
    assert forall|t: SLTrip| (#[trigger] spec_trip_section(t, now))[0] == spec_divider_v() by {
        assert(spec_trip_section(t, now)[0] == spec_divider_v());
    }
}

/// A walk leg marked hidden renders no leg block and leaves the
/// numbering of the legs after it unchanged, yet when it opens the
/// itinerary it still defines the itinerary's overall start time.
pub proof fn lemma_hidden_walk_counts_for_timing(
    w: SLWalk,
    rest: Seq<SLLeg>,
    i: int,
    now: CivilDateTime,
)
    requires
        w.hide == Some(true),
    ensures
        spec_leg_blocks(seq![SLLeg::WALK(w)] + rest, i) == spec_leg_blocks(rest, i),
        forall|trip: SLTrip|
            trip.leg_list.legs@ == seq![SLLeg::WALK(w)] + rest ==> #[trigger] spec_summary_start(
                trip,
                now,
            ) == spec_endpoint_civil(w.origin, now),
{
    let legs = seq![SLLeg::WALK(w)] + rest;
    assert(legs[0] == SLLeg::WALK(w));
    assert(!spec_keep_leg(legs[0]));
    assert(legs.drop_first() =~= rest);
    assert(spec_leg_blocks(legs, i) == spec_leg_blocks(rest, i));
    assert forall|trip: SLTrip|
        trip.leg_list.legs@ == legs implies #[trigger] spec_summary_start(trip, now)
        == spec_endpoint_civil(w.origin, now) by {
        assert(trip.leg_list.legs@[0] == SLLeg::WALK(w));
    }
}

} // verus!

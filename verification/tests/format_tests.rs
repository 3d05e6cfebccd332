use joel_bot::blocks::{SlackBlock, SlackBlockResponse};
use joel_bot::formatter::{
    category_icon, generate_timestamps_from_vehicle, get_slack_emoji_from_number,
};
use joel_bot::sl::{
    SLCategory, SLLeg, SLLegList, SLStation, SLTrip, SLTripResponse, SLVehicle, SLWalk,
};
use joel_bot::text::some_kind_of_uppercase_first_letter;
use joel_bot::timepoint::CivilDateTime;

fn station(name: &str, date: &str, time: &str) -> SLStation {
    SLStation {
        name: String::from(name),
        time: String::from(time),
        date: String::from(date),
        rt_time: None,
        rt_date: None,
    }
}

fn vehicle_leg(line: &str, direction: &str, dep: SLStation, arr: SLStation) -> SLLeg {
    SLLeg::JNY(SLVehicle {
        origin: dep,
        destination: arr,
        name: String::from(line),
        direction: String::from(direction),
        category: SLCategory::MET,
    })
}

fn walk_leg(hide: Option<bool>, from: &str, to: &str) -> SLLeg {
    SLLeg::WALK(SLWalk {
        origin: station(from, "2020-10-30", "10:00:00"),
        destination: station(to, "2020-10-30", "10:05:00"),
        name: String::from("Gå"),
        duration: String::from("5 min"),
        dist: 350,
        hide,
    })
}

fn one_leg_trip(leg: SLLeg) -> SLTrip {
    SLTrip { leg_list: SLLegList { legs: vec![leg] } }
}

fn section_text(b: &SlackBlock) -> &str {
    b.text.as_ref().expect("a section block carries text").text.as_str()
}

fn context_text(b: &SlackBlock) -> &str {
    b.elements.as_ref().expect("a context block carries elements")[0].text.as_str()
}

fn field_texts(b: &SlackBlock) -> Vec<&str> {
    b.fields
        .as_ref()
        .expect("a detail block carries fields")
        .iter()
        .map(|f| f.text.as_str())
        .collect()
}

const NOW: CivilDateTime = CivilDateTime {
    year: 2020,
    month: 10,
    day: 30,
    hour: 9,
    minute: 0,
    // 2020-10-30 09:00:00 as naive epoch seconds
    epoch_seconds: 1_604_048_400,
};

#[test]
fn category_icons_are_exhaustive() {
    assert_eq!(category_icon(&SLCategory::TRN), ":bullettrain_front:");
    assert_eq!(category_icon(&SLCategory::TRM), ":tram:");
    assert_eq!(category_icon(&SLCategory::BUS), ":bus:");
    assert_eq!(category_icon(&SLCategory::MET), ":metro:");
    assert_eq!(category_icon(&SLCategory::UUU), ":thonking:");
}

#[test]
fn ordinal_icons() {
    assert_eq!(get_slack_emoji_from_number(1), ":one:");
    assert_eq!(get_slack_emoji_from_number(5), ":five:");
    assert_eq!(get_slack_emoji_from_number(9), ":nine:");
    assert_eq!(get_slack_emoji_from_number(10), ":1234:");
    assert_eq!(get_slack_emoji_from_number(0), ":1234:");
}

#[test]
fn effective_time_prefers_real_time_value() {
    let mut st = station("Slussen", "2020-10-30", "10:00:00");
    assert_eq!(st.get_time(), "10:00:00");
    assert_eq!(st.get_date(), "2020-10-30");

    st.rt_time = Some(String::from("10:03:00"));
    assert_eq!(st.get_time(), "10:03:00");
    assert_eq!(st.get_date(), "2020-10-30");

    st.rt_date = Some(String::from("2020-10-31"));
    assert_eq!(st.get_date(), "2020-10-31");
    assert_eq!(st.get_time(), "10:03:00");
}

#[test]
fn capitalize_first_letter() {
    assert_eq!(some_kind_of_uppercase_first_letter("grön linje"), "Grön linje");
    assert_eq!(some_kind_of_uppercase_first_letter(""), "");
    assert_eq!(some_kind_of_uppercase_first_letter("T14"), "T14");
}

#[test]
fn timestamp_token_for_parseable_time() {
    // 1970-01-02 03:04:05 is 97445 seconds past the epoch
    let st = station("Start", "1970-01-02", "03:04:05");
    assert_eq!(
        generate_timestamps_from_vehicle(&st),
        "<!date^97445^{date_short_pretty} 03:04|1970-01-02 03:04>"
    );
}

#[test]
fn timestamp_token_uses_real_time_values() {
    let mut st = station("Start", "1970-01-02", "03:04:05");
    st.rt_time = Some(String::from("03:04:06"));
    assert_eq!(
        generate_timestamps_from_vehicle(&st),
        "<!date^97446^{date_short_pretty} 03:04|1970-01-02 03:04>"
    );
}

#[test]
fn timestamp_falls_back_to_raw_scheduled_strings() {
    let mut st = station("Start", "2020-10-30", "10:00:00");
    st.rt_time = Some(String::from("strax"));
    // the effective time does not parse, so the raw scheduled strings show
    assert_eq!(generate_timestamps_from_vehicle(&st), "2020-10-30 10:00:00");
}

#[test]
fn walk_leg_blocks() {
    let leg = walk_leg(Some(false), "Slussen", "Gamla stan");
    let blocks = SlackBlock::create_trip_block(&one_leg_trip(leg));
    assert_eq!(blocks.len(), 2);
    assert_eq!(blocks[0].block_type, "section");
    assert_eq!(section_text(&blocks[0]), ":one: Gå :walking:");
    let fields = field_texts(&blocks[1]);
    assert_eq!(
        fields,
        vec![
            "*Från*\nSlussen",
            "*Till*\nGamla stan",
            "*Tid att gå:*\n5 min",
            "*Avstånd:*\n350 meter",
        ]
    );
}

#[test]
fn vehicle_leg_blocks() {
    let dep = station("T-Centralen", "1970-01-02", "03:04:05");
    let arr = station("Fruängen", "1970-01-02", "03:24:05");
    let leg = vehicle_leg("tunnelbanans röda linje 14", "Fruängen", dep, arr);
    let blocks = SlackBlock::create_trip_block(&one_leg_trip(leg));
    assert_eq!(blocks.len(), 2);
    assert_eq!(
        section_text(&blocks[0]),
        ":one: *Tunnelbanans röda linje 14* mot *Fruängen* :metro:"
    );
    let fields = field_texts(&blocks[1]);
    assert_eq!(fields[0], "*Från*\nT-Centralen");
    assert_eq!(fields[1], "*Till*\nFruängen");
    assert_eq!(
        fields[2],
        "*Avgår (preliminärt):*\n<!date^97445^{date_short_pretty} 03:04|1970-01-02 03:04>"
    );
    assert_eq!(
        fields[3],
        "*Framme (preliminärt):*\n<!date^98645^{date_short_pretty} 03:24|1970-01-02 03:24>"
    );
}

#[test]
fn hidden_walk_renders_no_block_but_counts_for_timing() {
    let hidden = walk_leg(Some(true), "Hemma", "Slussen");
    let dep = station("Slussen", "2020-10-30", "10:10:00");
    let arr = station("T-Centralen", "2020-10-30", "10:20:00");
    let trip = SLTrip {
        leg_list: SLLegList {
            legs: vec![hidden, vehicle_leg("gröna linjen", "Hässelby", dep, arr)],
        },
    };
    let blocks = SlackBlock::create_trip_block(&trip);
    // only the vehicle leg renders, and it is numbered first
    assert_eq!(blocks.len(), 2);
    assert!(section_text(&blocks[0]).starts_with(":one: "));

    // yet the hidden walk's origin still opens the summary: 10:00 to
    // 10:20 is twenty minutes, not ten
    let summary = SlackBlock::total_travel_time(&trip, &NOW);
    let text = context_text(&summary);
    assert!(text.contains("*Start*: 10:00"));
    assert!(text.contains("*Framme*: 10:20"));
    assert!(text.contains("*Total restid*: 20 minuter\n"));
}

#[test]
fn hidden_walk_does_not_shift_numbering() {
    let first = vehicle_leg(
        "linje 1",
        "B",
        station("A", "2020-10-30", "10:00:00"),
        station("B", "2020-10-30", "10:05:00"),
    );
    let hidden = walk_leg(Some(true), "B", "B");
    let second = vehicle_leg(
        "linje 2",
        "C",
        station("B", "2020-10-30", "10:10:00"),
        station("C", "2020-10-30", "10:15:00"),
    );
    let trip = SLTrip { leg_list: SLLegList { legs: vec![first, hidden, second] } };
    let blocks = SlackBlock::create_trip_block(&trip);
    assert_eq!(blocks.len(), 4);
    assert!(section_text(&blocks[0]).starts_with(":one: *Linje 1*"));
    assert!(section_text(&blocks[2]).starts_with(":two: *Linje 2*"));
}

#[test]
fn absent_hide_flag_means_shown() {
    let trip = one_leg_trip(walk_leg(None, "Slussen", "Gamla stan"));
    let blocks = SlackBlock::create_trip_block(&trip);
    assert_eq!(blocks.len(), 2);
    assert_eq!(section_text(&blocks[0]), ":one: Gå :walking:");
}

#[test]
fn legs_beyond_nine_use_generic_icon() {
    let mut legs = Vec::new();
    for i in 0..10 {
        let dep = station("A", "2020-10-30", "10:00:00");
        let arr = station("B", "2020-10-30", "10:05:00");
        legs.push(vehicle_leg(&format!("linje {}", i), "B", dep, arr));
    }
    let trip = SLTrip { leg_list: SLLegList { legs } };
    let blocks = SlackBlock::create_trip_block(&trip);
    assert_eq!(blocks.len(), 20);
    assert!(section_text(&blocks[16]).starts_with(":nine: "));
    assert!(section_text(&blocks[18]).starts_with(":1234: "));
}

#[test]
fn five_itineraries_render_three_sections_in_order() {
    let mut trips = Vec::new();
    for i in 0..5 {
        let dep = station("A", "2020-10-30", "10:00:00");
        let arr = station("B", "2020-10-30", "10:20:00");
        trips.push(one_leg_trip(vehicle_leg(&format!("linje {}", i), "B", dep, arr)));
    }
    let resp = SLTripResponse { trip: trips };
    let message = SlackBlockResponse::create_trip_response("a", "b", &resp, &NOW);

    assert_eq!(message.response_type.as_deref(), Some("ephemeral"));
    assert_eq!(section_text(&message.blocks[0]), "*Sökning:* a _till_ b");
    assert_eq!(
        context_text(&message.blocks[1]),
        ":warning: *Tänk på att vissa byten kan innehålla förseningar*"
    );

    // three sections of four blocks each: divider, two leg blocks, summary
    assert_eq!(message.blocks.len(), 2 + 3 * 4);
    for i in 0..3 {
        let base = 2 + i * 4;
        assert_eq!(message.blocks[base].block_type, "divider");
        let header = section_text(&message.blocks[base + 1]);
        assert!(header.contains(&format!("Linje {}", i)), "input order must be kept: {}", header);
        assert_eq!(message.blocks[base + 3].block_type, "context");
    }
}

#[test]
fn end_to_end_single_metro_trip() {
    let dep = station("A", "2020-10-30", "10:00:00");
    let arr = station("B", "2020-10-30", "10:20:00");
    let resp = SLTripResponse { trip: vec![one_leg_trip(vehicle_leg("blå linjen", "B", dep, arr))] };
    let message = SlackBlockResponse::create_trip_response("A", "B", &resp, &NOW);

    // header, disclaimer, divider, leg header, leg fields, summary
    assert_eq!(message.blocks.len(), 6);
    let summary = context_text(&message.blocks[5]);
    assert!(summary.contains("*Start*: 10:00"));
    assert!(summary.contains("*Framme*: 10:20"));
    assert!(summary.contains("*Total restid*: 20 minuter\n"));
    assert!(summary.contains("framme om ungefär 1 timme och 20 minuter"));
}

use joel_bot::blocks::{SlackAccessory, SlackBlock, SlackErrorResponse, SlackPlaceholder};
use joel_bot::command::trips_outcome;
use joel_bot::sl::{
    SLCategory, SLLeg, SLLegList, SLStation, SLTrip, SLTripResponse, SLVehicle,
};
use joel_bot::timepoint::CivilDateTime;

#[test]
fn default_block_is_empty_section() {
    let b = SlackBlock::default();
    assert_eq!(b.block_type, "section");
    assert!(b.text.is_none());
    assert!(b.accessory.is_none());
    assert!(b.elements.is_none());
    assert!(b.fields.is_none());
}

#[test]
fn default_placeholder_and_accessory() {
    let p = SlackPlaceholder::default();
    assert_eq!(p.placeholder_type, "plain_text");
    assert_eq!(p.text, "");
    assert!(p.emoji.is_none());

    let a = SlackAccessory::default();
    assert_eq!(a.accessory_type, "static_select");
    assert!(a.placeholder.is_none());
    assert!(a.options.is_empty());
    assert_eq!(a.action_id, "");
}

#[test]
fn error_response_is_ephemeral() {
    let e = SlackErrorResponse::new(String::from("hoppsan"));
    assert_eq!(e.text, "hoppsan");
    assert_eq!(e.response_type, "ephemeral");
}

#[test]
fn successful_retrieval_renders_message() {
    let station = |name: &str, time: &str| SLStation {
        name: String::from(name),
        time: String::from(time),
        date: String::from("2020-10-30"),
        rt_time: None,
        rt_date: None,
    };
    let trip = SLTrip {
        leg_list: SLLegList {
            legs: vec![SLLeg::JNY(SLVehicle {
                origin: station("A", "10:00:00"),
                destination: station("B", "10:20:00"),
                name: String::from("linje 13"),
                direction: String::from("B"),
                category: SLCategory::TRN,
            })],
        },
    };
    let now = CivilDateTime {
        year: 2020,
        month: 10,
        day: 30,
        hour: 9,
        minute: 0,
        epoch_seconds: 1_604_048_400,
    };
    let message = trips_outcome("A", "B", Ok(SLTripResponse { trip: vec![trip] }), &now)
        .expect("a retrieved trip list must render");
    assert_eq!(message.blocks.len(), 6);
    assert_eq!(message.response_type.as_deref(), Some("ephemeral"));
    let header = message.blocks[3].text.as_ref().unwrap();
    assert_eq!(header.text, ":one: *Linje 13* mot *B* :bullettrain_front:");
}

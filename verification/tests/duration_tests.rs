use joel_bot::formatter::generate_formatted_duration;

#[test]
fn zero_minutes_is_placeholder() {
    assert_eq!(generate_formatted_duration(0), "N/A");
}

#[test]
fn sub_minute_remainder_is_placeholder() {
    assert_eq!(generate_formatted_duration(59), "N/A");
}

#[test]
fn one_hour_zero_minutes() {
    assert_eq!(generate_formatted_duration(3600), "1 timme och N/A");
}

#[test]
fn two_hours_five_minutes() {
    assert_eq!(generate_formatted_duration(2 * 3600 + 5 * 60), "2 timmar och 5 minuter");
}

#[test]
fn one_hour_one_minute() {
    assert_eq!(generate_formatted_duration(3660), "1 timme och 1 minut");
}

#[test]
fn plural_minutes_without_hours() {
    assert_eq!(generate_formatted_duration(20 * 60), "20 minuter");
}

#[test]
fn singular_minute_without_hours() {
    assert_eq!(generate_formatted_duration(60), "1 minut");
}

#[test]
fn negative_duration_is_placeholder() {
    assert_eq!(generate_formatted_duration(-4500), "N/A");
}

#[test]
fn many_hours() {
    assert_eq!(generate_formatted_duration(26 * 3600 + 60), "26 timmar och 1 minut");
}

use common_concepts::constants::THREE_HOURS_IN_SECONDS;

#[test]
fn three_hours_in_seconds_is_10800() {
    assert_eq!(THREE_HOURS_IN_SECONDS, 10800);
}

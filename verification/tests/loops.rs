use common_concepts::loops::{
    countdown_lines, doubled_count, indexed_value_lines, labeled_loop_lines,
    reversed_range_lines, value_lines,
};

#[test]
fn doubled_count_of_ten_is_twenty() {
    assert_eq!(doubled_count(10), 20);
}

#[test]
fn doubled_count_of_the_smallest_target() {
    assert_eq!(doubled_count(1), 2);
}

#[test]
fn doubled_count_of_other_targets() {
    assert_eq!(doubled_count(2), 4);
    assert_eq!(doubled_count(12345), 24690);
}

#[test]
fn labeled_loop_lines_end_at_the_labeled_break() {
    assert_eq!(
        labeled_loop_lines(),
        vec![
            "count = 0",
            "remaining = 10",
            "remaining = 9",
            "count = 1",
            "remaining = 10",
            "remaining = 9",
            "count = 2",
            "remaining = 10",
        ]
    );
}

#[test]
fn countdown_lines_from_three() {
    assert_eq!(countdown_lines(3), vec!["3!", "2!", "1!", "LIFTOFF!!!"]);
}

#[test]
fn countdown_lines_from_zero_lifts_off_at_once() {
    assert_eq!(countdown_lines(0), vec!["LIFTOFF!!!"]);
}

#[test]
fn countdown_lines_from_twelve() {
    let lines = countdown_lines(12);
    assert_eq!(lines.len(), 13);
    assert_eq!(lines[0], "12!");
    assert_eq!(lines[2], "10!");
    assert_eq!(lines[3], "9!");
    assert_eq!(lines[11], "1!");
    assert_eq!(lines[12], "LIFTOFF!!!");
}

#[test]
fn value_lines_of_five_values() {
    let a = [10, 20, 30, 40, 50];
    let expected = vec![
        "the value is: 10",
        "the value is: 20",
        "the value is: 30",
        "the value is: 40",
        "the value is: 50",
    ];
    assert_eq!(indexed_value_lines(&a), expected);
    assert_eq!(value_lines(&a), expected);
}

#[test]
fn value_lines_of_nothing() {
    assert!(indexed_value_lines(&[]).is_empty());
    assert!(value_lines(&[]).is_empty());
}

#[test]
fn value_lines_keep_order_and_sign() {
    let a = [3, -1, 0, i32::MIN, i32::MAX, 3];
    let expected = vec![
        "the value is: 3",
        "the value is: -1",
        "the value is: 0",
        "the value is: -2147483648",
        "the value is: 2147483647",
        "the value is: 3",
    ];
    assert_eq!(indexed_value_lines(&a), expected);
    assert_eq!(value_lines(&a), expected);
}

#[test]
fn both_walks_give_the_same_lines() {
    let values: Vec<i32> = (-50..50).map(|i| i * 37).collect();
    assert_eq!(indexed_value_lines(&values), value_lines(&values));
}

#[test]
fn reversed_range_lines_of_one_to_four() {
    assert_eq!(reversed_range_lines(1, 4), vec!["3!", "2!", "1!", "LIFTOFF!!!"]);
}

#[test]
fn reversed_range_lines_of_an_empty_range() {
    assert_eq!(reversed_range_lines(4, 4), vec!["LIFTOFF!!!"]);
    assert_eq!(reversed_range_lines(4, 1), vec!["LIFTOFF!!!"]);
    assert_eq!(reversed_range_lines(i32::MAX, i32::MIN), vec!["LIFTOFF!!!"]);
}

#[test]
fn reversed_range_lines_across_zero() {
    assert_eq!(
        reversed_range_lines(-2, 2),
        vec!["1!", "0!", "-1!", "-2!", "LIFTOFF!!!"]
    );
}

#[test]
fn reversed_range_lines_at_the_ends_of_the_range() {
    assert_eq!(
        reversed_range_lines(i32::MAX - 2, i32::MAX),
        vec!["2147483646!", "2147483645!", "LIFTOFF!!!"]
    );
    assert_eq!(
        reversed_range_lines(i32::MIN, i32::MIN + 2),
        vec!["-2147483647!", "-2147483648!", "LIFTOFF!!!"]
    );
}

#[test]
fn countdown_is_the_reversed_range_from_one() {
    for start in 0..20 {
        assert_eq!(countdown_lines(start), reversed_range_lines(1, start + 1));
    }
}

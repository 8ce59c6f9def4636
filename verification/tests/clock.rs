use vanity_search::clock::{current_timestamp, timestamp_text};

#[test]
fn timestamp_appends_milliseconds_in_three_digits() {
    assert_eq!(timestamp_text("20240102030405", 1_704_164_645_678), "20240102030405-678");
    assert_eq!(timestamp_text("20240102030405", 1_704_164_645_007), "20240102030405-007");
    assert_eq!(timestamp_text("20240102030405", 1_704_164_645_000), "20240102030405-000");
    assert_eq!(timestamp_text("20240102030405", 1_704_164_645_999), "20240102030405-999");
    assert_eq!(timestamp_text("", 0), "-000");
    assert_eq!(timestamp_text("x", i64::MAX), "x-807");
}

#[test]
fn timestamp_before_1970_keeps_the_sign_of_the_remainder() {
    for millis in [-1i64, -5, -50, -500, -999, -1000, -1001, -123_456, i64::MIN, i64::MIN + 1] {
        let expected = format!("{}-{:03}", "19691231235959", millis % 1000);
        assert_eq!(timestamp_text("19691231235959", millis), expected);
    }
    assert_eq!(timestamp_text("c", -5), "c--05");
    assert_eq!(timestamp_text("c", -50), "c--50");
    assert_eq!(timestamp_text("c", -500), "c--500");
    assert_eq!(timestamp_text("c", -1000), "c-000");
}

#[test]
fn timestamp_matches_standard_formatting() {
    for millis in [0i64, 1, 9, 10, 99, 100, 999, 1000, 1001, 86_399_999, 1_700_000_000_123] {
        let expected = format!("{}-{:03}", "20231114221320", millis % 1000);
        assert_eq!(timestamp_text("20231114221320", millis), expected);
    }
}

#[test]
fn current_timestamp_has_calendar_and_milliseconds() {
    let text = current_timestamp();
    let (calendar, millis) = text.rsplit_once('-').unwrap();
    assert_eq!(calendar.len(), 14);
    assert!(calendar.chars().all(|c| c.is_ascii_digit()));
    assert_eq!(millis.len(), 3);
    assert!(millis.chars().all(|c| c.is_ascii_digit()));
    let month: u32 = calendar[4..6].parse().unwrap();
    let day: u32 = calendar[6..8].parse().unwrap();
    let hour: u32 = calendar[8..10].parse().unwrap();
    assert!((1..=12).contains(&month));
    assert!((1..=31).contains(&day));
    assert!(hour < 24);
}

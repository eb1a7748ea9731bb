use shotauto::timestamp::Timestamp;

#[test]
fn the_epoch_is_written_in_utc() {
    let epoch = Timestamp { secs: 0, nanos: 0 };
    assert_eq!(epoch.to_text(), Some("1970-01-01T00:00:00+00:00".to_string()));
}

#[test]
fn fractions_of_a_second_are_written() {
    let t = Timestamp { secs: 1431648000, nanos: 500_000_000 };
    assert_eq!(t.to_text(), Some("2015-05-15T00:00:00.500+00:00".to_string()));
}

#[test]
fn an_offset_is_taken_into_account_when_reading() {
    assert_eq!(
        Timestamp::parse("1996-12-19T16:39:57-08:00"),
        Some(Timestamp { secs: 851042397, nanos: 0 })
    );
    assert_eq!(
        Timestamp::parse("2015-05-15T00:00:00Z"),
        Some(Timestamp { secs: 1431648000, nanos: 0 })
    );
}

#[test]
fn a_written_instant_reads_back() {
    let t = Timestamp { secs: 1700000000, nanos: 123_456_789 };
    let text = t.to_text().unwrap();
    assert_eq!(Timestamp::parse(&text), Some(t));
    assert_eq!(Timestamp::parse_lenient(&text, Timestamp { secs: 1, nanos: 1 }), (t, false));
}

#[test]
fn a_text_in_another_form_is_not_read() {
    assert_eq!(Timestamp::parse("2024-05-01 10:00:00"), None);
    assert_eq!(Timestamp::parse(""), None);
    assert_eq!(Timestamp::parse("yesterday"), None);
}

#[test]
fn a_text_that_cannot_be_read_degrades_to_the_fallback() {
    let fallback = Timestamp { secs: 42, nanos: 7 };
    assert_eq!(Timestamp::parse_lenient("2024-05-01 10:00:00", fallback), (fallback, true));
    assert_eq!(Timestamp::parse_lenient("", fallback), (fallback, true));
}

#[test]
fn an_instant_outside_the_calendar_cannot_be_written() {
    assert_eq!(Timestamp { secs: i64::MAX, nanos: 0 }.to_text(), None);
    assert_eq!(Timestamp { secs: i64::MIN, nanos: 0 }.to_text(), None);
    assert_eq!(Timestamp { secs: 0, nanos: 2_000_000_000 }.to_text(), None);
}

#[test]
fn the_current_instant_can_be_written_and_read_back() {
    let now = Timestamp::now().unwrap();
    let text = now.to_text().unwrap();
    assert_eq!(Timestamp::parse(&text), Some(now));
    assert!(now.secs > 1_600_000_000);
}

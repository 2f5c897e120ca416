use downtime::clock::{stamp_of_reading, stamp_with, time_now, time_stamp, LAST_SECOND};

#[test]
fn stamp_joins_date_and_seconds() {
    assert_eq!(
        stamp_with("Fri, 15 May 2015 00:00:00 +0000", 1431648000),
        "Fri, 15 May 2015 00:00:00 +0000 system time: 1431648000"
    );
    assert_eq!(stamp_with("", 0), " system time: 0");
}

#[test]
fn stamps_of_known_moments() {
    assert_eq!(
        time_stamp(0),
        Some(String::from("Thu, 1 Jan 1970 00:00:00 +0000 system time: 0"))
    );
    assert_eq!(
        time_stamp(1431648000),
        Some(String::from("Fri, 15 May 2015 00:00:00 +0000 system time: 1431648000"))
    );
    assert_eq!(
        time_stamp(1_000_000_000),
        Some(String::from("Sun, 9 Sep 2001 01:46:40 +0000 system time: 1000000000"))
    );
}

#[test]
fn last_second_has_a_stamp_and_the_next_has_none() {
    assert_eq!(LAST_SECOND, 253_402_300_799);
    assert_eq!(
        time_stamp(LAST_SECOND),
        Some(String::from("Fri, 31 Dec 9999 23:59:59 +0000 system time: 253402300799"))
    );
    assert_eq!(time_stamp(LAST_SECOND + 1), None);
    assert_eq!(time_stamp(u64::MAX), None);
}

#[test]
fn stamp_agrees_with_chrono() {
    for secs in [1u64, 59, 86_399, 86_400, 951_782_400, 1_709_164_800, 4_102_444_800] {
        let date = chrono::DateTime::from_timestamp(secs as i64, 0).unwrap().to_rfc2822();
        assert_eq!(time_stamp(secs), Some(format!("{date} system time: {secs}")));
    }
}

#[test]
fn now_has_a_stamp() {
    let stamp = time_now().unwrap();
    let (date, secs) = stamp.split_once(" system time: ").unwrap();
    assert!(date.ends_with(" +0000"));
    let secs: u64 = secs.parse().unwrap();
    assert_eq!(time_stamp(secs), Some(stamp.clone()));
    assert!(secs > 1_600_000_000);
}

#[test]
fn stamp_of_a_reading() {
    assert_eq!(stamp_of_reading(None), None);
    assert_eq!(
        stamp_of_reading(Some(0)),
        Some(String::from("Thu, 1 Jan 1970 00:00:00 +0000 system time: 0"))
    );
    assert_eq!(
        stamp_of_reading(Some(LAST_SECOND)),
        Some(String::from("Fri, 31 Dec 9999 23:59:59 +0000 system time: 253402300799"))
    );
    assert_eq!(stamp_of_reading(Some(LAST_SECOND + 1)), None);
}

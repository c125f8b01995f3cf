use archiver::stamp::Timestamp;

fn stamp(year: u16, month: u8, day: u8, hour: u8, minute: u8, second: u8) -> Timestamp {
    Timestamp { year, month, day, hour, minute, second }
}

#[test]
fn epoch_is_the_first_day_of_1980() {
    assert_eq!(Timestamp::epoch(), stamp(1980, 1, 1, 0, 0, 0));
    assert!(Timestamp::epoch().is_valid());
}

#[test]
fn new_takes_the_bounds() {
    assert_eq!(Timestamp::new(1980, 1, 1, 0, 0, 0), Some(stamp(1980, 1, 1, 0, 0, 0)));
    assert_eq!(Timestamp::new(2107, 12, 31, 23, 59, 60), Some(stamp(2107, 12, 31, 23, 59, 60)));
    assert_eq!(Timestamp::new(2024, 2, 29, 12, 30, 15), Some(stamp(2024, 2, 29, 12, 30, 15)));
}

#[test]
fn new_refuses_what_lies_outside() {
    assert_eq!(Timestamp::new(1979, 12, 31, 23, 59, 59), None);
    assert_eq!(Timestamp::new(2108, 1, 1, 0, 0, 0), None);
    assert_eq!(Timestamp::new(2000, 0, 1, 0, 0, 0), None);
    assert_eq!(Timestamp::new(2000, 13, 1, 0, 0, 0), None);
    assert_eq!(Timestamp::new(2000, 1, 0, 0, 0, 0), None);
    assert_eq!(Timestamp::new(2000, 1, 32, 0, 0, 0), None);
    assert_eq!(Timestamp::new(2000, 1, 1, 24, 0, 0), None);
    assert_eq!(Timestamp::new(2000, 1, 1, 0, 60, 0), None);
    assert_eq!(Timestamp::new(2000, 1, 1, 0, 0, 61), None);
}

#[test]
fn validity_of_each_field() {
    assert!(stamp(2000, 6, 15, 23, 59, 60).is_valid());
    assert!(!stamp(0, 6, 15, 0, 0, 0).is_valid());
    assert!(!stamp(2000, 6, 15, 0, 0, 255).is_valid());
}

#[test]
fn normalize_keeps_valid_stamps() {
    let s = stamp(2031, 7, 4, 8, 9, 10);
    assert_eq!(s.normalize(), s);
}

#[test]
fn normalize_turns_invalid_stamps_into_the_epoch() {
    assert_eq!(stamp(1970, 1, 1, 0, 0, 0).normalize(), Timestamp::epoch());
    assert_eq!(stamp(2000, 1, 1, 25, 0, 0).normalize(), Timestamp::epoch());
    assert_eq!(stamp(2000, 1, 1, 25, 0, 0).normalize().normalize(), Timestamp::epoch());
}

use clocklib::time::{advance_time, default_datetime, DateTime};

fn at(hours: u8, minutes: u8, seconds: u8) -> DateTime {
    DateTime { year: 23, month: 7, weekday: 4, day: 9, hours, minutes, seconds }
}

#[test]
fn default_datetime_is_midnight_of_the_first_day() {
    let t = default_datetime();
    assert_eq!(
        t,
        DateTime { year: 0, month: 1, weekday: 0, day: 1, hours: 0, minutes: 0, seconds: 0 }
    );
    assert!(t.check_valid());
}

#[test]
fn tick_steps_the_seconds() {
    let mut t = at(13, 5, 0);
    t.tick();
    assert_eq!(t, at(13, 5, 1));
}

#[test]
fn tick_carries_into_minutes() {
    let mut t = at(13, 5, 59);
    t.tick();
    assert_eq!(t, at(13, 6, 0));
}

#[test]
fn tick_carries_into_hours() {
    let mut t = at(13, 59, 59);
    t.tick();
    assert_eq!(t, at(14, 0, 0));
}

#[test]
fn tick_carries_into_the_day_and_no_further() {
    let mut t = DateTime { year: 23, month: 12, weekday: 6, day: 31, hours: 23, minutes: 59, seconds: 59 };
    t.tick();
    assert_eq!(
        t,
        DateTime { year: 23, month: 12, weekday: 6, day: 32, hours: 0, minutes: 0, seconds: 0 }
    );
}

#[test]
fn tick_brings_minutes_off_the_dial_back() {
    let mut t = at(12, 70, 10);
    assert!(!t.check_valid());
    assert!(t.check_can_tick());
    t.tick();
    assert_eq!(t, at(13, 0, 11));
}

#[test]
fn a_day_of_ticks_comes_round() {
    let mut t = at(13, 5, 0);
    for _ in 0..86_400u32 {
        assert!(t.check_can_tick());
        t.tick();
        assert!(t.check_valid());
    }
    assert_eq!(t, DateTime { day: 10, ..at(13, 5, 0) });
}

#[test]
fn can_tick_is_false_where_a_field_would_overflow() {
    assert!(!at(1, 1, 255).check_can_tick());
    assert!(!at(1, 255, 59).check_can_tick());
    assert!(!at(255, 59, 59).check_can_tick());
    let last = DateTime { day: 255, ..at(23, 59, 59) };
    assert!(!last.check_can_tick());
    let before_last = DateTime { day: 255, ..at(23, 59, 58) };
    assert!(before_last.check_can_tick());
    assert!(at(1, 1, 254).check_can_tick());
}

#[test]
fn check_valid_knows_the_dial() {
    assert!(at(23, 59, 59).check_valid());
    assert!(!at(24, 0, 0).check_valid());
    assert!(!at(0, 60, 0).check_valid());
    assert!(!at(0, 0, 60).check_valid());
}

#[test]
fn advance_minutes_clears_seconds() {
    let next = advance_time(0, at(13, 5, 42));
    assert_eq!(
        next,
        DateTime { year: 0, month: 1, weekday: 0, day: 9, hours: 13, minutes: 6, seconds: 0 }
    );
}

#[test]
fn advance_minutes_wraps_without_touching_hours() {
    let next = advance_time(0, at(13, 59, 10));
    assert_eq!((next.hours, next.minutes, next.seconds), (13, 0, 0));
}

#[test]
fn advance_hours_keeps_minutes_and_seconds() {
    let next = advance_time(1, at(13, 5, 42));
    assert_eq!((next.hours, next.minutes, next.seconds), (14, 5, 42));
    let wrapped = advance_time(1, at(23, 5, 42));
    assert_eq!((wrapped.hours, wrapped.minutes, wrapped.seconds), (0, 5, 42));
}

#[test]
fn advance_elsewhere_only_resets_the_calendar() {
    let next = advance_time(2, at(13, 5, 42));
    assert_eq!(
        next,
        DateTime { year: 0, month: 1, weekday: 0, day: 9, hours: 13, minutes: 5, seconds: 42 }
    );
}

#[test]
fn advance_does_not_overflow_on_a_wild_reading() {
    let next = advance_time(0, at(13, 255, 7));
    assert_eq!(next.minutes, 16);
    let next = advance_time(1, at(255, 5, 7));
    assert_eq!(next.hours, 16);
}

#[test]
fn digits_of_five_past_one() {
    assert_eq!(at(13, 5, 0).to_digits(), [1, 3, 0, 5]);
    assert_eq!(at(0, 0, 0).to_digits(), [0, 0, 0, 0]);
    assert_eq!(at(23, 59, 59).to_digits(), [2, 3, 5, 9]);
}

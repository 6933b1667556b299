use watchmymcserver::schedule::parse_time_of_day;
use watchmymcserver::schedule::ScheduleWindow;
use watchmymcserver::schedule::TimeOfDay;
use watchmymcserver::ServerManagerEvent;

#[test]
fn parses_single_digit_hour() {
    assert_eq!(parse_time_of_day("8:00"), Some(TimeOfDay { hour: 8, minute: 0 }));
}

#[test]
fn parses_two_digit_hour() {
    assert_eq!(parse_time_of_day("08:00"), Some(TimeOfDay { hour: 8, minute: 0 }));
    assert_eq!(parse_time_of_day("21:06"), Some(TimeOfDay { hour: 21, minute: 6 }));
    assert_eq!(parse_time_of_day("23:59"), Some(TimeOfDay { hour: 23, minute: 59 }));
}

#[test]
fn parses_single_digit_minute() {
    assert_eq!(parse_time_of_day("0:0"), Some(TimeOfDay { hour: 0, minute: 0 }));
    assert_eq!(parse_time_of_day("12:5"), Some(TimeOfDay { hour: 12, minute: 5 }));
}

#[test]
fn rejects_out_of_range_hour() {
    assert_eq!(parse_time_of_day("24:00"), None);
    assert_eq!(parse_time_of_day("99:00"), None);
}

#[test]
fn rejects_out_of_range_minute() {
    assert_eq!(parse_time_of_day("12:60"), None);
    assert_eq!(parse_time_of_day("0:99"), None);
}

#[test]
fn rejects_malformed_marks() {
    assert_eq!(parse_time_of_day(""), None);
    assert_eq!(parse_time_of_day("12"), None);
    assert_eq!(parse_time_of_day("1200"), None);
    assert_eq!(parse_time_of_day("a:00"), None);
    assert_eq!(parse_time_of_day("12:3a"), None);
    assert_eq!(parse_time_of_day("12:345"), None);
    assert_eq!(parse_time_of_day(":30"), None);
    assert_eq!(parse_time_of_day("12:"), None);
    assert_eq!(parse_time_of_day("1::0"), None);
}

#[test]
fn tick_matches_on_mark() {
    let w = ScheduleWindow {
        on: TimeOfDay { hour: 8, minute: 0 },
        off: TimeOfDay { hour: 21, minute: 6 },
    };
    assert_eq!(w.tick(8, 0), ServerManagerEvent::ServerOn);
}

#[test]
fn tick_matches_off_mark() {
    let w = ScheduleWindow {
        on: TimeOfDay { hour: 8, minute: 0 },
        off: TimeOfDay { hour: 21, minute: 6 },
    };
    assert_eq!(w.tick(21, 6), ServerManagerEvent::ServerOff);
}

#[test]
fn tick_is_silent_between_marks() {
    let w = ScheduleWindow {
        on: TimeOfDay { hour: 8, minute: 0 },
        off: TimeOfDay { hour: 21, minute: 6 },
    };
    assert_eq!(w.tick(8, 1), ServerManagerEvent::Nil);
    assert_eq!(w.tick(21, 5), ServerManagerEvent::Nil);
    assert_eq!(w.tick(0, 0), ServerManagerEvent::Nil);
}

#[test]
fn tick_needs_both_fields_to_match() {
    let w = ScheduleWindow {
        on: TimeOfDay { hour: 8, minute: 0 },
        off: TimeOfDay { hour: 21, minute: 6 },
    };
    assert_eq!(w.tick(8, 6), ServerManagerEvent::Nil);
    assert_eq!(w.tick(21, 0), ServerManagerEvent::Nil);
}

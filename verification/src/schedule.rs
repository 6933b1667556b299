use vstd::prelude::*;

use crate::manager::ServerManagerEvent;

verus! {

/// A time of day at minute granularity.
#[derive(Clone, Copy, PartialEq, Eq, Structural, Debug)]
pub struct TimeOfDay {
    /// Hour, 0 to 23.
    pub hour: u8,
    /// Minute, 0 to 59.
    pub minute: u8,
}

impl TimeOfDay {
    /// Both components are in range for a 24-hour clock.
    pub open spec fn wf(self) -> bool {
        self.hour < 24 && self.minute < 60
    }
}

/// Whether `c` is an ASCII decimal digit.
pub open spec fn is_digit(c: char) -> bool {
    48 <= c as int && c as int <= 57
}

/// The numeric value of an ASCII decimal digit.
pub open spec fn digit_val(c: char) -> int {
    c as int - 48
}

/// A pair of in-range components makes a time of day; anything else is rejected.
pub open spec fn checked_time(h: int, m: int) -> Option<TimeOfDay> {
    if 0 <= h && h < 24 && 0 <= m && m < 60 {
        Some(TimeOfDay { hour: h as u8, minute: m as u8 })
    } else {
        None
    }
}

/// The accepted grammar for a schedule mark: one or two digits of hour,
/// a colon, one or two digits of minute, nothing else; the hour must be
/// below 24 and the minute below 60.
pub open spec fn spec_parse_time(s: Seq<char>) -> Option<TimeOfDay> {
    if s.len() == 3 && is_digit(s[0]) && s[1] == ':' && is_digit(s[2]) {
        checked_time(digit_val(s[0]), digit_val(s[2]))
    } else if s.len() == 4 && is_digit(s[0]) && s[1] == ':' && is_digit(s[2]) && is_digit(s[3]) {
        checked_time(digit_val(s[0]), 10 * digit_val(s[2]) + digit_val(s[3]))
    } else if s.len() == 4 && is_digit(s[0]) && is_digit(s[1]) && s[2] == ':' && is_digit(s[3]) {
        checked_time(10 * digit_val(s[0]) + digit_val(s[1]), digit_val(s[3]))
    } else if s.len() == 5 && is_digit(s[0]) && is_digit(s[1]) && s[2] == ':' && is_digit(s[3])
        && is_digit(s[4]) {
        checked_time(10 * digit_val(s[0]) + digit_val(s[1]), 10 * digit_val(s[3]) + digit_val(s[4]))
    } else {
        None
    }
}

/// The digit's value when `c` is a digit, `None` otherwise.
fn digit_of(c: char) -> (r: Option<u8>)
    ensures
        r matches Some(d) ==> is_digit(c) && d == digit_val(c),
        r is None ==> !is_digit(c),
{
    let v = c as u32;
    if 48 <= v && v <= 57 {
        Some((v - 48) as u8)
    } else {
        None
    }
}

/// The time of day when both components are in range, `None` otherwise.
fn checked(h: u8, m: u8) -> (r: Option<TimeOfDay>)
    ensures
        r == checked_time(h as int, m as int),
{
    if h < 24 && m < 60 {
        Some(TimeOfDay { hour: h, minute: m })
    } else {
        None
    }
}

/// Parses a schedule mark in 24-hour `H:MM`/`HH:MM` form (minute digits
/// one or two as well). Returns `None` exactly on inputs outside the
/// grammar of [`spec_parse_time`].
pub fn parse_time_of_day(s: &str) -> (r: Option<TimeOfDay>)
    ensures
        r == spec_parse_time(s@),
        r matches Some(t) ==> t.wf(),
{
    let n = s.unicode_len();
    if n == 3 {
        let c0 = s.get_char(0);
        let c1 = s.get_char(1);
        let c2 = s.get_char(2);
        match (digit_of(c0), digit_of(c2)) {
            (Some(h), Some(m)) => if c1 == ':' {
                checked(h, m)
            } else {
                None
            },
            _ => None,
        }
    } else if n == 4 {
        let c0 = s.get_char(0);
        let c1 = s.get_char(1);
        let c2 = s.get_char(2);
        let c3 = s.get_char(3);
        match (digit_of(c0), digit_of(c1), digit_of(c2), digit_of(c3)) {
            (Some(h), _, Some(m1), Some(m0)) if c1 == ':' => checked(h, 10 * m1 + m0),
            (Some(h1), Some(h0), _, Some(m)) if c2 == ':' => checked(10 * h1 + h0, m),
            _ => None,
        }
    } else if n == 5 {
        let c0 = s.get_char(0);
        let c1 = s.get_char(1);
        let c2 = s.get_char(2);
        let c3 = s.get_char(3);
        let c4 = s.get_char(4);
        match (digit_of(c0), digit_of(c1), digit_of(c3), digit_of(c4)) {
            (Some(h1), Some(h0), Some(m1), Some(m0)) if c2 == ':' => checked(
                10 * h1 + h0,
                10 * m1 + m0,
            ),
            _ => None,
        }
    } else {
        None
    }
}

/// The configured daily window: the start mark and the stop mark.
#[derive(Clone, Copy, PartialEq, Eq, Structural, Debug)]
pub struct ScheduleWindow {
    /// When the server is started each day.
    pub on: TimeOfDay,
    /// When the server is stopped each day.
    pub off: TimeOfDay,
}

/// The event one clock sample yields: `ServerOn` on an exact hour-and-minute
/// match with the start mark, else `ServerOff` on a match with the stop mark,
/// else `Nil`.
pub open spec fn spec_clock_event(w: ScheduleWindow, hour: u8, minute: u8) -> ServerManagerEvent {
    if hour == w.on.hour && minute == w.on.minute {
        ServerManagerEvent::ServerOn
    } else if hour == w.off.hour && minute == w.off.minute {
        ServerManagerEvent::ServerOff
    } else {
        ServerManagerEvent::Nil
    }
}

impl ScheduleWindow {
    /// Both marks are valid times of day and differ from each other.
    pub open spec fn wf(self) -> bool {
        self.on.wf() && self.off.wf() && self.on != self.off
    }

    /// One sampling pass of the schedule clock: compares the sampled
    /// hour and minute against the two marks.
    pub fn tick(&self, hour: u8, minute: u8) -> (e: ServerManagerEvent)
        ensures
            e == spec_clock_event(*self, hour, minute),
    {
        if hour == self.on.hour && minute == self.on.minute {
            ServerManagerEvent::ServerOn
        } else if hour == self.off.hour && minute == self.off.minute {
            ServerManagerEvent::ServerOff
        } else {
            ServerManagerEvent::Nil
        }
    }
}

} // verus!

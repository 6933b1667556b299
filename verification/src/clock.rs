use vstd::prelude::*;

use chrono::Datelike;
use chrono::Timelike;

verus! {

/// One sample of the local wall clock, split into plain calendar and
/// time-of-day components.
#[derive(Clone, Copy, PartialEq, Eq, Structural, Debug)]
pub struct LocalStamp {
    /// Calendar year.
    pub year: i32,
    /// Month, 1 to 12.
    pub month: u8,
    /// Day of month, 1 to 31.
    pub day: u8,
    /// Hour, 0 to 23.
    pub hour: u8,
    /// Minute, 0 to 59.
    pub minute: u8,
    /// Second, 0 to 59.
    pub second: u8,
}

impl LocalStamp {
    /// Every component is inside its calendar or clock range.
    pub open spec fn wf(self) -> bool {
        1 <= self.month && self.month <= 12 && 1 <= self.day && self.day <= 31 && self.hour < 24
            && self.minute < 60 && self.second < 60
    }
}

/// Relies on `chrono::Local::now` and its `Datelike`/`Timelike` accessors:
/// `month()` is 1 to 12, `day()` 1 to 31, `hour()` 0 to 23, and `minute()`
/// and `second()` 0 to 59. The sample depends on the machine's clock, so
/// nothing beyond those ranges holds of it.
#[verifier::external_body]
pub fn local_now() -> (r: LocalStamp)
    ensures
        r.wf(),
{
    let now = chrono::Local::now();
    LocalStamp {
        year: now.year(),
        month: now.month() as u8,
        day: now.day() as u8,
        hour: now.hour() as u8,
        minute: now.minute() as u8,
        second: now.second() as u8,
    }
}

} // verus!

//! Calendar time as the real-time clock chip reports it, and the two ways
//! the clock changes it: the one-second tick and the user's edit.

use vstd::prelude::*;

verus! {

/// Seconds in a day.
pub const SECONDS_PER_DAY: u32 = 86_400;

/// Date and time of day, field by field, each as a plain number.
///
/// Only the time of day is kept consistent by this library; the calendar
/// fields are carried along untouched.
#[derive(Clone, Copy, Debug, PartialEq, Eq, Structural)]
pub struct DateTime {
    pub year: u8,
    pub month: u8,
    pub weekday: u8,
    pub day: u8,
    pub hours: u8,
    pub minutes: u8,
    pub seconds: u8,
}

impl DateTime {
    /// The time of day lies on the dial: hours below 24, minutes and
    /// seconds below 60.
    pub open spec fn is_valid(self) -> bool {
        &&& self.hours < 24
        &&& self.minutes < 60
        &&& self.seconds < 60
    }

    /// Seconds elapsed since midnight.
    pub open spec fn second_of_day(self) -> int {
        self.hours * 3600 + self.minutes * 60 + self.seconds
    }

    /// Whether a tick from here carries into the minutes.
    pub open spec fn carries_minute(self) -> bool {
        self.seconds + 1 >= 60
    }

    /// Whether a tick from here carries into the hours.
    pub open spec fn carries_hour(self) -> bool {
        self.minutes + (if self.carries_minute() { 1int } else { 0int }) >= 60
    }

    /// Whether a tick from here carries into the day.
    pub open spec fn carries_day(self) -> bool {
        self.hours + (if self.carries_hour() { 1int } else { 0int }) >= 24
    }

    /// No field leaves the range of a byte when this time is ticked.
    pub open spec fn can_tick(self) -> bool {
        &&& self.seconds < u8::MAX
        &&& self.carries_minute() ==> self.minutes < u8::MAX
        &&& self.carries_hour() ==> self.hours < u8::MAX
        &&& self.carries_day() ==> self.day < u8::MAX
    }

    /// The time one second later: seconds carry into minutes, minutes into
    /// hours, hours into the day. The day is a bare counter; month and year
    /// never move.
    pub open spec fn ticked(self) -> DateTime
        recommends
            self.can_tick(),
    {
        DateTime {
            seconds: if self.carries_minute() { 0u8 } else { (self.seconds + 1) as u8 },
            minutes: if self.carries_hour() {
                0u8
            } else if self.carries_minute() {
                (self.minutes + 1) as u8
            } else {
                self.minutes
            },
            hours: if self.carries_day() {
                0u8
            } else if self.carries_hour() {
                (self.hours + 1) as u8
            } else {
                self.hours
            },
            day: if self.carries_day() { (self.day + 1) as u8 } else { self.day },
            ..self
        }
    }

    /// The time after the user pressed "adjust" on the field at `position`,
    /// starting from the reading `self` of the persistent clock.
    ///
    /// Position 0 steps the minutes and clears the seconds, position 1 steps
    /// the hours, any other position steps nothing. Month, weekday and year
    /// are always reset to those of [`default_datetime`].
    pub open spec fn advanced(self, position: u8) -> DateTime {
        DateTime {
            year: 0,
            month: 1,
            weekday: 0,
            day: self.day,
            hours: if position == 1 { ((self.hours + 1) % 24) as u8 } else { self.hours },
            minutes: if position == 0 { ((self.minutes + 1) % 60) as u8 } else { self.minutes },
            seconds: if position == 0 { 0 } else { self.seconds },
        }
    }

    /// The four decimal digits on the display, left to right: tens and units
    /// of the hours, tens and units of the minutes.
    pub open spec fn digits(self) -> Seq<usize> {
        seq![
            (self.hours / 10) as usize,
            (self.hours % 10) as usize,
            (self.minutes / 10) as usize,
            (self.minutes % 10) as usize,
        ]
    }

    /// Tells whether the time of day lies on the dial.
    pub fn check_valid(&self) -> (ok: bool)
        ensures
            ok == self.is_valid(),
    {
        self.hours < 24 && self.minutes < 60 && self.seconds < 60
    }

    /// Tells whether [`DateTime::tick`] may be called.
    pub fn check_can_tick(&self) -> (ok: bool)
        ensures
            ok == self.can_tick(),
    {
        let carries_minute: bool = self.seconds >= 59;
        let carries_hour: bool = self.minutes >= 60 || (carries_minute && self.minutes == 59);
        let carries_day: bool = self.hours >= 24 || (carries_hour && self.hours == 23);
        self.seconds < u8::MAX && (!carries_minute || self.minutes < u8::MAX) && (!carries_hour
            || self.hours < u8::MAX) && (!carries_day || self.day < u8::MAX)
    }

    /// Advances the time by one second.
    pub fn tick(&mut self)
        requires
            old(self).can_tick(),
        ensures
            *final(self) == old(self).ticked(),
            old(self).is_valid() ==> final(self).is_valid(),
    {
        self.seconds = self.seconds + 1;
        if self.seconds >= 60 {
            self.seconds = 0;
            self.minutes = self.minutes + 1;
        }
        if self.minutes >= 60 {
            self.minutes = 0;
            self.hours = self.hours + 1;
        }
        if self.hours >= 24 {
            self.hours = 0;
            self.day = self.day + 1;
        }
    }

    /// Computes [`DateTime::digits`].
    pub fn to_digits(&self) -> (digits: [usize; 4])
        ensures
            digits@ == self.digits(),
            self.is_valid() ==> forall|i: int| 0 <= i < 4 ==> digits@[i] < 10,
    {
        let digits: [usize; 4] = [
            (self.hours / 10) as usize,
            (self.hours % 10) as usize,
            (self.minutes / 10) as usize,
            (self.minutes % 10) as usize,
        ];
        digits
    }
}

/// The time the clock shows before the persistent clock was first read:
/// midnight on the first day of the first month of year 0.
pub fn default_datetime() -> (t: DateTime)
    ensures
        t == (DateTime { year: 0, month: 1, weekday: 0, day: 1, hours: 0, minutes: 0, seconds: 0 }),
{
    DateTime { year: 0, month: 1, weekday: 0, day: 1, hours: 0, minutes: 0, seconds: 0 }
}

/// Applies one press of the adjust button to the reading `current` of the
/// persistent clock and returns the time to store and to write back.
pub fn advance_time(position: u8, current: DateTime) -> (next: DateTime)
    ensures
        next == current.advanced(position),
        current.is_valid() ==> next.is_valid(),
{
    let defaults = default_datetime();
    let mut next = current;
    next.month = defaults.month;
    next.weekday = defaults.weekday;
    next.year = defaults.year;
    if position == 0 {
        next.minutes = (current.minutes % 60 + 1) % 60;
        next.seconds = 0;
    } else if position == 1 {
        next.hours = (current.hours % 24 + 1) % 24;
    }
    next
}

/// A tick moves a valid time one second along the dial, wrapping at
/// midnight, and the day advances exactly when it wraps.
pub proof fn lemma_tick_advances_one_second(t: DateTime)
    requires
        t.is_valid(),
    ensures
        t.ticked().is_valid(),
        t.ticked().second_of_day() == (t.second_of_day() + 1) % (SECONDS_PER_DAY as int),
        t.ticked().day == if t.second_of_day() == SECONDS_PER_DAY - 1 {
            (t.day + 1) as u8
        } else {
            t.day
        },
        t.ticked().year == t.year,
        t.ticked().month == t.month,
        t.ticked().weekday == t.weekday,
{
}

} // verus!

//! The shared state of the clock and the three things that change it: the
//! dispatcher, the ticker and the resynchronisation with the persistent
//! clock.
//!
//! A running system keeps the three fields behind separate locks and lets
//! the tasks interleave; [`Clock`] is the same state in one piece, changed
//! by one writer at a time.

use vstd::prelude::*;
use crate::dispatch::{
    Action,
    State,
    DEFAULT_BRIGHTNESS_LEVEL,
    MAX_BRIGHTNESS_LEVEL,
    adjust_brightness,
    next_brightness,
    on_event,
    spec_on_event,
};
use crate::event::{ButtonPress, Event};
use crate::refresh::ScreenRefresh;
use crate::time::{DateTime, advance_time, default_datetime};

verus! {

/// How often the time is taken over from the persistent clock, in seconds.
pub const RTC_SYNC_PERIOD_S: u64 = 600;

/// Period of the ticker, in seconds.
pub const TICK_PERIOD_S: u64 = 1;

/// Time, brightness level and mode.
#[derive(Clone, Copy, Debug, PartialEq, Eq, Structural)]
pub struct Clock {
    pub time: DateTime,
    pub brightness: usize,
    pub state: State,
}

/// What the dispatcher asks of the outside after one event.
#[derive(Clone, Copy, Debug, PartialEq, Eq, Structural)]
pub struct Outcome {
    /// The refresh request to raise.
    pub refresh: Option<ScreenRefresh>,
    /// The time to write to the persistent clock.
    pub rtc_write: Option<DateTime>,
}

/// One event together with what the persistent clock read when the event
/// was handled.
pub struct Arrival {
    pub event: Event,
    pub rtc_now: DateTime,
}

impl Clock {
    /// Every field is in its range.
    pub open spec fn is_valid(self) -> bool {
        &&& self.time.is_valid()
        &&& self.brightness < MAX_BRIGHTNESS_LEVEL
        &&& self.state.is_valid()
    }

    /// The state at power-up.
    pub open spec fn initial() -> Clock {
        Clock {
            time: DateTime {
                year: 0,
                month: 1,
                weekday: 0,
                day: 1,
                hours: 0,
                minutes: 0,
                seconds: 0,
            },
            brightness: DEFAULT_BRIGHTNESS_LEVEL,
            state: State::Idle,
        }
    }

    /// The state after `event` was handled while the persistent clock read
    /// `rtc_now`.
    pub open spec fn after(self, event: Event, rtc_now: DateTime) -> Clock {
        let action = spec_on_event(event, self.state);
        Clock {
            time: match action {
                Action::AdvanceTime(position) => rtc_now.advanced(position),
                _ => self.time,
            },
            brightness: match action {
                Action::AdjustBrightness => next_brightness(self.brightness),
                _ => self.brightness,
            },
            state: action.next_state(self.state),
        }
    }

    /// What handling `event` asks of the outside.
    pub open spec fn outcome(self, event: Event, rtc_now: DateTime) -> Outcome {
        let action = spec_on_event(event, self.state);
        Outcome {
            refresh: action.refresh(),
            rtc_write: match action {
                Action::AdvanceTime(position) => Some(rtc_now.advanced(position)),
                _ => None,
            },
        }
    }

    /// The state after all of `arrivals` were handled, in order.
    pub open spec fn after_all(self, arrivals: Seq<Arrival>) -> Clock
        decreases arrivals.len(),
    {
        if arrivals.len() == 0 {
            self
        } else {
            self.after_all(arrivals.drop_last()).after(
                arrivals.last().event,
                arrivals.last().rtc_now,
            )
        }
    }

    /// Creates the state at power-up: midnight, the default brightness,
    /// showing the time.
    pub fn new() -> (clock: Clock)
        ensures
            clock == Clock::initial(),
            clock.is_valid(),
    {
        Clock { time: default_datetime(), brightness: DEFAULT_BRIGHTNESS_LEVEL, state: State::Idle }
    }

    /// Handles one event. `rtc_now` is the reading of the persistent clock;
    /// it is looked at only where the event edits the time.
    pub fn dispatch(&mut self, event: Event, rtc_now: DateTime) -> (outcome: Outcome)
        ensures
            *final(self) == old(self).after(event, rtc_now),
            outcome == old(self).outcome(event, rtc_now),
            old(self).state.is_valid() ==> final(self).state.is_valid(),
            old(self).brightness < MAX_BRIGHTNESS_LEVEL ==> final(self).brightness
                < MAX_BRIGHTNESS_LEVEL,
            old(self).time.is_valid() && rtc_now.is_valid() ==> final(self).time.is_valid(),
    {
        match on_event(event, self.state) {
            Action::Ignore => Outcome { refresh: None, rtc_write: None },
            Action::ToState(state) => {
                self.state = state;
                Outcome { refresh: None, rtc_write: None }
            },
            Action::FinishEdit => {
                self.state = State::Idle;
                Outcome { refresh: Some(ScreenRefresh::Normal), rtc_write: None }
            },
            Action::AdvanceTime(position) => {
                let edited = advance_time(position, rtc_now);
                self.time = edited;
                Outcome { refresh: Some(ScreenRefresh::TimeChanged), rtc_write: Some(edited) }
            },
            Action::AdjustBrightness => {
                self.brightness = adjust_brightness(self.brightness);
                Outcome { refresh: Some(ScreenRefresh::Normal), rtc_write: None }
            },
        }
    }

    /// Advances the time by one second. Raises no refresh: the display
    /// catches up at its next render pass.
    pub fn tick(&mut self)
        requires
            old(self).time.can_tick(),
        ensures
            final(self).time == old(self).time.ticked(),
            final(self).brightness == old(self).brightness,
            final(self).state == old(self).state,
            old(self).is_valid() ==> final(self).is_valid(),
    {
        self.time.tick();
    }

    /// Takes the time over from the persistent clock, which is right where
    /// the two differ.
    pub fn resync(&mut self, rtc_now: DateTime)
        ensures
            final(self).time == rtc_now,
            final(self).brightness == old(self).brightness,
            final(self).state == old(self).state,
    {
        self.time = rtc_now;
    }
}

/// Whether every reading of the persistent clock is a time on the dial.
pub open spec fn all_readings_valid(arrivals: Seq<Arrival>) -> bool {
    forall|i: int| 0 <= i < arrivals.len() ==> (#[trigger] arrivals[i]).rtc_now.is_valid()
}

/// Whether every arrival is a short press of the set button.
pub open spec fn all_set_short(arrivals: Seq<Arrival>) -> bool {
    forall|i: int|
        0 <= i < arrivals.len() ==> (#[trigger] arrivals[i]).event == Event::SetButton(
            ButtonPress::Short,
        )
}

/// Whether every arrival is a short press of the adjust button.
pub open spec fn all_adjust_short(arrivals: Seq<Arrival>) -> bool {
    forall|i: int|
        0 <= i < arrivals.len() ==> (#[trigger] arrivals[i]).event == Event::AdjustButton(
            ButtonPress::Short,
        )
}

/// The dispatcher keeps every field in its range, whatever the buttons
/// send, as long as the persistent clock reads times on the dial: the
/// brightness level stays below the number of levels, the cursor stays on
/// a field, the time stays on the dial.
pub proof fn lemma_dispatch_keeps_valid(clock: Clock, arrivals: Seq<Arrival>)
    requires
        clock.is_valid(),
        all_readings_valid(arrivals),
    ensures
        clock.after_all(arrivals).is_valid(),
    decreases arrivals.len(),
{
    if arrivals.len() > 0 {
        lemma_dispatch_keeps_valid(clock, arrivals.drop_last());
    }
}

/// Short presses of the set button while the clock shows the time do
/// nothing, however many there are: the state stays as it was and nothing
/// is asked of the outside.
pub proof fn lemma_set_short_while_idle_is_ignored(clock: Clock, arrivals: Seq<Arrival>)
    requires
        clock.state == State::Idle,
        all_set_short(arrivals),
    ensures
        clock.after_all(arrivals) == clock,
        forall|i: int|
            0 <= i < arrivals.len() ==> clock.after_all(arrivals.take(i)).outcome(
                (#[trigger] arrivals[i]).event,
                arrivals[i].rtc_now,
            ) == (Outcome { refresh: None, rtc_write: None }),
    decreases arrivals.len(),
{
    if arrivals.len() > 0 {
        let init = arrivals.drop_last();
        lemma_set_short_while_idle_is_ignored(clock, init);
        assert forall|i: int| 0 <= i < arrivals.len() implies clock.after_all(
            arrivals.take(i),
        ).outcome((#[trigger] arrivals[i]).event, arrivals[i].rtc_now) == (Outcome {
            refresh: None,
            rtc_write: None,
        }) by {
            if i < init.len() {
                assert(arrivals.take(i) =~= init.take(i));
                assert(init[i] == arrivals[i]);
            } else {
                assert(arrivals.take(i) =~= init);
            }
        }
    }
}

/// From showing the time, the long press of the set button is the one event
/// that leads into time setting, and it puts the cursor on the minutes.
pub proof fn lemma_only_set_long_enters_setting(clock: Clock, event: Event, rtc_now: DateTime)
    requires
        clock.state == State::Idle,
    ensures
        event == Event::SetButton(ButtonPress::Long) ==> clock.after(event, rtc_now).state
            == State::SettingTime(0),
        event != Event::SetButton(ButtonPress::Long) ==> clock.after(event, rtc_now).state
            == State::Idle,
{
}

/// Three short presses of the set button, begun with the cursor on a field,
/// end in showing the time, and the cursor is on a field at every step on
/// the way: position 2 is never stored.
pub proof fn lemma_three_set_shorts_return_to_idle(clock: Clock, arrivals: Seq<Arrival>)
    requires
        clock.state == State::SettingTime(0) || clock.state == State::SettingTime(1),
        arrivals.len() == 3,
        all_set_short(arrivals),
    ensures
        clock.after_all(arrivals).state == State::Idle,
        forall|k: int|
            0 <= k <= 3 ==> (#[trigger] clock.after_all(arrivals.take(k))).state.is_valid(),
        clock.state == State::SettingTime(0) ==> clock.after_all(arrivals.take(1)).state
            == State::SettingTime(1) && clock.after_all(arrivals.take(2)).state == State::Idle,
        clock.state == State::SettingTime(1) ==> clock.after_all(arrivals.take(1)).state
            == State::Idle,
{
    let s0 = arrivals.take(0);
    let s1 = arrivals.take(1);
    let s2 = arrivals.take(2);
    let s3 = arrivals.take(3);
    assert(s1.drop_last() =~= s0);
    assert(s2.drop_last() =~= s1);
    assert(s3.drop_last() =~= s2);
    assert(s3 =~= arrivals);
    assert(s1.last() == arrivals[0]);
    assert(s2.last() == arrivals[1]);
    assert(s3.last() == arrivals[2]);
    assert(clock.after_all(s0) == clock);
    assert(clock.after_all(s1) == clock.after_all(s0).after(arrivals[0].event, arrivals[0].rtc_now));
    assert(clock.after_all(s2) == clock.after_all(s1).after(arrivals[1].event, arrivals[1].rtc_now));
    assert(clock.after_all(s3) == clock.after_all(s2).after(arrivals[2].event, arrivals[2].rtc_now));
    assert forall|k: int| 0 <= k <= 3 implies (#[trigger] clock.after_all(
        arrivals.take(k),
    )).state.is_valid() by {
        if k == 0 {
            assert(arrivals.take(k) == s0);
        } else if k == 1 {
            assert(arrivals.take(k) == s1);
        } else if k == 2 {
            assert(arrivals.take(k) == s2);
        } else {
            assert(arrivals.take(k) == s3);
        }
    }
}

/// A short press of the adjust button with the cursor on the minutes steps
/// the minutes of the persistent clock's reading by one, modulo 60, and
/// clears the seconds; with the cursor on the hours it steps the hours by
/// one, modulo 24, and leaves minutes and seconds alone. Either way the
/// mode and the brightness stay, the new time is written back and a
/// `TimeChanged` refresh is raised.
pub proof fn lemma_adjust_short_steps_field(clock: Clock, rtc_now: DateTime)
    requires
        clock.state == State::SettingTime(0) || clock.state == State::SettingTime(1),
    ensures
        ({
            let event = Event::AdjustButton(ButtonPress::Short);
            let next = clock.after(event, rtc_now);
            let outcome = clock.outcome(event, rtc_now);
            &&& clock.state == State::SettingTime(0) ==> {
                &&& next.time.minutes == (rtc_now.minutes + 1) % 60
                &&& next.time.seconds == 0
                &&& next.time.hours == rtc_now.hours
            }
            &&& clock.state == State::SettingTime(1) ==> {
                &&& next.time.hours == (rtc_now.hours + 1) % 24
                &&& next.time.minutes == rtc_now.minutes
                &&& next.time.seconds == rtc_now.seconds
            }
            &&& next.time.day == rtc_now.day
            &&& next.state == clock.state
            &&& next.brightness == clock.brightness
            &&& outcome.rtc_write == Some(next.time)
            &&& outcome.refresh == Some(ScreenRefresh::TimeChanged)
            &&& rtc_now.is_valid() ==> next.time.is_valid()
        }),
{
}

/// Short presses of the adjust button while the clock shows the time walk
/// the brightness level round its cycle, one level per press, and change
/// nothing else.
pub proof fn lemma_brightness_cycles(clock: Clock, arrivals: Seq<Arrival>)
    requires
        clock.state == State::Idle,
        clock.brightness < MAX_BRIGHTNESS_LEVEL,
        all_adjust_short(arrivals),
    ensures
        clock.after_all(arrivals).brightness == (clock.brightness + arrivals.len()) % (
        MAX_BRIGHTNESS_LEVEL as int),
        clock.after_all(arrivals).brightness < MAX_BRIGHTNESS_LEVEL,
        clock.after_all(arrivals).state == State::Idle,
        clock.after_all(arrivals).time == clock.time,
    decreases arrivals.len(),
{
    if arrivals.len() > 0 {
        lemma_brightness_cycles(clock, arrivals.drop_last());
    }
}

/// One short press of the adjust button while the clock shows the time
/// takes each brightness level to the next and the last back to the first,
/// and raises a `Normal` refresh.
pub proof fn lemma_brightness_step(clock: Clock, rtc_now: DateTime)
    requires
        clock.state == State::Idle,
        clock.brightness < MAX_BRIGHTNESS_LEVEL,
    ensures
        ({
            let event = Event::AdjustButton(ButtonPress::Short);
            let next = clock.after(event, rtc_now);
            &&& next.brightness == if clock.brightness == 5 {
                0
            } else {
                clock.brightness + 1
            }
            &&& clock.outcome(event, rtc_now) == (Outcome {
                refresh: Some(ScreenRefresh::Normal),
                rtc_write: None,
            })
        }),
{
}

} // verus!

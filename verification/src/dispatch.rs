//! The user-interface state machine: which mode the clock is in and what a
//! button event does in that mode.

use vstd::prelude::*;
use crate::event::{ButtonPress, Event};
use crate::refresh::ScreenRefresh;

verus! {

/// Number of brightness levels.
pub const MAX_BRIGHTNESS_LEVEL: usize = 6;

/// The brightness level after power-up.
pub const DEFAULT_BRIGHTNESS_LEVEL: usize = 3;

/// Number of steps the edit cursor cycles through: minutes, hours, done.
pub const EDIT_STEPS: u8 = 3;

/// The mode of the user interface.
#[derive(Clone, Copy, Debug, PartialEq, Eq, Structural)]
pub enum State {
    /// Showing the time.
    Idle,
    /// Editing the field at the given position: 0 is minutes, 1 is hours.
    SettingTime(u8),
}

impl State {
    /// The cursor, if there is one, is on the minutes or on the hours.
    pub open spec fn is_valid(self) -> bool {
        match self {
            State::Idle => true,
            State::SettingTime(position) => position < 2,
        }
    }

    /// Tells whether the cursor, if there is one, is on a field.
    pub fn check_valid(&self) -> (ok: bool)
        ensures
            ok == self.is_valid(),
    {
        match self {
            State::Idle => true,
            State::SettingTime(position) => *position < 2,
        }
    }
}

/// What the dispatcher has to carry out for one event.
#[derive(Clone, Copy, Debug, PartialEq, Eq, Structural)]
pub enum Action {
    /// Nothing happens.
    Ignore,
    /// Store the given mode.
    ToState(State),
    /// The last field was left: raise a `Normal` refresh, then store `Idle`.
    FinishEdit,
    /// Read the persistent clock, step the field at this position with
    /// [`crate::time::advance_time`], write the result back to the
    /// persistent clock, store it as the current time and raise a
    /// `TimeChanged` refresh.
    AdvanceTime(u8),
    /// Step the brightness level with [`adjust_brightness`] and raise a
    /// `Normal` refresh.
    AdjustBrightness,
}

impl Action {
    /// The mode after the action was carried out in mode `current`.
    pub open spec fn next_state(self, current: State) -> State {
        match self {
            Action::ToState(state) => state,
            Action::FinishEdit => State::Idle,
            _ => current,
        }
    }

    /// The refresh request that carrying out the action raises.
    pub open spec fn refresh(self) -> Option<ScreenRefresh> {
        match self {
            Action::FinishEdit => Some(ScreenRefresh::Normal),
            Action::AdvanceTime(_) => Some(ScreenRefresh::TimeChanged),
            Action::AdjustBrightness => Some(ScreenRefresh::Normal),
            _ => None,
        }
    }
}

/// The cursor position that follows `position`, counted through all
/// [`EDIT_STEPS`] steps; step 2 stands for "done".
pub open spec fn next_position(position: u8) -> int {
    (position + 1) % (EDIT_STEPS as int)
}

/// The transition table of the user interface.
///
/// | mode            | event        | action                         |
/// |-----------------|--------------|--------------------------------|
/// | `Idle`          | Set, long    | enter `SettingTime(0)`         |
/// | `SettingTime`   | Set, long    | back to `Idle`                 |
/// | `SettingTime(d)`| Set, short   | next field, or finish the edit |
/// | `SettingTime(d)`| Adjust, short| step the field at `d`          |
/// | `Idle`          | Adjust, short| step the brightness            |
/// | anything else   |              | ignore                         |
pub open spec fn spec_on_event(event: Event, state: State) -> Action {
    match (event, state) {
        (Event::SetButton(ButtonPress::Long), State::Idle) => Action::ToState(
            State::SettingTime(0),
        ),
        (Event::SetButton(ButtonPress::Long), State::SettingTime(_)) => Action::ToState(
            State::Idle,
        ),
        (Event::SetButton(ButtonPress::Short), State::SettingTime(position)) => {
            if next_position(position) == 2 {
                Action::FinishEdit
            } else {
                Action::ToState(State::SettingTime(next_position(position) as u8))
            }
        },
        (Event::AdjustButton(ButtonPress::Short), State::SettingTime(position)) => {
            Action::AdvanceTime(position)
        },
        (Event::AdjustButton(ButtonPress::Short), State::Idle) => Action::AdjustBrightness,
        _ => Action::Ignore,
    }
}

/// Decides what `event` does in mode `state`.
pub fn on_event(event: Event, state: State) -> (action: Action)
    ensures
        action == spec_on_event(event, state),
        action matches Action::ToState(stored) ==> stored.is_valid(),
        state.is_valid() ==> action.next_state(state).is_valid(),
{
    match (event, state) {
        (Event::SetButton(ButtonPress::Long), State::Idle) => Action::ToState(
            State::SettingTime(0),
        ),
        (Event::SetButton(ButtonPress::Long), State::SettingTime(_)) => Action::ToState(
            State::Idle,
        ),
        (Event::SetButton(ButtonPress::Short), State::SettingTime(position)) => {
            let next: u8 = (position % EDIT_STEPS + 1) % EDIT_STEPS;
            if next == 2 {
                Action::FinishEdit
            } else {
                Action::ToState(State::SettingTime(next))
            }
        },
        (Event::AdjustButton(ButtonPress::Short), State::SettingTime(position)) => {
            Action::AdvanceTime(position)
        },
        (Event::AdjustButton(ButtonPress::Short), State::Idle) => Action::AdjustBrightness,
        _ => Action::Ignore,
    }
}

/// The brightness level that follows `level`, cyclically.
pub open spec fn next_brightness(level: usize) -> usize {
    ((level + 1) % (MAX_BRIGHTNESS_LEVEL as int)) as usize
}

/// Steps the brightness level by one, wrapping from the last level to the
/// first.
pub fn adjust_brightness(level: usize) -> (next: usize)
    ensures
        next == next_brightness(level),
        next < MAX_BRIGHTNESS_LEVEL,
{
    (level % MAX_BRIGHTNESS_LEVEL + 1) % MAX_BRIGHTNESS_LEVEL
}

/// The pixel intensity of each brightness level, dimmest first.
pub open spec fn brightness_map() -> Seq<u8> {
    seq![0x05u8, 0x10u8, 0x20u8, 0x40u8, 0x60u8, 0x90u8]
}

/// Looks up the pixel intensity of a brightness level.
pub fn brightness(level: usize) -> (intensity: u8)
    requires
        level < MAX_BRIGHTNESS_LEVEL,
    ensures
        intensity == brightness_map()[level as int],
        intensity > 0,
{
    let map: [u8; 6] = [0x05, 0x10, 0x20, 0x40, 0x60, 0x90];
    map[level]
}

} // verus!

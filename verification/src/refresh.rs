//! Refresh requests, the blink driver, and what the display task draws and
//! remembers between two waits.

use vstd::prelude::*;
use crate::dispatch::{State, MAX_BRIGHTNESS_LEVEL, brightness, brightness_map};
use crate::time::DateTime;

verus! {

/// Period of the blink driver, in milliseconds.
pub const BLINK_PERIOD_MS: u64 = 500;

/// The display is redrawn at least this often, in milliseconds.
pub const REFRESH_TIMEOUT_MS: u64 = 20_000;

/// Pixel intensity of the field under the cursor while it is flashed.
pub const HIGHLIGHT: u8 = 0x02;

/// Which field flashes, and in which half of the blink cycle.
#[derive(Clone, Copy, Debug, PartialEq, Eq, Structural)]
pub struct BlinkData {
    /// 0 for the minutes, 1 for the hours.
    pub position: usize,
    /// Parity of the blink cycle: 0 or 1.
    pub frame: u8,
}

/// A request to redraw the display. Only the latest pending request
/// counts: a new one replaces one that was not yet taken.
#[derive(Clone, Copy, Debug, PartialEq, Eq, Structural)]
pub enum ScreenRefresh {
    /// The user just edited the time.
    TimeChanged,
    /// Redraw with the given blink frame.
    Blink(BlinkData),
    /// Redraw without any blinking.
    Normal,
}

/// Why the display task woke up.
#[derive(Clone, Copy, Debug, PartialEq, Eq, Structural)]
pub enum Wake {
    /// Nothing was requested for [`REFRESH_TIMEOUT_MS`].
    Timeout,
    /// The latest refresh request.
    Refresh(ScreenRefresh),
}

/// One digit to draw.
#[derive(Clone, Copy, Debug, PartialEq, Eq, Structural)]
pub struct Cell {
    /// The decimal digit.
    pub digit: usize,
    /// Its pixel intensity.
    pub color: u8,
}

/// The request the blink driver raises in mode `state` with frame `frame`.
pub open spec fn blink_request(state: State, frame: u8) -> Option<ScreenRefresh> {
    match state {
        State::SettingTime(position) => Some(
            ScreenRefresh::Blink(BlinkData { position: position as usize, frame }),
        ),
        State::Idle => None,
    }
}

/// The frame the blink driver continues with after a period in mode `state`.
pub open spec fn next_frame(state: State, frame: u8) -> u8 {
    match state {
        State::SettingTime(_) => ((frame + 1) % 2) as u8,
        State::Idle => 0,
    }
}

/// One period of the blink driver: while the time is being set it asks for
/// the current frame to be drawn and flips the frame; otherwise it asks for
/// nothing and rewinds to frame 0.
pub fn blink_step(state: State, frame: u8) -> (step: (Option<ScreenRefresh>, u8))
    ensures
        step.0 == blink_request(state, frame),
        step.1 == next_frame(state, frame),
        step.1 < 2,
{
    match state {
        State::SettingTime(position) => {
            let request = ScreenRefresh::Blink(BlinkData { position: position as usize, frame });
            (Some(request), (frame % 2 + 1) % 2)
        },
        State::Idle => (None, 0),
    }
}

/// Whether the remembered blink frame flashes the digit at `index`:
/// the minutes (digits 2 and 3) on frame 0 of position 0,
/// the hours (digits 0 and 1) on frame 1 of position 1.
pub open spec fn is_highlighted(blink: Option<BlinkData>, index: int) -> bool {
    match blink {
        Some(b) => {
            ||| b.position == 0 && b.frame == 0 && 2 <= index <= 3
            ||| b.position == 1 && b.frame == 1 && 0 <= index <= 1
        },
        None => false,
    }
}

/// The digit at `index` as the display task draws it.
pub open spec fn spec_cell(
    time: DateTime,
    brightness_level: usize,
    blink: Option<BlinkData>,
    index: int,
) -> Cell {
    Cell {
        digit: time.digits()[index],
        color: if is_highlighted(blink, index) {
            HIGHLIGHT
        } else {
            brightness_map()[brightness_level as int]
        },
    }
}

/// Computes the four digits of one render pass, left to right.
pub fn render(time: DateTime, brightness_level: usize, blink: Option<BlinkData>) -> (cells: [Cell; 4])
    requires
        brightness_level < MAX_BRIGHTNESS_LEVEL,
    ensures
        forall|i: int| 0 <= i < 4 ==> cells@[i] == spec_cell(time, brightness_level, blink, i),
        time.is_valid() ==> forall|i: int| 0 <= i < 4 ==> (#[trigger] cells@[i]).digit < 10,
{
    let normal: u8 = brightness(brightness_level);
    let digits: [usize; 4] = time.to_digits();
    let mut lit: (bool, bool) = (false, false);
    if let Some(b) = blink {
        lit = (b.position == 1 && b.frame == 1, b.position == 0 && b.frame == 0);
    }
    let left: u8 = if lit.0 { HIGHLIGHT } else { normal };
    let right: u8 = if lit.1 { HIGHLIGHT } else { normal };
    let cells: [Cell; 4] = [
        Cell { digit: digits[0], color: left },
        Cell { digit: digits[1], color: left },
        Cell { digit: digits[2], color: right },
        Cell { digit: digits[3], color: right },
    ];
    cells
}

/// The blink frame the display task remembers after waking up for `wake`.
pub open spec fn spec_after_wait(blink: Option<BlinkData>, wake: Wake) -> Option<BlinkData> {
    match wake {
        Wake::Refresh(ScreenRefresh::Blink(data)) => Some(data),
        Wake::Refresh(ScreenRefresh::TimeChanged) => blink,
        Wake::Refresh(ScreenRefresh::Normal) => None,
        Wake::Timeout => None,
    }
}

/// Updates the remembered blink frame for the next render pass: a blink
/// request replaces it, an edit leaves it alone, a plain request or the
/// timeout forgets it.
pub fn after_wait(blink: Option<BlinkData>, wake: Wake) -> (next: Option<BlinkData>)
    ensures
        next == spec_after_wait(blink, wake),
{
    match wake {
        Wake::Refresh(ScreenRefresh::Blink(data)) => Some(data),
        Wake::Refresh(ScreenRefresh::TimeChanged) => blink,
        Wake::Refresh(ScreenRefresh::Normal) => None,
        Wake::Timeout => None,
    }
}

/// A plain refresh request is idempotent: taking a second one right after
/// the first leaves the display task with the same memory, so the render
/// pass that follows draws the same cells as after one.
pub proof fn lemma_plain_refresh_is_idempotent(
    blink: Option<BlinkData>,
    time: DateTime,
    brightness_level: usize,
)
    ensures
        ({
            let plain = Wake::Refresh(ScreenRefresh::Normal);
            let once = spec_after_wait(blink, plain);
            let twice = spec_after_wait(once, plain);
            &&& once == None::<BlinkData>
            &&& twice == once
            &&& forall|i: int|
                0 <= i < 4 ==> spec_cell(time, brightness_level, twice, i) == spec_cell(
                    time,
                    brightness_level,
                    once,
                    i,
                )
        }),
{
}

} // verus!

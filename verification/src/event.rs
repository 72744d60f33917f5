//! What the two buttons tell the dispatcher.

use vstd::prelude::*;

verus! {

/// How many events the queue between the buttons and the dispatcher must be
/// able to hold before a sender has to wait.
pub const EVENT_QUEUE_CAPACITY: usize = 10;

/// How long a button was held.
#[derive(Clone, Copy, Debug, PartialEq, Eq, Structural)]
pub enum ButtonPress {
    Short,
    Long,
}

/// One classified press, tagged with the button it came from.
#[derive(Clone, Copy, Debug, PartialEq, Eq, Structural)]
pub enum Event {
    /// The button that enters, advances and leaves time setting.
    SetButton(ButtonPress),
    /// The button that changes the value under the cursor, or the brightness.
    AdjustButton(ButtonPress),
}

} // verus!

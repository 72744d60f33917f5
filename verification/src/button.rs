//! Debouncing and classifying the presses of one button.
//!
//! The input is active-low: low means pressed. The caller waits for what
//! [`wait_for`] names in the current phase, tells [`step`] which of the
//! waits completed first, and sends the press that `step` hands out, if any.

use vstd::prelude::*;
use crate::event::{ButtonPress, Event};

verus! {

/// A press shorter than this, in milliseconds, is contact bounce.
pub const DEBOUNCE_MS: u64 = 50;

/// A press held for this long, in milliseconds, is a long press.
pub const LONG_PRESS_MS: u64 = 3_000;

/// The two buttons of the clock.
#[derive(Clone, Copy, Debug, PartialEq, Eq, Structural)]
pub enum Button {
    /// The mode button.
    SetButton,
    /// The value button.
    AdjustButton,
}

/// Level of the input line.
#[derive(Clone, Copy, Debug, PartialEq, Eq, Structural)]
pub enum Level {
    Low,
    High,
}

/// Which wait completed.
#[derive(Clone, Copy, Debug, PartialEq, Eq, Structural)]
pub enum Input {
    /// The line went low.
    Low,
    /// The line went high.
    High,
    /// The timeout of the current phase ran out first.
    Elapsed,
}

/// Where one button is in its press cycle.
#[derive(Clone, Copy, Debug, PartialEq, Eq, Structural)]
pub enum Phase {
    /// Not pressed.
    Released,
    /// Went low; not yet known whether it stays low.
    Settling,
    /// A press was detected and is still held.
    Held,
    /// The long press was reported; waiting for the release.
    LongHeld,
}

/// What the caller waits for: the line reaching `level`, raced against a
/// timeout where one is given.
#[derive(Clone, Copy, Debug, PartialEq, Eq, Structural)]
pub struct Wait {
    pub level: Level,
    pub timeout_ms: Option<u64>,
}

/// The wait of each phase.
pub open spec fn spec_wait_for(phase: Phase) -> Wait {
    match phase {
        Phase::Released => Wait { level: Level::Low, timeout_ms: None },
        Phase::Settling => Wait { level: Level::High, timeout_ms: Some(DEBOUNCE_MS) },
        Phase::Held => Wait { level: Level::High, timeout_ms: Some(LONG_PRESS_MS) },
        Phase::LongHeld => Wait { level: Level::High, timeout_ms: None },
    }
}

/// The phase that follows `phase` on `input`. An input that the wait of the
/// phase cannot produce changes nothing.
pub open spec fn next_phase(phase: Phase, input: Input) -> Phase {
    match (phase, input) {
        (Phase::Released, Input::Low) => Phase::Settling,
        (Phase::Settling, Input::High) => Phase::Released,
        (Phase::Settling, Input::Elapsed) => Phase::Held,
        (Phase::Held, Input::High) => Phase::Released,
        (Phase::Held, Input::Elapsed) => Phase::LongHeld,
        (Phase::LongHeld, Input::High) => Phase::Released,
        _ => phase,
    }
}

/// The press that `input` completes in `phase`: a release before the
/// long-press timeout is a short press, the timeout itself is a long one.
pub open spec fn emitted(phase: Phase, input: Input) -> Option<ButtonPress> {
    match (phase, input) {
        (Phase::Held, Input::High) => Some(ButtonPress::Short),
        (Phase::Held, Input::Elapsed) => Some(ButtonPress::Long),
        _ => None,
    }
}

/// Whether `input` in `phase` is the moment a press is detected: the line
/// stayed low through the whole settle window.
pub open spec fn detects(phase: Phase, input: Input) -> bool {
    phase == Phase::Settling && input == Input::Elapsed
}

/// Names what to wait for in `phase`.
pub fn wait_for(phase: Phase) -> (wait: Wait)
    ensures
        wait == spec_wait_for(phase),
{
    match phase {
        Phase::Released => Wait { level: Level::Low, timeout_ms: None },
        Phase::Settling => Wait { level: Level::High, timeout_ms: Some(DEBOUNCE_MS) },
        Phase::Held => Wait { level: Level::High, timeout_ms: Some(LONG_PRESS_MS) },
        Phase::LongHeld => Wait { level: Level::High, timeout_ms: None },
    }
}

/// Takes one completed wait and returns the next phase and the press to
/// send, if one was completed.
pub fn step(phase: Phase, input: Input) -> (out: (Phase, Option<ButtonPress>))
    ensures
        out.0 == next_phase(phase, input),
        out.1 == emitted(phase, input),
{
    match (phase, input) {
        (Phase::Released, Input::Low) => (Phase::Settling, None),
        (Phase::Settling, Input::High) => (Phase::Released, None),
        (Phase::Settling, Input::Elapsed) => (Phase::Held, None),
        (Phase::Held, Input::High) => (Phase::Released, Some(ButtonPress::Short)),
        (Phase::Held, Input::Elapsed) => (Phase::LongHeld, Some(ButtonPress::Long)),
        (Phase::LongHeld, Input::High) => (Phase::Released, None),
        _ => (phase, None),
    }
}

impl Button {
    /// The event that a press of this button is.
    pub open spec fn spec_event(self, press: ButtonPress) -> Event {
        match self {
            Button::SetButton => Event::SetButton(press),
            Button::AdjustButton => Event::AdjustButton(press),
        }
    }

    /// Tags a press with this button.
    pub fn event(self, press: ButtonPress) -> (event: Event)
        ensures
            event == self.spec_event(press),
    {
        match self {
            Button::SetButton => Event::SetButton(press),
            Button::AdjustButton => Event::AdjustButton(press),
        }
    }
}

/// What a series of inputs amounts to.
pub struct Trace {
    /// The phase after the last input.
    pub phase: Phase,
    /// The presses handed out, in order.
    pub presses: Seq<ButtonPress>,
    /// How many times a press was detected.
    pub detections: nat,
}

/// Feeds `inputs` to [`step`] one after the other, starting in `phase`.
pub open spec fn run(phase: Phase, inputs: Seq<Input>) -> Trace
    decreases inputs.len(),
{
    if inputs.len() == 0 {
        Trace { phase, presses: Seq::empty(), detections: 0 }
    } else {
        let before = run(phase, inputs.drop_last());
        let input = inputs.last();
        Trace {
            phase: next_phase(before.phase, input),
            presses: match emitted(before.phase, input) {
                Some(press) => before.presses.push(press),
                None => before.presses,
            },
            detections: if detects(before.phase, input) {
                before.detections + 1
            } else {
                before.detections
            },
        }
    }
}

/// The line going low and coming back within the settle window, `n` times.
pub open spec fn bounces(n: nat) -> Seq<Input>
    decreases n,
{
    if n == 0 {
        Seq::empty()
    } else {
        bounces((n - 1) as nat).push(Input::Low).push(Input::High)
    }
}

/// Running one more input is one more step.
pub proof fn lemma_run_push(phase: Phase, inputs: Seq<Input>, input: Input)
    ensures
        run(phase, inputs.push(input)).phase == next_phase(run(phase, inputs).phase, input),
        run(phase, inputs.push(input)).presses == match emitted(run(phase, inputs).phase, input) {
            Some(press) => run(phase, inputs).presses.push(press),
            None => run(phase, inputs).presses,
        },
        run(phase, inputs.push(input)).detections == run(phase, inputs).detections + (if detects(
            run(phase, inputs).phase,
            input,
        ) {
            1nat
        } else {
            0nat
        }),
{
    assert(inputs.push(input).drop_last() =~= inputs);
}

/// Bouncing contacts leave no trace: after any number of bounces the button
/// is released again, nothing was detected and nothing was sent.
pub proof fn lemma_bounces_leave_no_trace(n: nat)
    ensures
        run(Phase::Released, bounces(n)) == (Trace {
            phase: Phase::Released,
            presses: Seq::empty(),
            detections: 0,
        }),
    decreases n,
{
    if n > 0 {
        let before = bounces((n - 1) as nat);
        lemma_bounces_leave_no_trace((n - 1) as nat);
        lemma_run_push(Phase::Released, before, Input::Low);
        lemma_run_push(Phase::Released, before.push(Input::Low), Input::High);
    }
}

/// Debounce: a line that bounces any number of times and then stays low for
/// the settle window gives exactly one detected press, and no event yet.
pub proof fn lemma_debounce_detects_once(n: nat)
    ensures
        run(Phase::Released, bounces(n).push(Input::Low).push(Input::Elapsed)) == (Trace {
            phase: Phase::Held,
            presses: Seq::empty(),
            detections: 1,
        }),
{
    lemma_bounces_leave_no_trace(n);
    lemma_run_push(Phase::Released, bounces(n), Input::Low);
    lemma_run_push(Phase::Released, bounces(n).push(Input::Low), Input::Elapsed);
}

/// While the long press is waiting for its release, nothing but the release
/// changes anything.
pub proof fn lemma_long_hold_is_silent(hold: Seq<Input>)
    requires
        forall|i: int| 0 <= i < hold.len() ==> hold[i] != Input::High,
    ensures
        run(Phase::LongHeld, hold) == (Trace {
            phase: Phase::LongHeld,
            presses: Seq::empty(),
            detections: 0,
        }),
    decreases hold.len(),
{
    if hold.len() > 0 {
        lemma_long_hold_is_silent(hold.drop_last());
    }
}

/// The trace of two series run back to back.
pub proof fn lemma_run_concat(phase: Phase, first: Seq<Input>, second: Seq<Input>)
    ensures
        run(phase, first + second).phase == run(run(phase, first).phase, second).phase,
        run(phase, first + second).presses == run(phase, first).presses + run(
            run(phase, first).phase,
            second,
        ).presses,
        run(phase, first + second).detections == run(phase, first).detections + run(
            run(phase, first).phase,
            second,
        ).detections,
    decreases second.len(),
{
    if second.len() == 0 {
        assert(first + second =~= first);
        assert(run(phase, first).presses + Seq::<ButtonPress>::empty() =~= run(
            phase,
            first,
        ).presses);
    } else {
        lemma_run_concat(phase, first, second.drop_last());
        assert((first + second).drop_last() =~= first + second.drop_last());
        let mid = run(phase, first);
        let init = run(mid.phase, second.drop_last());
        match emitted(init.phase, second.last()) {
            Some(press) => {
                assert((mid.presses + init.presses).push(press) =~= mid.presses
                    + init.presses.push(press));
            },
            None => {},
        }
    }
}

/// Long press: a detected press held past the long-press timeout gives
/// exactly one `Long` and no `Short`, however long it is held after that,
/// and the release ends the cycle.
pub proof fn lemma_long_press_reports_once(hold: Seq<Input>)
    requires
        forall|i: int| 0 <= i < hold.len() ==> hold[i] != Input::High,
    ensures
        run(Phase::Held, seq![Input::Elapsed] + hold + seq![Input::High]) == (Trace {
            phase: Phase::Released,
            presses: seq![ButtonPress::Long],
            detections: 0,
        }),
{
    let start = seq![Input::Elapsed];
    assert(start =~= Seq::<Input>::empty().push(Input::Elapsed));
    lemma_run_push(Phase::Held, Seq::empty(), Input::Elapsed);
    lemma_long_hold_is_silent(hold);
    lemma_run_concat(Phase::Held, start, hold);
    assert(start + hold + seq![Input::High] =~= (start + hold).push(Input::High));
    lemma_run_push(Phase::Held, start + hold, Input::High);
    assert(run(Phase::Held, start + hold).presses =~= seq![ButtonPress::Long]);
}

/// Short press: a detected press released before the long-press timeout
/// gives exactly one `Short`.
pub proof fn lemma_short_press_reports_once()
    ensures
        run(Phase::Held, seq![Input::High]) == (Trace {
            phase: Phase::Released,
            presses: seq![ButtonPress::Short],
            detections: 0,
        }),
{
    assert(seq![Input::High] =~= Seq::<Input>::empty().push(Input::High));
    lemma_run_push(Phase::Held, Seq::empty(), Input::High);
    assert(run(Phase::Held, seq![Input::High]).presses =~= seq![ButtonPress::Short]);
}

} // verus!

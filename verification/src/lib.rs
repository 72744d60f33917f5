//! Runtime core of a four-digit LED desk clock, written without any I/O.
//!
//! Every module is a small state machine or a pure computation: the caller
//! owns the timers, the queues, the locks and the buses, performs what the
//! library asks for, and hands the outcome back.

pub mod bits;
pub mod button;
pub mod clock;
pub mod dispatch;
pub mod display;
pub mod driver;
pub mod event;
pub mod refresh;
pub mod time;

pub use crate::clock::Clock;
pub use crate::display::{ClockDisplay, Segment, Symbol};
pub use crate::driver::{Error, IS31FL3731};

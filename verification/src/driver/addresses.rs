//! Pages of the chip's register file and offsets inside a frame page.

use vstd::prelude::*;

verus! {

/// Page that holds the function registers.
pub const CONFIG_BANK: u8 = 0x0B;

/// Command register: the value written to it selects the page.
pub const BANK_ADDRESS: u8 = 0xFD;

/// First LED control (on/off) register of a frame page.
pub const ENABLE_OFFSET: u8 = 0x00;

/// First blink control register of a frame page.
pub const BLINK_OFFSET: u8 = 0x12;

/// First PWM (intensity) register of a frame page.
pub const COLOR_OFFSET: u8 = 0x24;

} // verus!

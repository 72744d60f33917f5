//! Function registers, all on the configuration page.

use vstd::prelude::*;

verus! {

pub const MODE: u8 = 0x00;

pub const FRAME: u8 = 0x01;

pub const AUTOPLAY1: u8 = 0x02;

pub const AUTOPLAY2: u8 = 0x03;

pub const BLINK: u8 = 0x05;

pub const AUDIOSYNC: u8 = 0x06;

pub const FRAME_STATE: u8 = 0x07;

pub const BREATH1: u8 = 0x08;

pub const BREATH2: u8 = 0x09;

pub const SHUTDOWN: u8 = 0x0A;

pub const AGC_CONTROL: u8 = 0x0B;

pub const ADC_RATE: u8 = 0x0C;

} // verus!

//! Values of the mode register.

use vstd::prelude::*;

verus! {

pub const PICTURE_MODE: u8 = 0x00;

pub const AUTOPLAY_MODE: u8 = 0x08;

pub const AUDIOPLAY_MODE: u8 = 0x18;

} // verus!

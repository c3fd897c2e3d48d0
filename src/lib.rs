//! Software PWM for a three-channel RGB LED, and the shared brightness state
//! that input tasks write and the driver reads.

pub mod driver;
pub mod shared;

use vstd::prelude::*;

verus! {

/// Number of brightness steps for each of red, green and blue.
pub const LEVELS: u32 = 16;

/// Increment of the refresh rate for each frame-rate step.
pub const FRAME_RATE_INCREMENT: u64 = 10;

/// Lowest refresh rate that the frame-rate step counter stands for.
pub const FRAME_RATE_MIN: u64 = 10;

/// Brightness levels of the LED, as `[red, green, blue]`.
pub type RgbLevels = [u32; 3];

/// A triple whose every level lies in `[0, LEVELS)`.
pub open spec fn valid_levels(l: RgbLevels) -> bool {
    &&& l@[0] < LEVELS
    &&& l@[1] < LEVELS
    &&& l@[2] < LEVELS
}

} // verus!

//! Durations of the waits between line operations, in microseconds.
//!
//! The controller gives no sign of being busy, so every wait is sized from
//! the data sheet and asked for unconditionally.

use vstd::prelude::*;

verus! {

/// Before the lines are configured.
pub const LINE_SETUP_MICROS: u64 = 1000;

/// After power has risen, before the first command. The data sheet asks for
/// 40 ms above 2.7 V.
pub const POWER_UP_MICROS: u64 = 50000;

/// After the first and the second reset nibble. The data sheet asks for
/// 4.1 ms.
pub const RESET_RETRY_MICROS: u64 = 4500;

/// After the third reset nibble.
pub const RESET_FINAL_MICROS: u64 = 150;

/// After each data line has been driven.
pub const DATA_SETUP_MICROS: u64 = 1;

/// Before the enable line rises, and while it is high. The data sheet asks
/// for 450 ns.
pub const ENABLE_PULSE_MICROS: u64 = 1;

/// After the enable line has fallen. The data sheet asks for 37 us.
pub const COMMAND_SETTLE_MICROS: u64 = 100;

/// After the display has been cleared.
pub const CLEAR_SETTLE_MICROS: u64 = 2000;

/// What the data sheet asks for after the display has been cleared.
pub const CLEAR_SETTLE_MIN_MICROS: u64 = 1520;

/// The number of whole milliseconds in `micros` microseconds, reduced to
/// 32 bits.
pub open spec fn millis_of(micros: u64) -> u32 {
    ((micros / 1000) % 0x1_0000_0000) as u32
}

/// Converts a duration in microseconds to whole milliseconds. The fraction is
/// dropped, so every wait shorter than a millisecond becomes zero, and the
/// quotient is reduced to its low 32 bits.
pub fn micros_to_millis(micros: u64) -> (millis: u32)
    ensures
        millis == millis_of(micros),
        micros < 1000 ==> millis == 0,
        micros / 1000 <= u32::MAX ==> millis == micros / 1000,
{
    let whole: u64 = micros / 1000;
    assert(whole as u32 == (whole % 0x1_0000_0000) as u32) by (bit_vector);
    #[verifier::truncate]
    (whole as u32)
}

} // verus!

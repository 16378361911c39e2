//! Colors without floating point.
//!
//! A channel is held as the bit pattern of an IEEE 754 single-precision
//! number. For the numbers from 0 to 1 the order of the bit patterns is the
//! order of the numbers, so the range test needs no floating point, and a
//! color passes through the engine bit for bit.

use vstd::prelude::*;

verus! {

/// A color as four channels, red, green, blue and alpha, each the bit
/// pattern of an IEEE 754 single-precision number.
pub type Rgba = [u32; 4];

/// The bit pattern of 0.
pub const CHANNEL_ZERO: u32 = 0;

/// The bit pattern of 0.5.
pub const CHANNEL_HALF: u32 = 0x3F00_0000;

/// The bit pattern of 1.
pub const CHANNEL_ONE: u32 = 0x3F80_0000;

/// The bit pattern of negative zero, which is equal to 0 as a number.
pub const CHANNEL_NEGATIVE_ZERO: u32 = 0x8000_0000;

/// The channel with this bit pattern is a number from 0 to 1, both
/// included: a pattern from that of 0 up to that of 1, or negative zero.
/// Infinities, NaNs and every number below 0 or above 1 are left out.
pub open spec fn is_unit_channel(bits: u32) -> bool {
    bits <= CHANNEL_ONE || bits == CHANNEL_NEGATIVE_ZERO
}

/// The sequence is a color: four channels, each from 0 to 1.
pub open spec fn is_color(channels: Seq<u32>) -> bool {
    channels.len() == 4 && forall|i: int| 0 <= i < 4 ==> is_unit_channel(#[trigger] channels[i])
}

/// Whether a channel is a number from 0 to 1.
pub fn channel_in_range(bits: u32) -> (in_range: bool)
    ensures
        in_range == is_unit_channel(bits),
{
    bits <= CHANNEL_ONE || bits == CHANNEL_NEGATIVE_ZERO
}

/// White, fully opaque.
pub const OPAQUE_WHITE: Rgba = [CHANNEL_ONE, CHANNEL_ONE, CHANNEL_ONE, CHANNEL_ONE];

/// Black, fully transparent.
pub const TRANSPARENT: Rgba = [CHANNEL_ZERO, CHANNEL_ZERO, CHANNEL_ZERO, CHANNEL_ZERO];

/// The color of the brush that a new engine starts with: a medium gray.
pub const DEFAULT_COLOR: Rgba = [CHANNEL_HALF, CHANNEL_HALF, CHANNEL_HALF, CHANNEL_ONE];

} // verus!

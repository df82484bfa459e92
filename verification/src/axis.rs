use vstd::prelude::*;

verus! {

// An input axis holds a single-precision value: 1.0 while a button is held,
// -1.0 in the frame it is released, 0.0 when idle, or any value set by the
// caller. The library stores the value as its IEEE-754 binary32 encoding
// (what `f32::to_bits` gives), and never does arithmetic on it.

/// Encoding of the axis value 1.0 (button held down).
pub const AXIS_DOWN: u32 = 0x3f80_0000;

/// Encoding of the axis value -1.0 (button released this frame).
pub const AXIS_UP: u32 = 0xbf80_0000;

/// Encoding of the axis value 0.0 (idle).
pub const AXIS_IDLE: u32 = 0;

/// The binary32 value encoded by `bits` compares `< 0.0`: its sign bit is set
/// and it is neither a zero nor a NaN (-inf included).
pub open spec fn encodes_negative(bits: u32) -> bool {
    0x8000_0001 <= bits <= 0xff80_0000
}

/// The binary32 value encoded by `bits` compares `> 0.0`: its sign bit is
/// clear and it is neither a zero nor a NaN (+inf included).
pub open spec fn encodes_positive(bits: u32) -> bool {
    0x0000_0001 <= bits <= 0x7f80_0000
}

/// Whether the encoded axis value is below zero.
pub fn is_negative(bits: u32) -> (r: bool)
    ensures
        r == encodes_negative(bits),
{
    0x8000_0001 <= bits && bits <= 0xff80_0000
}

/// Whether the encoded axis value is above zero.
pub fn is_positive(bits: u32) -> (r: bool)
    ensures
        r == encodes_positive(bits),
{
    0x0000_0001 <= bits && bits <= 0x7f80_0000
}

} // verus!

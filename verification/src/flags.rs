use vstd::prelude::*;

verus! {

/// Bit masks for the four meaningful flag bits of the status register.
/// The packed layout is "zshc 0000": zero = bit 7, subtraction = bit 6,
/// half-carry = bit 5, carry = bit 4, and the low nibble is always zero.
pub const ZERO_FLAG: u8 = 0x80;
pub const SUBTRACT_FLAG: u8 = 0x40;
pub const HALF_CARRY_FLAG: u8 = 0x20;
pub const CARRY_FLAG: u8 = 0x10;

/// The CPU's status register, as a structured set of the four condition flags.
#[derive(Clone, Copy, PartialEq, Eq, Structural, Debug)]
pub struct FlagsRegister {
    pub zero: bool,
    pub subtraction: bool,
    pub half_carry: bool,
    pub carry: bool,
}

/// The packed byte form of a flag set: one bit per flag in the fixed
/// hardware layout, low nibble zero.
pub open spec fn flags_byte(f: FlagsRegister) -> u8 {
    (if f.zero { ZERO_FLAG } else { 0 }) | (if f.subtraction { SUBTRACT_FLAG } else { 0 })
        | (if f.half_carry { HALF_CARRY_FLAG } else { 0 }) | (if f.carry { CARRY_FLAG } else { 0 })
}

/// The flag set read out of a packed byte: each flag is true exactly when
/// its bit is set. The low nibble of the byte is ignored.
pub open spec fn byte_flags(b: u8) -> FlagsRegister {
    FlagsRegister {
        zero: b & ZERO_FLAG != 0,
        subtraction: b & SUBTRACT_FLAG != 0,
        half_carry: b & HALF_CARRY_FLAG != 0,
        carry: b & CARRY_FLAG != 0,
    }
}

impl FlagsRegister {
    /// Packs the four flags into their byte form, one bit per flag,
    /// low nibble zero.
    pub fn encode(&self) -> (r: u8)
        ensures
            r == flags_byte(*self),
    {
        (if self.zero { ZERO_FLAG } else { 0 }) | (if self.subtraction { SUBTRACT_FLAG } else { 0 })
            | (if self.half_carry { HALF_CARRY_FLAG } else { 0 })
            | (if self.carry { CARRY_FLAG } else { 0 })
    }

    /// Reads a flag set out of a packed byte: each flag is true exactly
    /// when its bit is set in the input.
    pub fn decode(byte: u8) -> (r: FlagsRegister)
        ensures
            r == byte_flags(byte),
    {
        FlagsRegister {
            zero: byte & ZERO_FLAG != 0,
            subtraction: byte & SUBTRACT_FLAG != 0,
            half_carry: byte & HALF_CARRY_FLAG != 0,
            carry: byte & CARRY_FLAG != 0,
        }
    }
}

/// Decoding an encoded flag set reproduces it exactly, for every one of the
/// sixteen flag combinations.
pub proof fn lemma_codec_round_trip(f: FlagsRegister)
    ensures
        byte_flags(flags_byte(f)) == f,
{
    let b = flags_byte(f);
    let z = f.zero;
    let s = f.subtraction;
    let h = f.half_carry;
    let c = f.carry;
    assert((b & 0x80 != 0) == z && (b & 0x40 != 0) == s && (b & 0x20 != 0) == h && (b & 0x10 != 0)
        == c) by (bit_vector)
        requires
            b == (if z { 0x80u8 } else { 0u8 }) | (if s { 0x40u8 } else { 0u8 })
                | (if h { 0x20u8 } else { 0u8 }) | (if c { 0x10u8 } else { 0u8 }),
    ;
}

/// The packed byte of any flag set has a zero low nibble.
pub proof fn lemma_low_nibble_zero(f: FlagsRegister)
    ensures
        flags_byte(f) & 0x0F == 0,
{
    let b = flags_byte(f);
    let z = f.zero;
    let s = f.subtraction;
    let h = f.half_carry;
    let c = f.carry;
    assert(b & 0x0F == 0) by (bit_vector)
        requires
            b == (if z { 0x80u8 } else { 0u8 }) | (if s { 0x40u8 } else { 0u8 })
                | (if h { 0x20u8 } else { 0u8 }) | (if c { 0x10u8 } else { 0u8 }),
    ;
}

/// Encoding a decoded byte keeps its high nibble and clears its low nibble.
pub proof fn lemma_decode_encode(b: u8)
    ensures
        flags_byte(byte_flags(b)) == b & 0xF0,
{
    let e = flags_byte(byte_flags(b));
    let z = b & ZERO_FLAG != 0;
    let s = b & SUBTRACT_FLAG != 0;
    let h = b & HALF_CARRY_FLAG != 0;
    let c = b & CARRY_FLAG != 0;
    assert(e == b & 0xF0) by (bit_vector)
        requires
            z == (b & 0x80 != 0),
            s == (b & 0x40 != 0),
            h == (b & 0x20 != 0),
            c == (b & 0x10 != 0),
            e == (if z { 0x80u8 } else { 0u8 }) | (if s { 0x40u8 } else { 0u8 })
                | (if h { 0x20u8 } else { 0u8 }) | (if c { 0x10u8 } else { 0u8 }),
    ;
}

} // verus!

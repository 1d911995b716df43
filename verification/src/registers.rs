use vstd::prelude::*;
use crate::flags::{FlagsRegister, byte_flags, flags_byte};

verus! {

/// The CPU's register file: seven general-purpose 8-bit registers and the
/// status register. Adjacent registers are also addressable as 16-bit pairs.
#[derive(Clone, Copy, PartialEq, Eq, Structural, Debug)]
pub struct Registers {
    pub a: u8,
    pub b: u8,
    pub c: u8,
    pub d: u8,
    pub e: u8,
    pub f: FlagsRegister,
    pub h: u8,
    pub l: u8,
}

/// The 16-bit value of a register pair: the high byte concatenated with the
/// low byte.
pub open spec fn pair_value(hi: u8, lo: u8) -> int {
    hi * 256 + lo
}

/// The high byte of a 16-bit value.
pub open spec fn hi_byte(v: u16) -> u8 {
    (v / 256) as u8
}

/// The low byte of a 16-bit value.
pub open spec fn lo_byte(v: u16) -> u8 {
    (v % 256) as u8
}

/// Splitting a 16-bit value into its two bytes and concatenating them again
/// gives the value back: the raw pairs round-trip in full.
pub proof fn lemma_pair_round_trip(v: u16)
    ensures
        pair_value(hi_byte(v), lo_byte(v)) == v,
{
    assert(((v / 256) as u8) * 256 + ((v % 256) as u8) == v) by (bit_vector);
}

/// Writing a 16-bit value through the flags codec keeps its top twelve bits
/// and clears its low nibble: reading AF back after a write gives the written
/// value with the low four bits zeroed.
pub proof fn lemma_af_round_trip(v: u16)
    ensures
        pair_value(hi_byte(v), flags_byte(byte_flags(lo_byte(v)))) == v & 0xFFF0,
{
    crate::flags::lemma_decode_encode(lo_byte(v));
    assert(((v / 256) as u8) * 256 + (((v % 256) as u8) & 0xF0) == v & 0xFFF0) by (bit_vector);
}

proof fn lemma_pack_bytes(hi: u8, lo: u8)
    by (bit_vector)
    ensures
        ((hi as u16) << 8 | (lo as u16)) == pair_value(hi, lo),
{
}

proof fn lemma_split_bytes(v: u16)
    by (bit_vector)
    ensures
        (v >> 8) as u8 == hi_byte(v),
        v as u8 == lo_byte(v),
{
}

impl Registers {
    // AF
    pub fn get_af(&self) -> (r: u16)
        ensures
            r == pair_value(self.a, flags_byte(self.f)),
    {
        proof {
            lemma_pack_bytes(self.a, flags_byte(self.f));
        }
        (self.a as u16) << 8 | self.f.encode() as u16
    }

    pub fn set_af(&mut self, value: u16)
        ensures
            *final(self) == (Registers {
                a: hi_byte(value),
                f: byte_flags(lo_byte(value)),
                ..*old(self)
            }),
    {
        proof {
            lemma_split_bytes(value);
        }
        self.a = (value >> 8) as u8;
        self.f = FlagsRegister::decode(value as u8);
    }

    // Raw 8-bit registers
    pub fn get_a(&self) -> (r: u8)
        ensures
            r == self.a,
    {
        self.a
    }

    pub fn set_a(&mut self, value: u8)
        ensures
            *final(self) == (Registers { a: value, ..*old(self) }),
    {
        self.a = value;
    }

    pub fn get_b(&self) -> (r: u8)
        ensures
            r == self.b,
    {
        self.b
    }

    pub fn set_b(&mut self, value: u8)
        ensures
            *final(self) == (Registers { b: value, ..*old(self) }),
    {
        self.b = value;
    }

    pub fn get_c(&self) -> (r: u8)
        ensures
            r == self.c,
    {
        self.c
    }

    pub fn set_c(&mut self, value: u8)
        ensures
            *final(self) == (Registers { c: value, ..*old(self) }),
    {
        self.c = value;
    }

    pub fn get_d(&self) -> (r: u8)
        ensures
            r == self.d,
    {
        self.d
    }

    pub fn set_d(&mut self, value: u8)
        ensures
            *final(self) == (Registers { d: value, ..*old(self) }),
    {
        self.d = value;
    }

    pub fn get_e(&self) -> (r: u8)
        ensures
            r == self.e,
    {
        self.e
    }

    pub fn set_e(&mut self, value: u8)
        ensures
            *final(self) == (Registers { e: value, ..*old(self) }),
    {
        self.e = value;
    }

    pub fn get_h(&self) -> (r: u8)
        ensures
            r == self.h,
    {
        self.h
    }

    pub fn set_h(&mut self, value: u8)
        ensures
            *final(self) == (Registers { h: value, ..*old(self) }),
    {
        self.h = value;
    }

    pub fn get_l(&self) -> (r: u8)
        ensures
            r == self.l,
    {
        self.l
    }

    pub fn set_l(&mut self, value: u8)
        ensures
            *final(self) == (Registers { l: value, ..*old(self) }),
    {
        self.l = value;
    }

    // BC
    pub fn get_bc(&self) -> (r: u16)
        ensures
            r == pair_value(self.b, self.c),
    {
        proof {
            lemma_pack_bytes(self.b, self.c);
        }
        (self.b as u16) << 8 | self.c as u16
    }

    pub fn set_bc(&mut self, value: u16)
        ensures
            *final(self) == (Registers { b: hi_byte(value), c: lo_byte(value), ..*old(self) }),
    {
        proof {
            lemma_split_bytes(value);
        }
        self.b = (value >> 8) as u8;
        self.c = value as u8;
    }

    // DE
    pub fn get_de(&self) -> (r: u16)
        ensures
            r == pair_value(self.d, self.e),
    {
        proof {
            lemma_pack_bytes(self.d, self.e);
        }
        (self.d as u16) << 8 | self.e as u16
    }

    pub fn set_de(&mut self, value: u16)
        ensures
            *final(self) == (Registers { d: hi_byte(value), e: lo_byte(value), ..*old(self) }),
    {
        proof {
            lemma_split_bytes(value);
        }
        self.d = (value >> 8) as u8;
        self.e = value as u8;
    }

    // HL
    pub fn get_hl(&self) -> (r: u16)
        ensures
            r == pair_value(self.h, self.l),
    {
        proof {
            lemma_pack_bytes(self.h, self.l);
        }
        (self.h as u16) << 8 | self.l as u16
    }

    pub fn set_hl(&mut self, value: u16)
        ensures
            *final(self) == (Registers { h: hi_byte(value), l: lo_byte(value), ..*old(self) }),
    {
        proof {
            lemma_split_bytes(value);
        }
        self.h = (value >> 8) as u8;
        self.l = value as u8;
    }
}

} // verus!

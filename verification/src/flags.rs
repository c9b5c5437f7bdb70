//! The five condition flags and the status byte that holds them on the stack.

use vstd::prelude::*;
use crate::bits::{even_parity, has_even_parity};

verus! {

/// A flag as the value of its bit: one if set, zero if clear.
pub open spec fn bit_value(flag: bool) -> int {
    if flag {
        1
    } else {
        0
    }
}

/// The condition flags of the processor.
#[derive(Clone, Copy, PartialEq, Eq, Debug, Structural)]
pub struct Flags {
    /// The last result was zero.
    pub zero: bool,
    /// Bit 7 of the last result was set.
    pub sign: bool,
    /// The last result had an even number of bits set.
    pub parity: bool,
    /// The last operation carried out of, or borrowed into, bit 7.
    pub carry: bool,
    /// The last operation carried out of bit 3.
    pub aux_carry: bool,
}

impl Flags {
    /// All five flags clear.
    pub open spec fn cleared() -> Flags {
        Flags { zero: false, sign: false, parity: false, carry: false, aux_carry: false }
    }

    /// The flags after an operation with result `value`: zero, sign and
    /// parity describe the value, the two carries are as given.
    pub open spec fn of_value(value: u8, carry: bool, aux_carry: bool) -> Flags {
        Flags {
            zero: value == 0,
            sign: value >= 128,
            parity: even_parity(value),
            carry,
            aux_carry,
        }
    }

    /// The status byte: sign in bit 7, zero in bit 6, auxiliary carry in
    /// bit 4, parity in bit 2, carry in bit 0; bit 1 is always set, bits 3
    /// and 5 are always clear.
    pub open spec fn status_byte(self) -> u8 {
        (128 * bit_value(self.sign) + 64 * bit_value(self.zero) + 16 * bit_value(self.aux_carry) + 4
            * bit_value(self.parity) + 2 + bit_value(self.carry)) as u8
    }

    /// The flags that a status byte holds; bits 1, 3 and 5 are not read.
    pub open spec fn from_status_byte(b: u8) -> Flags {
        Flags {
            sign: (b / 128) % 2 == 1,
            zero: (b / 64) % 2 == 1,
            aux_carry: (b / 16) % 2 == 1,
            parity: (b / 4) % 2 == 1,
            carry: b % 2 == 1,
        }
    }

    /// Flags that are all clear.
    pub fn new() -> (r: Flags)
        ensures
            r == Flags::cleared(),
    {
        Flags { zero: false, sign: false, parity: false, carry: false, aux_carry: false }
    }

    /// The flags after an operation with result `value`.
    pub fn for_value(value: u8, carry: bool, aux_carry: bool) -> (r: Flags)
        ensures
            r == Flags::of_value(value, carry, aux_carry),
    {
        Flags {
            zero: value == 0,
            sign: value >= 0x80,
            parity: has_even_parity(value),
            carry,
            aux_carry,
        }
    }

    /// The status byte that holds the flags.
    pub fn to_byte(&self) -> (r: u8)
        ensures
            r == self.status_byte(),
    {
        let mut b: u8 = 0x02;
        if self.sign {
            b = b + 0x80;
        }
        if self.zero {
            b = b + 0x40;
        }
        if self.aux_carry {
            b = b + 0x10;
        }
        if self.parity {
            b = b + 0x04;
        }
        if self.carry {
            b = b + 0x01;
        }
        b
    }

    /// The flags that a status byte holds.
    pub fn from_byte(b: u8) -> (r: Flags)
        ensures
            r == Flags::from_status_byte(b),
    {
        assert({
            &&& (b & 0x80 != 0) == ((b / 128) % 2 == 1)
            &&& (b & 0x40 != 0) == ((b / 64) % 2 == 1)
            &&& (b & 0x10 != 0) == ((b / 16) % 2 == 1)
            &&& (b & 0x04 != 0) == ((b / 4) % 2 == 1)
            &&& (b & 0x01 != 0) == (b % 2 == 1)
        }) by (bit_vector);
        Flags {
            sign: b & 0x80 != 0,
            zero: b & 0x40 != 0,
            aux_carry: b & 0x10 != 0,
            parity: b & 0x04 != 0,
            carry: b & 0x01 != 0,
        }
    }
}

/// Flags written to a status byte and read back are the same flags.
pub proof fn lemma_status_byte_round_trip(f: Flags)
    ensures
        Flags::from_status_byte(f.status_byte()) == f,
{
}

} // verus!

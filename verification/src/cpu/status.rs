//! The processor status flags and their packed one-byte form.
//!
//! The packed byte holds, from bit 7 down to bit 0, the flags
//! `N V 1 B D I Z C`: negative, overflow, the reserved bit (always one),
//! break, decimal, interrupt-disable, zero and carry.
use vstd::prelude::*;

verus! {

/// The eight status flags of the processor.
#[derive(Clone, Copy, Debug, PartialEq, Eq, Structural)]
pub struct Status {
    pub negative: bool,
    pub overflow: bool,
    pub reserved: bool,
    pub break_mode: bool,
    pub decimal_mode: bool,
    pub interrupt_disable: bool,
    pub zero: bool,
    pub carry: bool,
}

/// What a flag adds to the packed byte when it sits at the bit of `weight`.
pub open spec fn flag_weight(flag: bool, weight: nat) -> nat {
    if flag {
        weight
    } else {
        0
    }
}

/// Whether the bit of `weight` (a power of two) is set in `value`.
pub open spec fn bit_set(value: u8, weight: nat) -> bool
    recommends
        weight > 0,
{
    (value as nat / weight) % 2 == 1
}

impl Status {
    /// The flags of a status register in which only the reserved bit is set.
    pub open spec fn cleared() -> Status {
        Status {
            negative: false,
            overflow: false,
            reserved: true,
            break_mode: false,
            decimal_mode: false,
            interrupt_disable: false,
            zero: false,
            carry: false,
        }
    }

    /// The flags that the processor holds at power-on and after a reset:
    /// interrupt-disable, break and the reserved bit are set.
    pub open spec fn power_on() -> Status {
        Status {
            negative: false,
            overflow: false,
            reserved: true,
            break_mode: true,
            decimal_mode: false,
            interrupt_disable: true,
            zero: false,
            carry: false,
        }
    }

    /// The packed byte of these flags, `N V 1 B D I Z C` from bit 7 to bit 0.
    pub open spec fn byte(self) -> u8 {
        (flag_weight(self.carry, 1) + flag_weight(self.zero, 2) + flag_weight(
            self.interrupt_disable,
            4,
        ) + flag_weight(self.decimal_mode, 8) + flag_weight(self.break_mode, 16) + flag_weight(
            self.reserved,
            32,
        ) + flag_weight(self.overflow, 64) + flag_weight(self.negative, 128)) as u8
    }

    /// The flags that a packed byte stands for. The reserved bit reads as
    /// one whatever the byte holds at bit 5.
    pub open spec fn from_byte(value: u8) -> Status {
        Status {
            negative: bit_set(value, 128),
            overflow: bit_set(value, 64),
            reserved: true,
            break_mode: bit_set(value, 16),
            decimal_mode: bit_set(value, 8),
            interrupt_disable: bit_set(value, 4),
            zero: bit_set(value, 2),
            carry: bit_set(value, 1),
        }
    }

    /// A status register with every flag clear but the reserved bit.
    pub fn new() -> (status: Status)
        ensures
            status == Status::cleared(),
    {
        Status {
            carry: false,
            zero: false,
            interrupt_disable: false,
            decimal_mode: false,
            break_mode: false,
            reserved: true,
            overflow: false,
            negative: false,
        }
    }

    /// Packs the flags into one byte.
    pub fn get_byte(&self) -> (byte: u8)
        ensures
            byte == self.byte(),
    {
        proof {
            lemma_pack(
                self.carry,
                self.zero,
                self.interrupt_disable,
                self.decimal_mode,
                self.break_mode,
                self.reserved,
                self.overflow,
                self.negative,
            );
        }
        (self.carry as u8) | (self.zero as u8) << 1 | (self.interrupt_disable as u8) << 2 | (
        self.decimal_mode as u8) << 3 | (self.break_mode as u8) << 4 | (self.reserved as u8) << 5
            | (self.overflow as u8) << 6 | (self.negative as u8) << 7
    }

    /// Loads the flags from a packed byte; the reserved bit stays set.
    pub fn set_byte(&mut self, value: u8)
        ensures
            *final(self) == Status::from_byte(value),
    {
        proof {
            lemma_unpack(value);
        }
        self.carry = (value & 0x01) != 0;
        self.zero = (value & 0x02) != 0;
        self.interrupt_disable = (value & 0x04) != 0;
        self.decimal_mode = (value & 0x08) != 0;
        self.break_mode = (value & 0x10) != 0;
        self.reserved = true;
        self.overflow = (value & 0x40) != 0;
        self.negative = (value & 0x80) != 0;
    }
}

/// Or-ing the shifted flag bits together adds up their weights.
pub proof fn lemma_pack(c: bool, z: bool, i: bool, d: bool, b: bool, r: bool, v: bool, n: bool)
    by (bit_vector)
    ensures
        (if c { 1u8 } else { 0u8 }) | (if z { 1u8 } else { 0u8 }) << 1 | (if i { 1u8 } else { 0u8 })
            << 2 | (if d { 1u8 } else { 0u8 }) << 3 | (if b { 1u8 } else { 0u8 }) << 4 | (if r {
            1u8
        } else {
            0u8
        }) << 5 | (if v { 1u8 } else { 0u8 }) << 6 | (if n { 1u8 } else { 0u8 }) << 7 == (if c {
            1u8
        } else {
            0u8
        }) + (if z { 2u8 } else { 0u8 }) + (if i { 4u8 } else { 0u8 }) + (if d { 8u8 } else { 0u8 })
            + (if b { 16u8 } else { 0u8 }) + (if r { 32u8 } else { 0u8 }) + (if v {
            64u8
        } else {
            0u8
        }) + (if n { 128u8 } else { 0u8 }),
{
}

/// Testing a byte against a one-bit mask reads the binary digit of that weight.
pub proof fn lemma_unpack(value: u8)
    by (bit_vector)
    ensures
        (value & 0x01 != 0) == ((value / 1) % 2 == 1),
        (value & 0x02 != 0) == ((value / 2) % 2 == 1),
        (value & 0x04 != 0) == ((value / 4) % 2 == 1),
        (value & 0x08 != 0) == ((value / 8) % 2 == 1),
        (value & 0x10 != 0) == ((value / 16) % 2 == 1),
        (value & 0x20 != 0) == ((value / 32) % 2 == 1),
        (value & 0x40 != 0) == ((value / 64) % 2 == 1),
        (value & 0x80 != 0) == ((value / 128) % 2 == 1),
{
}

} // verus!

//! What the operations compute: results and flags, apart from where the
//! operand comes from and where the result goes.
//!
//! Zero is set when a result is zero, negative when its bit 7 is set. The
//! rules for carry and overflow belong to each operation.
use crate::cpu::status::Status;
use crate::cpu::CPU;
use crate::word::wrap8;
use vstd::prelude::*;

verus! {

/// Whether bit 7, the sign bit, of a byte is set.
pub open spec fn is_negative(value: u8) -> bool {
    value >= 0x80
}

/// The number that a byte stands for in two's complement.
pub open spec fn signed(value: u8) -> int {
    if value >= 0x80 {
        value - 0x100
    } else {
        value as int
    }
}

/// One if the carry is set, zero if not.
pub open spec fn carry_value(carry: bool) -> int {
    if carry {
        1
    } else {
        0
    }
}

/// Overflow of an addition: both terms have the same sign and the result
/// has the other one.
pub open spec fn sign_overflow(a: u8, m: u8, result: u8) -> bool {
    is_negative(a) == is_negative(m) && is_negative(result) != is_negative(a)
}

/// A byte shifted left by one with `carry_in` entering at bit 0.
pub open spec fn rotated_left(value: u8, carry_in: bool) -> u8 {
    wrap8(value * 2 + carry_value(carry_in))
}

/// A byte shifted right by one with `carry_in` entering at bit 7.
pub open spec fn rotated_right(value: u8, carry_in: bool) -> u8 {
    (value / 2 + 0x80 * carry_value(carry_in)) as u8
}

/// Whether bit 0 of a byte is set: the bit that a shift to the right pushes out.
pub open spec fn is_odd(value: u8) -> bool {
    value % 2 == 1
}

impl CPU {
    /// This processor with the status flags replaced.
    pub open spec fn with_status(self, status: Status) -> CPU {
        CPU { status, ..self }
    }

    /// This processor with zero and negative set from `value`.
    pub open spec fn with_zn(self, value: u8) -> CPU {
        self.with_status(Status { zero: value == 0, negative: is_negative(value), ..self.status })
    }

    /// This processor with the carry flag replaced.
    pub open spec fn with_carry(self, carry: bool) -> CPU {
        self.with_status(Status { carry, ..self.status })
    }

    /// This processor after `value` was loaded into the accumulator.
    pub open spec fn with_a(self, value: u8) -> CPU {
        CPU { a: value, ..self }.with_zn(value)
    }

    /// This processor after `value` was loaded into X.
    pub open spec fn with_x(self, value: u8) -> CPU {
        CPU { x: value, ..self }.with_zn(value)
    }

    /// This processor after `value` was loaded into Y.
    pub open spec fn with_y(self, value: u8) -> CPU {
        CPU { y: value, ..self }.with_zn(value)
    }

    /// This processor after `m` and the carry were added to the accumulator.
    /// Carry is set when the unsigned sum exceeds `0xFF`, overflow when the
    /// accumulator and `m` agree in sign and the result does not.
    pub open spec fn added(self, m: u8) -> CPU {
        let sum = self.a + m + carry_value(self.status.carry);
        let result = wrap8(sum);
        CPU {
            a: result,
            status: Status {
                carry: sum > 0xFF,
                overflow: sign_overflow(self.a, m, result),
                zero: result == 0,
                negative: is_negative(result),
                ..self.status
            },
            ..self
        }
    }

    /// This processor after `m` and the borrow were subtracted from the
    /// accumulator: the addition of the complement of `m`.
    pub open spec fn subtracted(self, m: u8) -> CPU {
        self.added((0xFF - m) as u8)
    }

    /// This processor after `register` was compared with `m`. Carry is set
    /// when `register >= m`, zero when they are equal, negative from bit 7
    /// of the difference.
    pub open spec fn compared(self, register: u8, m: u8) -> CPU {
        self.with_status(
            Status {
                carry: register >= m,
                zero: register == m,
                negative: is_negative(wrap8(register - m)),
                ..self.status
            },
        )
    }

    /// This processor after the bits of `m` were tested against the
    /// accumulator. Zero is set when they share no bit; overflow and
    /// negative are bits 6 and 7 of `m`.
    pub open spec fn bit_tested(self, m: u8) -> CPU {
        self.with_status(
            Status {
                zero: self.a & m == 0,
                overflow: m & 0x40 != 0,
                negative: m & 0x80 != 0,
                ..self.status
            },
        )
    }

    /// Sets zero and negative from `value`.
    pub fn set_zn(&mut self, value: u8)
        ensures
            *final(self) == old(self).with_zn(value),
    {
        self.status.zero = value == 0;
        self.status.negative = value >= 0x80;
    }

    /// Sets or clears the carry.
    pub fn set_carry(&mut self, carry: bool)
        ensures
            *final(self) == old(self).with_carry(carry),
    {
        self.status.carry = carry;
    }

    /// Loads the accumulator and sets zero and negative from it.
    pub fn load_a(&mut self, value: u8)
        ensures
            *final(self) == old(self).with_a(value),
    {
        self.a = value;
        self.set_zn(value);
    }

    /// Loads X and sets zero and negative from it.
    pub fn load_x(&mut self, value: u8)
        ensures
            *final(self) == old(self).with_x(value),
    {
        self.x = value;
        self.set_zn(value);
    }

    /// Loads Y and sets zero and negative from it.
    pub fn load_y(&mut self, value: u8)
        ensures
            *final(self) == old(self).with_y(value),
    {
        self.y = value;
        self.set_zn(value);
    }

    /// Adds `m` and the carry to the accumulator.
    pub fn add_with_carry(&mut self, m: u8)
        ensures
            *final(self) == old(self).added(m),
    {
        let a = self.a;
        let sum: u16 = a as u16 + m as u16 + self.status.carry as u16;
        let result: u8 = (sum % 0x100) as u8;
        proof {
            lemma_overflow_bits(a, m, result);
        }
        self.status.carry = sum > 0xFF;
        self.status.overflow = (!(a ^ m) & (a ^ result) & 0x80) != 0;
        self.status.zero = result == 0;
        self.status.negative = result >= 0x80;
        self.a = result;
    }

    /// Subtracts `m` and the borrow from the accumulator.
    pub fn subtract_with_borrow(&mut self, m: u8)
        ensures
            *final(self) == old(self).subtracted(m),
    {
        proof {
            lemma_complement(m);
        }
        self.add_with_carry(!m);
    }

    /// Compares `register` with `m`.
    pub fn compare(&mut self, register: u8, m: u8)
        ensures
            *final(self) == old(self).compared(register, m),
    {
        let difference = register.wrapping_sub(m);
        self.status.carry = register >= m;
        self.status.zero = register == m;
        self.status.negative = difference >= 0x80;
    }

    /// Tests the bits of `m` against the accumulator.
    pub fn test_bits(&mut self, m: u8)
        ensures
            *final(self) == old(self).bit_tested(m),
    {
        self.status.zero = (self.a & m) == 0;
        self.status.overflow = (m & 0x40) != 0;
        self.status.negative = (m & 0x80) != 0;
    }
}

/// Shifts a byte left by one; `carry_in` enters at bit 0. Returns the
/// result and the bit that left at the top.
pub fn shift_left(value: u8, carry_in: bool) -> (result: (u8, bool))
    ensures
        result.0 == rotated_left(value, carry_in),
        result.1 == is_negative(value),
{
    proof {
        lemma_shifts(value, carry_in);
    }
    ((value << 1) | carry_in as u8, (value & 0x80) != 0)
}

/// Shifts a byte right by one; `carry_in` enters at bit 7. Returns the
/// result and the bit that left at the bottom.
pub fn shift_right(value: u8, carry_in: bool) -> (result: (u8, bool))
    ensures
        result.0 == rotated_right(value, carry_in),
        result.1 == is_odd(value),
{
    proof {
        lemma_shifts(value, carry_in);
    }
    ((value >> 1) | (carry_in as u8) << 7, (value & 0x01) != 0)
}

/// The bit formula for overflow says that the terms agree in sign and the
/// result does not.
pub proof fn lemma_overflow_bits(a: u8, m: u8, result: u8)
    by (bit_vector)
    ensures
        ((!(a ^ m) & (a ^ result) & 0x80u8) != 0u8) <==> (((a >= 0x80u8) <==> (m >= 0x80u8)) && !((
        result >= 0x80u8) <==> (a >= 0x80u8))),
{
}

/// The bitwise complement of a byte is its distance from `0xFF`.
pub proof fn lemma_complement(m: u8)
    by (bit_vector)
    ensures
        !m == 0xFFu8 - m,
{
}

/// What the shift operators compute, in arithmetic.
pub proof fn lemma_shifts(value: u8, carry_in: bool)
    by (bit_vector)
    ensures
        ((value << 1) | (if carry_in { 1u8 } else { 0u8 })) + (if value >= 0x80u8 {
            0x100u16
        } else {
            0u16
        }) == value * 2 + (if carry_in { 1u8 } else { 0u8 }),
        (value >> 1) | (if carry_in { 1u8 } else { 0u8 }) << 7 == value / 2u8 + (if carry_in {
            0x80u8
        } else {
            0u8
        }),
        ((value & 0x80u8) != 0u8) <==> (value >= 0x80u8),
        ((value & 0x01u8) != 0u8) <==> (value % 2u8 == 1u8),
{
}

} // verus!

//! The arithmetic and logic unit: what each operation makes of the
//! accumulator, an operand and the flags.

use vstd::prelude::*;
use crate::bits::wrap8;
use crate::flags::Flags;

verus! {

/// The eight operations that combine the accumulator with an operand.
#[derive(Clone, Copy, PartialEq, Eq, Debug, Structural)]
pub enum AluOperation {
    Add,
    AddWithCarry,
    Subtract,
    SubtractWithBorrow,
    And,
    Xor,
    Or,
    Compare,
}

/// The four rotations of the accumulator by one bit.
#[derive(Clone, Copy, PartialEq, Eq, Debug, Structural)]
pub enum Rotation {
    /// Left; bit 7 goes to bit 0 and to the carry.
    Left,
    /// Right; bit 0 goes to bit 7 and to the carry.
    Right,
    /// Left through the carry; the carry goes to bit 0, bit 7 to the carry.
    LeftThroughCarry,
    /// Right through the carry; the carry goes to bit 7, bit 0 to the carry.
    RightThroughCarry,
}

/// A byte together with the flags that the operation producing it leaves.
#[derive(Clone, Copy, PartialEq, Eq, Debug, Structural)]
pub struct AluResult {
    pub value: u8,
    pub flags: Flags,
}

/// A carry as the number it adds: one if set, zero if clear.
pub open spec fn carry_value(carry: bool) -> int {
    if carry {
        1
    } else {
        0
    }
}

/// `a + b + carry_in`. The carry flag reports a sum above 255, the auxiliary
/// carry a sum of the low four bits above 15.
pub open spec fn sum(a: u8, b: u8, carry_in: bool) -> AluResult {
    let c = carry_value(carry_in);
    let value = wrap8(a + b + c);
    AluResult { value, flags: Flags::of_value(value, a + b + c > 255, a % 16 + b % 16 + c > 15) }
}

/// `a - b - borrow_in`. The carry flag reports a borrow, that is a
/// difference below zero; the auxiliary carry is set when the low four
/// bits needed no borrow.
pub open spec fn difference(a: u8, b: u8, borrow_in: bool) -> AluResult {
    let c = carry_value(borrow_in);
    let value = wrap8(a - b - c);
    AluResult { value, flags: Flags::of_value(value, a - b - c < 0, a % 16 - b % 16 - c >= 0) }
}

/// Bitwise and. The carry is cleared; the auxiliary carry is bit 3 of the
/// bitwise or of the two operands.
pub open spec fn conjunction(a: u8, b: u8) -> AluResult {
    let value = a & b;
    AluResult { value, flags: Flags::of_value(value, false, ((a | b) / 8) % 2 == 1) }
}

/// Bitwise exclusive or. Both carries are cleared.
pub open spec fn exclusive_or(a: u8, b: u8) -> AluResult {
    let value = a ^ b;
    AluResult { value, flags: Flags::of_value(value, false, false) }
}

/// Bitwise or. Both carries are cleared.
pub open spec fn disjunction(a: u8, b: u8) -> AluResult {
    let value = a | b;
    AluResult { value, flags: Flags::of_value(value, false, false) }
}

/// `v + 1`. The carry flag is kept; the auxiliary carry reports a carry out
/// of the low four bits.
pub open spec fn incremented(v: u8, flags: Flags) -> AluResult {
    let value = wrap8(v + 1);
    AluResult { value, flags: Flags::of_value(value, flags.carry, v % 16 == 15) }
}

/// `v - 1`. The carry flag is kept; the auxiliary carry is set when the low
/// four bits needed no borrow.
pub open spec fn decremented(v: u8, flags: Flags) -> AluResult {
    let value = wrap8(v - 1);
    AluResult { value, flags: Flags::of_value(value, flags.carry, v % 16 != 0) }
}

/// The accumulator rotated by one bit. Only the carry flag changes.
pub open spec fn rotated(rotation: Rotation, a: u8, flags: Flags) -> AluResult {
    let c = carry_value(flags.carry);
    match rotation {
        Rotation::Left => AluResult {
            value: ((2 * a) % 256 + a / 128) as u8,
            flags: Flags { carry: a >= 128, ..flags },
        },
        Rotation::Right => AluResult {
            value: (a / 2 + 128 * (a % 2)) as u8,
            flags: Flags { carry: a % 2 == 1, ..flags },
        },
        Rotation::LeftThroughCarry => AluResult {
            value: ((2 * a) % 256 + c) as u8,
            flags: Flags { carry: a >= 128, ..flags },
        },
        Rotation::RightThroughCarry => AluResult {
            value: (a / 2 + 128 * c) as u8,
            flags: Flags { carry: a % 2 == 1, ..flags },
        },
    }
}

/// The accumulator adjusted to two binary-coded decimal digits, in two
/// steps. First, if the low digit is above 9 or the auxiliary carry is set,
/// 6 is added. Then, if the high digit is now above 9 or the carry is set,
/// 6 is added to the high digit. The auxiliary carry reports a carry out of
/// the low digit in the first step; the carry is set by a carry out of the
/// high digit and is otherwise kept.
pub open spec fn decimal_adjusted(a: u8, flags: Flags) -> AluResult {
    let low_fix: int = if a % 16 > 9 || flags.aux_carry {
        6
    } else {
        0
    };
    let first = a + low_fix;
    let high_fix: int = if first / 16 > 9 || flags.carry {
        0x60
    } else {
        0
    };
    let value = wrap8(first + high_fix);
    AluResult {
        value,
        flags: Flags::of_value(value, flags.carry || first / 16 > 9, a % 16 + low_fix > 15),
    }
}

impl AluOperation {
    /// The three bits that select the operation in an opcode.
    pub open spec fn code(self) -> int {
        match self {
            AluOperation::Add => 0,
            AluOperation::AddWithCarry => 1,
            AluOperation::Subtract => 2,
            AluOperation::SubtractWithBorrow => 3,
            AluOperation::And => 4,
            AluOperation::Xor => 5,
            AluOperation::Or => 6,
            AluOperation::Compare => 7,
        }
    }

    /// The operation that a code selects; a code above 7 selects the last.
    pub open spec fn of_code(code: int) -> AluOperation {
        if code == 0 {
            AluOperation::Add
        } else if code == 1 {
            AluOperation::AddWithCarry
        } else if code == 2 {
            AluOperation::Subtract
        } else if code == 3 {
            AluOperation::SubtractWithBorrow
        } else if code == 4 {
            AluOperation::And
        } else if code == 5 {
            AluOperation::Xor
        } else if code == 6 {
            AluOperation::Or
        } else {
            AluOperation::Compare
        }
    }

    /// The accumulator and flags after the operation on accumulator `a` and
    /// `operand`. A comparison sets the flags of a subtraction and keeps
    /// the accumulator.
    pub open spec fn apply(self, a: u8, operand: u8, flags: Flags) -> AluResult {
        match self {
            AluOperation::Add => sum(a, operand, false),
            AluOperation::AddWithCarry => sum(a, operand, flags.carry),
            AluOperation::Subtract => difference(a, operand, false),
            AluOperation::SubtractWithBorrow => difference(a, operand, flags.carry),
            AluOperation::And => conjunction(a, operand),
            AluOperation::Xor => exclusive_or(a, operand),
            AluOperation::Or => disjunction(a, operand),
            AluOperation::Compare => AluResult {
                value: a,
                flags: difference(a, operand, false).flags,
            },
        }
    }

    /// The code that selects the operation in an opcode.
    pub fn number(self) -> (r: u8)
        ensures
            r == self.code(),
    {
        match self {
            AluOperation::Add => 0,
            AluOperation::AddWithCarry => 1,
            AluOperation::Subtract => 2,
            AluOperation::SubtractWithBorrow => 3,
            AluOperation::And => 4,
            AluOperation::Xor => 5,
            AluOperation::Or => 6,
            AluOperation::Compare => 7,
        }
    }

    /// The operation that a code selects.
    pub fn from_code(code: u8) -> (r: AluOperation)
        ensures
            r == AluOperation::of_code(code as int),
            code < 8 ==> r.code() == code,
    {
        match code {
            0 => AluOperation::Add,
            1 => AluOperation::AddWithCarry,
            2 => AluOperation::Subtract,
            3 => AluOperation::SubtractWithBorrow,
            4 => AluOperation::And,
            5 => AluOperation::Xor,
            6 => AluOperation::Or,
            _ => AluOperation::Compare,
        }
    }

    /// Performs the operation on accumulator `a` and `operand`.
    pub fn perform(self, a: u8, operand: u8, flags: Flags) -> (r: AluResult)
        ensures
            r == self.apply(a, operand, flags),
    {
        match self {
            AluOperation::Add => add_bytes(a, operand, false),
            AluOperation::AddWithCarry => add_bytes(a, operand, flags.carry),
            AluOperation::Subtract => subtract_bytes(a, operand, false),
            AluOperation::SubtractWithBorrow => subtract_bytes(a, operand, flags.carry),
            AluOperation::And => and_bytes(a, operand),
            AluOperation::Xor => xor_bytes(a, operand),
            AluOperation::Or => or_bytes(a, operand),
            AluOperation::Compare => AluResult {
                value: a,
                flags: subtract_bytes(a, operand, false).flags,
            },
        }
    }

    /// An operation is the one that its code selects.
    pub proof fn lemma_code(self)
        ensures
            0 <= self.code() < 8,
            AluOperation::of_code(self.code()) == self,
    {
    }
}

impl Rotation {
    /// The two bits that select the rotation in an opcode.
    pub open spec fn code(self) -> int {
        match self {
            Rotation::Left => 0,
            Rotation::Right => 1,
            Rotation::LeftThroughCarry => 2,
            Rotation::RightThroughCarry => 3,
        }
    }

    /// The rotation that a code selects; a code above 3 selects the last.
    pub open spec fn of_code(code: int) -> Rotation {
        if code == 0 {
            Rotation::Left
        } else if code == 1 {
            Rotation::Right
        } else if code == 2 {
            Rotation::LeftThroughCarry
        } else {
            Rotation::RightThroughCarry
        }
    }

    /// The code that selects the rotation in an opcode.
    pub fn number(self) -> (r: u8)
        ensures
            r == self.code(),
    {
        match self {
            Rotation::Left => 0,
            Rotation::Right => 1,
            Rotation::LeftThroughCarry => 2,
            Rotation::RightThroughCarry => 3,
        }
    }

    /// The rotation that a code selects.
    pub fn from_code(code: u8) -> (r: Rotation)
        ensures
            r == Rotation::of_code(code as int),
            code < 4 ==> r.code() == code,
    {
        match code {
            0 => Rotation::Left,
            1 => Rotation::Right,
            2 => Rotation::LeftThroughCarry,
            _ => Rotation::RightThroughCarry,
        }
    }

    /// A rotation is the one that its code selects.
    pub proof fn lemma_code(self)
        ensures
            0 <= self.code() < 4,
            Rotation::of_code(self.code()) == self,
    {
    }
}

/// Adds two bytes and a carry.
pub fn add_bytes(a: u8, b: u8, carry_in: bool) -> (r: AluResult)
    ensures
        r == sum(a, b, carry_in),
{
    let c: u8 = if carry_in {
        1
    } else {
        0
    };
    let partial: u8 = a.wrapping_add(b);
    let value: u8 = partial.wrapping_add(c);
    let carry = partial < a || value < partial;
    assert(a & 0x0f == a % 16 && b & 0x0f == b % 16) by (bit_vector);
    let low: u8 = (a & 0x0f) + (b & 0x0f) + c;
    AluResult { value, flags: Flags::for_value(value, carry, low > 0x0f) }
}

/// Subtracts a byte and a borrow from a byte.
pub fn subtract_bytes(a: u8, b: u8, borrow_in: bool) -> (r: AluResult)
    ensures
        r == difference(a, b, borrow_in),
{
    let c: u8 = if borrow_in {
        1
    } else {
        0
    };
    let partial: u8 = a.wrapping_sub(b);
    let value: u8 = partial.wrapping_sub(c);
    let borrow = a < b || partial < c;
    assert(a & 0x0f == a % 16 && b & 0x0f == b % 16) by (bit_vector);
    let no_low_borrow = (a & 0x0f) >= (b & 0x0f) + c;
    AluResult { value, flags: Flags::for_value(value, borrow, no_low_borrow) }
}

/// The bitwise and of two bytes.
pub fn and_bytes(a: u8, b: u8) -> (r: AluResult)
    ensures
        r == conjunction(a, b),
{
    let value: u8 = a & b;
    assert((((a | b) & 0x08) != 0) == (((a | b) / 8) % 2 == 1)) by (bit_vector);
    AluResult { value, flags: Flags::for_value(value, false, ((a | b) & 0x08) != 0) }
}

/// The bitwise exclusive or of two bytes.
pub fn xor_bytes(a: u8, b: u8) -> (r: AluResult)
    ensures
        r == exclusive_or(a, b),
{
    let value: u8 = a ^ b;
    AluResult { value, flags: Flags::for_value(value, false, false) }
}

/// The bitwise or of two bytes.
pub fn or_bytes(a: u8, b: u8) -> (r: AluResult)
    ensures
        r == disjunction(a, b),
{
    let value: u8 = a | b;
    AluResult { value, flags: Flags::for_value(value, false, false) }
}

/// Adds one to a byte.
pub fn increment(v: u8, flags: Flags) -> (r: AluResult)
    ensures
        r == incremented(v, flags),
{
    let value: u8 = v.wrapping_add(1);
    assert((value & 0x0f == 0) == (value % 16 == 0)) by (bit_vector);
    AluResult { value, flags: Flags::for_value(value, flags.carry, value & 0x0f == 0) }
}

/// Subtracts one from a byte.
pub fn decrement(v: u8, flags: Flags) -> (r: AluResult)
    ensures
        r == decremented(v, flags),
{
    let value: u8 = v.wrapping_sub(1);
    assert((value & 0x0f != 0x0f) == (value % 16 != 15)) by (bit_vector);
    AluResult { value, flags: Flags::for_value(value, flags.carry, value & 0x0f != 0x0f) }
}

/// Rotates the accumulator by one bit.
pub fn rotate(rotation: Rotation, a: u8, flags: Flags) -> (r: AluResult)
    ensures
        r == rotated(rotation, a, flags),
{
    let c: u8 = if flags.carry {
        1
    } else {
        0
    };
    assert(c <= 1 ==> {
        &&& (a << 1) | (a >> 7) == (2 * a) % 256 + a / 128
        &&& (a >> 1) | ((a & 1) << 7) == a / 2 + 128 * (a % 2)
        &&& (a << 1) | c == (2 * a) % 256 + c
        &&& (a >> 1) | (c << 7) == a / 2 + 128 * c
        &&& (a & 0x80 != 0) == (a >= 128)
        &&& (a & 1 != 0) == (a % 2 == 1)
    }) by (bit_vector);
    match rotation {
        Rotation::Left => AluResult {
            value: (a << 1) | (a >> 7),
            flags: Flags { carry: a & 0x80 != 0, ..flags },
        },
        Rotation::Right => AluResult {
            value: (a >> 1) | ((a & 1) << 7),
            flags: Flags { carry: a & 1 != 0, ..flags },
        },
        Rotation::LeftThroughCarry => AluResult {
            value: (a << 1) | c,
            flags: Flags { carry: a & 0x80 != 0, ..flags },
        },
        Rotation::RightThroughCarry => AluResult {
            value: (a >> 1) | (c << 7),
            flags: Flags { carry: a & 1 != 0, ..flags },
        },
    }
}

/// Adjusts the accumulator to two decimal digits: one correction, of 6 for
/// the low digit and 0x60 for the high one, is worked out and added.
pub fn decimal_adjust(a: u8, flags: Flags) -> (r: AluResult)
    ensures
        r == decimal_adjusted(a, flags),
{
    let low: u8 = a % 16;
    let high: u8 = a / 16;
    let mut correction: u8 = 0;
    let mut carry = flags.carry;
    if flags.aux_carry || low > 9 {
        correction = 0x06;
    }
    if flags.carry || high > 9 || (high >= 9 && low > 9) {
        correction = correction + 0x60;
        carry = true;
    }
    let value: u8 = a.wrapping_add(correction);
    let aux_carry = low + (correction % 16) > 15;
    AluResult { value, flags: Flags::for_value(value, carry, aux_carry) }
}

} // verus!

//! The instruction set: what each instruction is called, how it is encoded
//! in one opcode byte, and how many clock cycles it takes.

use vstd::prelude::*;
use crate::alu::{AluOperation, Rotation};
use crate::flags::Flags;

verus! {

/// The least number of cycles that an instruction takes.
pub const MIN_INSTRUCTION_CYCLES: u8 = 4;

/// The greatest number of cycles that an instruction takes.
pub const MAX_INSTRUCTION_CYCLES: u8 = 18;

/// An eight-bit operand: one of the seven registers, or `M`, the byte of
/// memory that the register pair HL addresses.
#[derive(Clone, Copy, PartialEq, Eq, Debug, Structural)]
pub enum Register {
    B,
    C,
    D,
    E,
    H,
    L,
    M,
    A,
}

/// A sixteen-bit operand of the data instructions.
#[derive(Clone, Copy, PartialEq, Eq, Debug, Structural)]
pub enum RegisterPair {
    BC,
    DE,
    HL,
    SP,
}

/// A sixteen-bit operand of the stack instructions; `PSW` is the
/// accumulator together with the status byte.
#[derive(Clone, Copy, PartialEq, Eq, Debug, Structural)]
pub enum StackPair {
    BC,
    DE,
    HL,
    PSW,
}

/// A register pair that can address the accumulator's load and store.
#[derive(Clone, Copy, PartialEq, Eq, Debug, Structural)]
pub enum IndexPair {
    BC,
    DE,
}

/// The eight conditions that a jump, call or return can wait on.
#[derive(Clone, Copy, PartialEq, Eq, Debug, Structural)]
pub enum Condition {
    NotZero,
    Zero,
    NoCarry,
    Carry,
    ParityOdd,
    ParityEven,
    Plus,
    Minus,
}

/// A data transfer instruction.
#[derive(Clone, Copy, PartialEq, Eq, Debug, Structural)]
pub enum Transfer {
    /// Copies the second operand to the first.
    Mov(Register, Register),
    /// Loads a register or memory byte with the byte that follows.
    Mvi(Register),
    /// Loads a register pair with the two bytes that follow.
    Lxi(RegisterPair),
    /// Loads the accumulator from the address that follows.
    Lda,
    /// Stores the accumulator at the address that follows.
    Sta,
    /// Loads HL from the address that follows.
    Lhld,
    /// Stores HL at the address that follows.
    Shld,
    /// Loads the accumulator from the address in a register pair.
    Ldax(IndexPair),
    /// Stores the accumulator at the address in a register pair.
    Stax(IndexPair),
    /// Exchanges HL with DE.
    Xchg,
}

/// An arithmetic or logical instruction.
#[derive(Clone, Copy, PartialEq, Eq, Debug, Structural)]
pub enum Arithmetic {
    /// Combines the accumulator with a register or memory byte.
    Alu(AluOperation, Register),
    /// Combines the accumulator with the byte that follows.
    AluImmediate(AluOperation),
    /// Adds one to a register or memory byte.
    Inr(Register),
    /// Subtracts one from a register or memory byte.
    Dcr(Register),
    /// Adds one to a register pair.
    Inx(RegisterPair),
    /// Subtracts one from a register pair.
    Dcx(RegisterPair),
    /// Adds a register pair to HL.
    Dad(RegisterPair),
    /// Adjusts the accumulator to binary-coded decimal.
    Daa,
    /// Rotates the accumulator by one bit.
    Rotate(Rotation),
    /// Complements the accumulator.
    Cma,
    /// Complements the carry flag.
    Cmc,
    /// Sets the carry flag.
    Stc,
}

/// A jump, call or return.
#[derive(Clone, Copy, PartialEq, Eq, Debug, Structural)]
pub enum Branch {
    /// Jumps to the address that follows.
    Jmp,
    /// Jumps to the address that follows if the condition holds.
    JmpIf(Condition),
    /// Calls the address that follows.
    Call,
    /// Calls the address that follows if the condition holds.
    CallIf(Condition),
    /// Returns.
    Ret,
    /// Returns if the condition holds.
    RetIf(Condition),
    /// Calls the restart address `8 * n`, for `n` from 0 to 7.
    Rst(u8),
    /// Jumps to the address in HL.
    Pchl,
}

/// A stack, port or machine control instruction.
#[derive(Clone, Copy, PartialEq, Eq, Debug, Structural)]
pub enum Control {
    /// Pushes a register pair on the stack.
    Push(StackPair),
    /// Pops a register pair off the stack.
    Pop(StackPair),
    /// Exchanges HL with the word on top of the stack.
    Xthl,
    /// Loads the stack pointer from HL.
    Sphl,
    /// Reads the accumulator from the port whose number follows.
    In,
    /// Writes the accumulator to the port whose number follows.
    Out,
    /// Enables interrupts.
    Ei,
    /// Disables interrupts.
    Di,
    /// Halts until an interrupt is accepted.
    Hlt,
    /// Does nothing.
    Nop,
}

/// A documented instruction, in the four groups of the instruction set.
/// Operands that follow the opcode in memory are not part of it.
#[derive(Clone, Copy, PartialEq, Eq, Debug, Structural)]
pub enum Instruction {
    Transfer(Transfer),
    Arithmetic(Arithmetic),
    Branch(Branch),
    Control(Control),
}

impl Register {
    /// The three bits that name the operand in an opcode.
    pub open spec fn code(self) -> int {
        match self {
            Register::B => 0,
            Register::C => 1,
            Register::D => 2,
            Register::E => 3,
            Register::H => 4,
            Register::L => 5,
            Register::M => 6,
            Register::A => 7,
        }
    }

    /// The operand that a code names; a code above 7 names the last.
    pub open spec fn of_code(code: int) -> Register {
        if code == 0 {
            Register::B
        } else if code == 1 {
            Register::C
        } else if code == 2 {
            Register::D
        } else if code == 3 {
            Register::E
        } else if code == 4 {
            Register::H
        } else if code == 5 {
            Register::L
        } else if code == 6 {
            Register::M
        } else {
            Register::A
        }
    }

    /// The code that names the operand in an opcode.
    pub fn number(self) -> (r: u8)
        ensures
            r == self.code(),
    {
        match self {
            Register::B => 0,
            Register::C => 1,
            Register::D => 2,
            Register::E => 3,
            Register::H => 4,
            Register::L => 5,
            Register::M => 6,
            Register::A => 7,
        }
    }

    /// The operand that a code names.
    pub fn from_code(code: u8) -> (r: Register)
        ensures
            r == Register::of_code(code as int),
            code < 8 ==> r.code() == code,
    {
        match code {
            0 => Register::B,
            1 => Register::C,
            2 => Register::D,
            3 => Register::E,
            4 => Register::H,
            5 => Register::L,
            6 => Register::M,
            _ => Register::A,
        }
    }

    /// A operand is the one that its code names.
    pub proof fn lemma_code(self)
        ensures
            0 <= self.code() < 8,
            Register::of_code(self.code()) == self,
    {
    }

    /// Whether the operand is the byte of memory that HL addresses.
    pub fn is_memory(self) -> (r: bool)
        ensures
            r == (self is M),
    {
        match self {
            Register::M => true,
            _ => false,
        }
    }
}

impl RegisterPair {
    /// The two bits that name the pair in an opcode.
    pub open spec fn code(self) -> int {
        match self {
            RegisterPair::BC => 0,
            RegisterPair::DE => 1,
            RegisterPair::HL => 2,
            RegisterPair::SP => 3,
        }
    }

    /// The pair that a code names; a code above 3 names the last.
    pub open spec fn of_code(code: int) -> RegisterPair {
        if code == 0 {
            RegisterPair::BC
        } else if code == 1 {
            RegisterPair::DE
        } else if code == 2 {
            RegisterPair::HL
        } else {
            RegisterPair::SP
        }
    }

    /// The code that names the pair in an opcode.
    pub fn number(self) -> (r: u8)
        ensures
            r == self.code(),
    {
        match self {
            RegisterPair::BC => 0,
            RegisterPair::DE => 1,
            RegisterPair::HL => 2,
            RegisterPair::SP => 3,
        }
    }

    /// The pair that a code names.
    pub fn from_code(code: u8) -> (r: RegisterPair)
        ensures
            r == RegisterPair::of_code(code as int),
            code < 4 ==> r.code() == code,
    {
        match code {
            0 => RegisterPair::BC,
            1 => RegisterPair::DE,
            2 => RegisterPair::HL,
            _ => RegisterPair::SP,
        }
    }

    /// A pair is the one that its code names.
    pub proof fn lemma_code(self)
        ensures
            0 <= self.code() < 4,
            RegisterPair::of_code(self.code()) == self,
    {
    }
}

impl StackPair {
    /// The two bits that name the pair in an opcode.
    pub open spec fn code(self) -> int {
        match self {
            StackPair::BC => 0,
            StackPair::DE => 1,
            StackPair::HL => 2,
            StackPair::PSW => 3,
        }
    }

    /// The pair that a code names; a code above 3 names the last.
    pub open spec fn of_code(code: int) -> StackPair {
        if code == 0 {
            StackPair::BC
        } else if code == 1 {
            StackPair::DE
        } else if code == 2 {
            StackPair::HL
        } else {
            StackPair::PSW
        }
    }

    /// The code that names the pair in an opcode.
    pub fn number(self) -> (r: u8)
        ensures
            r == self.code(),
    {
        match self {
            StackPair::BC => 0,
            StackPair::DE => 1,
            StackPair::HL => 2,
            StackPair::PSW => 3,
        }
    }

    /// The pair that a code names.
    pub fn from_code(code: u8) -> (r: StackPair)
        ensures
            r == StackPair::of_code(code as int),
            code < 4 ==> r.code() == code,
    {
        match code {
            0 => StackPair::BC,
            1 => StackPair::DE,
            2 => StackPair::HL,
            _ => StackPair::PSW,
        }
    }

    /// A pair is the one that its code names.
    pub proof fn lemma_code(self)
        ensures
            0 <= self.code() < 4,
            StackPair::of_code(self.code()) == self,
    {
    }
}

impl IndexPair {
    /// The bit that names the pair in an opcode.
    pub open spec fn code(self) -> int {
        match self {
            IndexPair::BC => 0,
            IndexPair::DE => 1,
        }
    }

    /// The code that names the pair in an opcode.
    pub fn number(self) -> (r: u8)
        ensures
            r == self.code(),
    {
        match self {
            IndexPair::BC => 0,
            IndexPair::DE => 1,
        }
    }

    /// The code is one bit.
    pub proof fn lemma_code(self)
        ensures
            0 <= self.code() < 2,
    {
    }
}

impl Condition {
    /// The three bits that name the condition in an opcode.
    pub open spec fn code(self) -> int {
        match self {
            Condition::NotZero => 0,
            Condition::Zero => 1,
            Condition::NoCarry => 2,
            Condition::Carry => 3,
            Condition::ParityOdd => 4,
            Condition::ParityEven => 5,
            Condition::Plus => 6,
            Condition::Minus => 7,
        }
    }

    /// The condition that a code names; a code above 7 names the last.
    pub open spec fn of_code(code: int) -> Condition {
        if code == 0 {
            Condition::NotZero
        } else if code == 1 {
            Condition::Zero
        } else if code == 2 {
            Condition::NoCarry
        } else if code == 3 {
            Condition::Carry
        } else if code == 4 {
            Condition::ParityOdd
        } else if code == 5 {
            Condition::ParityEven
        } else if code == 6 {
            Condition::Plus
        } else {
            Condition::Minus
        }
    }

    /// The code that names the condition in an opcode.
    pub fn number(self) -> (r: u8)
        ensures
            r == self.code(),
    {
        match self {
            Condition::NotZero => 0,
            Condition::Zero => 1,
            Condition::NoCarry => 2,
            Condition::Carry => 3,
            Condition::ParityOdd => 4,
            Condition::ParityEven => 5,
            Condition::Plus => 6,
            Condition::Minus => 7,
        }
    }

    /// The condition that a code names.
    pub fn from_code(code: u8) -> (r: Condition)
        ensures
            r == Condition::of_code(code as int),
            code < 8 ==> r.code() == code,
    {
        match code {
            0 => Condition::NotZero,
            1 => Condition::Zero,
            2 => Condition::NoCarry,
            3 => Condition::Carry,
            4 => Condition::ParityOdd,
            5 => Condition::ParityEven,
            6 => Condition::Plus,
            _ => Condition::Minus,
        }
    }

    /// A condition is the one that its code names.
    pub proof fn lemma_code(self)
        ensures
            0 <= self.code() < 8,
            Condition::of_code(self.code()) == self,
    {
    }

    /// Whether the condition holds of the flags.
    pub open spec fn holds(self, flags: Flags) -> bool {
        match self {
            Condition::NotZero => !flags.zero,
            Condition::Zero => flags.zero,
            Condition::NoCarry => !flags.carry,
            Condition::Carry => flags.carry,
            Condition::ParityOdd => !flags.parity,
            Condition::ParityEven => flags.parity,
            Condition::Plus => !flags.sign,
            Condition::Minus => flags.sign,
        }
    }

    /// Whether the condition holds of the flags.
    pub fn test(self, flags: &Flags) -> (r: bool)
        ensures
            r == self.holds(*flags),
    {
        match self {
            Condition::NotZero => !flags.zero,
            Condition::Zero => flags.zero,
            Condition::NoCarry => !flags.carry,
            Condition::Carry => flags.carry,
            Condition::ParityOdd => !flags.parity,
            Condition::ParityEven => flags.parity,
            Condition::Plus => !flags.sign,
            Condition::Minus => flags.sign,
        }
    }
}

impl Transfer {
    /// Whether the value names an instruction of the processor: a move
    /// from memory to memory does not exist.
    pub open spec fn valid(self) -> bool {
        match self {
            Transfer::Mov(to, from) => !(to is M && from is M),
            _ => true,
        }
    }

    /// The opcode byte of the instruction.
    pub open spec fn encoding(self) -> int {
        match self {
            Transfer::Mov(to, from) => 0x40 + 8 * to.code() + from.code(),
            Transfer::Mvi(r) => 0x06 + 8 * r.code(),
            Transfer::Lxi(pair) => 0x01 + 16 * pair.code(),
            Transfer::Lda => 0x3a,
            Transfer::Sta => 0x32,
            Transfer::Lhld => 0x2a,
            Transfer::Shld => 0x22,
            Transfer::Ldax(pair) => 0x0a + 16 * pair.code(),
            Transfer::Stax(pair) => 0x02 + 16 * pair.code(),
            Transfer::Xchg => 0xeb,
        }
    }

    /// The number of bytes of the instruction, opcode and operands.
    pub open spec fn length(self) -> int {
        match self {
            Transfer::Lxi(_)
            | Transfer::Lda
            | Transfer::Sta
            | Transfer::Lhld
            | Transfer::Shld => 3,
            Transfer::Mvi(_) => 2,
            _ => 1,
        }
    }

    /// The clock cycles that the instruction takes; one that reaches memory
    /// through `M` takes more than the same on a register.
    pub open spec fn cycles(self) -> u8 {
        match self {
            Transfer::Mov(to, from) => if to is M || from is M {
                7
            } else {
                5
            },
            Transfer::Mvi(r) => if r is M {
                10
            } else {
                7
            },
            Transfer::Lxi(_) => 10,
            Transfer::Lda => 13,
            Transfer::Sta => 13,
            Transfer::Lhld => 16,
            Transfer::Shld => 16,
            Transfer::Ldax(_) => 7,
            Transfer::Stax(_) => 7,
            Transfer::Xchg => 4,
        }
    }

    /// The opcode byte of the instruction.
    pub fn opcode(self) -> (r: u8)
        requires
            self.valid(),
        ensures
            r == self.encoding(),
    {
        match self {
            Transfer::Mov(to, from) => 0x40 + 8 * to.number() + from.number(),
            Transfer::Mvi(r) => 0x06 + 8 * r.number(),
            Transfer::Lxi(pair) => 0x01 + 16 * pair.number(),
            Transfer::Lda => 0x3a,
            Transfer::Sta => 0x32,
            Transfer::Lhld => 0x2a,
            Transfer::Shld => 0x22,
            Transfer::Ldax(pair) => 0x0a + 16 * pair.number(),
            Transfer::Stax(pair) => 0x02 + 16 * pair.number(),
            Transfer::Xchg => 0xeb,
        }
    }

    /// The clock cycles that the instruction takes.
    pub fn cycle_count(self) -> (r: u8)
        ensures
            r == self.cycles(),
            MIN_INSTRUCTION_CYCLES <= r <= MAX_INSTRUCTION_CYCLES,
    {
        match self {
            Transfer::Mov(to, from) => if to.is_memory() || from.is_memory() {
                7
            } else {
                5
            },
            Transfer::Mvi(r) => if r.is_memory() {
                10
            } else {
                7
            },
            Transfer::Lxi(_) => 10,
            Transfer::Lda => 13,
            Transfer::Sta => 13,
            Transfer::Lhld => 16,
            Transfer::Shld => 16,
            Transfer::Ldax(_) => 7,
            Transfer::Stax(_) => 7,
            Transfer::Xchg => 4,
        }
    }
}

impl Arithmetic {
    /// Whether the value names an instruction of the processor; every
    /// value of this group does.
    pub open spec fn valid(self) -> bool {
        true
    }

    /// The opcode byte of the instruction.
    pub open spec fn encoding(self) -> int {
        match self {
            Arithmetic::Alu(operation, r) => 0x80 + 8 * operation.code() + r.code(),
            Arithmetic::AluImmediate(operation) => 0xc6 + 8 * operation.code(),
            Arithmetic::Inr(r) => 0x04 + 8 * r.code(),
            Arithmetic::Dcr(r) => 0x05 + 8 * r.code(),
            Arithmetic::Inx(pair) => 0x03 + 16 * pair.code(),
            Arithmetic::Dcx(pair) => 0x0b + 16 * pair.code(),
            Arithmetic::Dad(pair) => 0x09 + 16 * pair.code(),
            Arithmetic::Daa => 0x27,
            Arithmetic::Rotate(rotation) => 0x07 + 8 * rotation.code(),
            Arithmetic::Cma => 0x2f,
            Arithmetic::Cmc => 0x3f,
            Arithmetic::Stc => 0x37,
        }
    }

    /// The number of bytes of the instruction, opcode and operands.
    pub open spec fn length(self) -> int {
        match self {
            Arithmetic::AluImmediate(_) => 2,
            _ => 1,
        }
    }

    /// The clock cycles that the instruction takes; one that reaches memory
    /// through `M` takes more than the same on a register.
    pub open spec fn cycles(self) -> u8 {
        match self {
            Arithmetic::Alu(_, r) => if r is M {
                7
            } else {
                4
            },
            Arithmetic::AluImmediate(_) => 7,
            Arithmetic::Inr(r) => if r is M {
                10
            } else {
                5
            },
            Arithmetic::Dcr(r) => if r is M {
                10
            } else {
                5
            },
            Arithmetic::Inx(_) => 5,
            Arithmetic::Dcx(_) => 5,
            Arithmetic::Dad(_) => 10,
            Arithmetic::Daa => 4,
            Arithmetic::Rotate(_) => 4,
            Arithmetic::Cma => 4,
            Arithmetic::Cmc => 4,
            Arithmetic::Stc => 4,
        }
    }

    /// The opcode byte of the instruction.
    pub fn opcode(self) -> (r: u8)
        requires
            self.valid(),
        ensures
            r == self.encoding(),
    {
        match self {
            Arithmetic::Alu(operation, r) => 0x80 + 8 * operation.number() + r.number(),
            Arithmetic::AluImmediate(operation) => 0xc6 + 8 * operation.number(),
            Arithmetic::Inr(r) => 0x04 + 8 * r.number(),
            Arithmetic::Dcr(r) => 0x05 + 8 * r.number(),
            Arithmetic::Inx(pair) => 0x03 + 16 * pair.number(),
            Arithmetic::Dcx(pair) => 0x0b + 16 * pair.number(),
            Arithmetic::Dad(pair) => 0x09 + 16 * pair.number(),
            Arithmetic::Daa => 0x27,
            Arithmetic::Rotate(rotation) => 0x07 + 8 * rotation.number(),
            Arithmetic::Cma => 0x2f,
            Arithmetic::Cmc => 0x3f,
            Arithmetic::Stc => 0x37,
        }
    }

    /// The clock cycles that the instruction takes.
    pub fn cycle_count(self) -> (r: u8)
        ensures
            r == self.cycles(),
            MIN_INSTRUCTION_CYCLES <= r <= MAX_INSTRUCTION_CYCLES,
    {
        match self {
            Arithmetic::Alu(_, r) => if r.is_memory() {
                7
            } else {
                4
            },
            Arithmetic::AluImmediate(_) => 7,
            Arithmetic::Inr(r) => if r.is_memory() {
                10
            } else {
                5
            },
            Arithmetic::Dcr(r) => if r.is_memory() {
                10
            } else {
                5
            },
            Arithmetic::Inx(_) => 5,
            Arithmetic::Dcx(_) => 5,
            Arithmetic::Dad(_) => 10,
            Arithmetic::Daa => 4,
            Arithmetic::Rotate(_) => 4,
            Arithmetic::Cma => 4,
            Arithmetic::Cmc => 4,
            Arithmetic::Stc => 4,
        }
    }
}

impl Branch {
    /// Whether the value names an instruction of the processor: there are
    /// eight restarts.
    pub open spec fn valid(self) -> bool {
        match self {
            Branch::Rst(n) => n < 8,
            _ => true,
        }
    }

    /// The condition that the instruction waits on, if it waits on one.
    pub open spec fn condition(self) -> Option<Condition> {
        match self {
            Branch::JmpIf(condition) => Some(condition),
            Branch::CallIf(condition) => Some(condition),
            Branch::RetIf(condition) => Some(condition),
            _ => None,
        }
    }

    /// The opcode byte of the instruction.
    pub open spec fn encoding(self) -> int {
        match self {
            Branch::Jmp => 0xc3,
            Branch::JmpIf(condition) => 0xc2 + 8 * condition.code(),
            Branch::Call => 0xcd,
            Branch::CallIf(condition) => 0xc4 + 8 * condition.code(),
            Branch::Ret => 0xc9,
            Branch::RetIf(condition) => 0xc0 + 8 * condition.code(),
            Branch::Rst(n) => 0xc7 + 8 * n,
            Branch::Pchl => 0xe9,
        }
    }

    /// The number of bytes of the instruction, opcode and operands.
    pub open spec fn length(self) -> int {
        match self {
            Branch::Jmp | Branch::JmpIf(_) | Branch::Call | Branch::CallIf(_) => 3,
            _ => 1,
        }
    }

    /// The clock cycles that the instruction takes. A conditional call or
    /// return takes six more when it is `taken`.
    pub open spec fn cycles(self, taken: bool) -> u8 {
        match self {
            Branch::Jmp => 10,
            Branch::JmpIf(_) => 10,
            Branch::Call => 17,
            Branch::CallIf(_) => if taken {
                17
            } else {
                11
            },
            Branch::Ret => 10,
            Branch::RetIf(_) => if taken {
                11
            } else {
                5
            },
            Branch::Rst(_) => 11,
            Branch::Pchl => 5,
        }
    }

    /// The opcode byte of the instruction.
    pub fn opcode(self) -> (r: u8)
        requires
            self.valid(),
        ensures
            r == self.encoding(),
    {
        match self {
            Branch::Jmp => 0xc3,
            Branch::JmpIf(condition) => 0xc2 + 8 * condition.number(),
            Branch::Call => 0xcd,
            Branch::CallIf(condition) => 0xc4 + 8 * condition.number(),
            Branch::Ret => 0xc9,
            Branch::RetIf(condition) => 0xc0 + 8 * condition.number(),
            Branch::Rst(n) => 0xc7 + 8 * n,
            Branch::Pchl => 0xe9,
        }
    }

    /// The clock cycles that the instruction takes.
    pub fn cycle_count(self, taken: bool) -> (r: u8)
        ensures
            r == self.cycles(taken),
            MIN_INSTRUCTION_CYCLES <= r <= MAX_INSTRUCTION_CYCLES,
    {
        match self {
            Branch::Jmp => 10,
            Branch::JmpIf(_) => 10,
            Branch::Call => 17,
            Branch::CallIf(_) => if taken {
                17
            } else {
                11
            },
            Branch::Ret => 10,
            Branch::RetIf(_) => if taken {
                11
            } else {
                5
            },
            Branch::Rst(_) => 11,
            Branch::Pchl => 5,
        }
    }
}

impl Control {
    /// Whether the value names an instruction of the processor; every
    /// value of this group does.
    pub open spec fn valid(self) -> bool {
        true
    }

    /// The opcode byte of the instruction.
    pub open spec fn encoding(self) -> int {
        match self {
            Control::Push(pair) => 0xc5 + 16 * pair.code(),
            Control::Pop(pair) => 0xc1 + 16 * pair.code(),
            Control::Xthl => 0xe3,
            Control::Sphl => 0xf9,
            Control::In => 0xdb,
            Control::Out => 0xd3,
            Control::Ei => 0xfb,
            Control::Di => 0xf3,
            Control::Hlt => 0x76,
            Control::Nop => 0x00,
        }
    }

    /// The number of bytes of the instruction, opcode and operands.
    pub open spec fn length(self) -> int {
        match self {
            Control::In | Control::Out => 2,
            _ => 1,
        }
    }

    /// The clock cycles that the instruction takes.
    pub open spec fn cycles(self) -> u8 {
        match self {
            Control::Push(_) => 11,
            Control::Pop(_) => 10,
            Control::Xthl => 18,
            Control::Sphl => 5,
            Control::In => 10,
            Control::Out => 10,
            Control::Ei => 4,
            Control::Di => 4,
            Control::Hlt => 7,
            Control::Nop => 4,
        }
    }

    /// The opcode byte of the instruction.
    pub fn opcode(self) -> (r: u8)
        requires
            self.valid(),
        ensures
            r == self.encoding(),
    {
        match self {
            Control::Push(pair) => 0xc5 + 16 * pair.number(),
            Control::Pop(pair) => 0xc1 + 16 * pair.number(),
            Control::Xthl => 0xe3,
            Control::Sphl => 0xf9,
            Control::In => 0xdb,
            Control::Out => 0xd3,
            Control::Ei => 0xfb,
            Control::Di => 0xf3,
            Control::Hlt => 0x76,
            Control::Nop => 0x00,
        }
    }

    /// The clock cycles that the instruction takes.
    pub fn cycle_count(self) -> (r: u8)
        ensures
            r == self.cycles(),
            MIN_INSTRUCTION_CYCLES <= r <= MAX_INSTRUCTION_CYCLES,
    {
        match self {
            Control::Push(_) => 11,
            Control::Pop(_) => 10,
            Control::Xthl => 18,
            Control::Sphl => 5,
            Control::In => 10,
            Control::Out => 10,
            Control::Ei => 4,
            Control::Di => 4,
            Control::Hlt => 7,
            Control::Nop => 4,
        }
    }
}

impl Instruction {
    /// Whether the value names an instruction of the processor.
    pub open spec fn valid(self) -> bool {
        match self {
            Instruction::Transfer(i) => i.valid(),
            Instruction::Arithmetic(i) => i.valid(),
            Instruction::Branch(i) => i.valid(),
            Instruction::Control(i) => i.valid(),
        }
    }

    /// The opcode byte of the instruction.
    pub open spec fn encoding(self) -> int {
        match self {
            Instruction::Transfer(i) => i.encoding(),
            Instruction::Arithmetic(i) => i.encoding(),
            Instruction::Branch(i) => i.encoding(),
            Instruction::Control(i) => i.encoding(),
        }
    }

    /// The number of bytes of the instruction, opcode and operands.
    pub open spec fn length(self) -> int {
        match self {
            Instruction::Transfer(i) => i.length(),
            Instruction::Arithmetic(i) => i.length(),
            Instruction::Branch(i) => i.length(),
            Instruction::Control(i) => i.length(),
        }
    }

    /// The clock cycles that the instruction takes; `taken` says whether
    /// the condition of a conditional instruction holds.
    pub open spec fn cycles(self, taken: bool) -> u8 {
        match self {
            Instruction::Transfer(i) => i.cycles(),
            Instruction::Arithmetic(i) => i.cycles(),
            Instruction::Branch(i) => i.cycles(taken),
            Instruction::Control(i) => i.cycles(),
        }
    }

    /// The opcode byte of the instruction.
    pub fn opcode(self) -> (r: u8)
        requires
            self.valid(),
        ensures
            r == self.encoding(),
    {
        match self {
            Instruction::Transfer(i) => i.opcode(),
            Instruction::Arithmetic(i) => i.opcode(),
            Instruction::Branch(i) => i.opcode(),
            Instruction::Control(i) => i.opcode(),
        }
    }

    /// The clock cycles that the instruction takes.
    pub fn cycle_count(self, taken: bool) -> (r: u8)
        ensures
            r == self.cycles(taken),
            MIN_INSTRUCTION_CYCLES <= r <= MAX_INSTRUCTION_CYCLES,
    {
        match self {
            Instruction::Transfer(i) => i.cycle_count(),
            Instruction::Arithmetic(i) => i.cycle_count(),
            Instruction::Branch(i) => i.cycle_count(taken),
            Instruction::Control(i) => i.cycle_count(),
        }
    }
}

/// The instruction that an opcode byte encodes, read off its bit fields:
/// the top two bits choose a quarter of the opcodes, the middle three and
/// the low three name operands or, in the mixed quarters, the instruction
/// itself. Twelve opcodes encode no documented instruction.
pub open spec fn decoded(opcode: u8) -> Option<Instruction> {
    let quarter = opcode / 64;
    let middle = (opcode / 8) % 8;
    let low = opcode % 8;
    if quarter == 0 {
        decoded_first_quarter(middle as int, low as int)
    } else if quarter == 1 {
        if opcode == 0x76 {
            control(Control::Hlt)
        } else {
            transfer(Transfer::Mov(Register::of_code(middle as int), Register::of_code(low as int)))
        }
    } else if quarter == 2 {
        arithmetic(
            Arithmetic::Alu(AluOperation::of_code(middle as int), Register::of_code(low as int)),
        )
    } else {
        decoded_last_quarter(middle as int, low as int)
    }
}

/// A data transfer instruction as a decoded instruction.
pub open spec fn transfer(i: Transfer) -> Option<Instruction> {
    Some(Instruction::Transfer(i))
}

/// An arithmetic or logical instruction as a decoded instruction.
pub open spec fn arithmetic(i: Arithmetic) -> Option<Instruction> {
    Some(Instruction::Arithmetic(i))
}

/// A jump, call or return as a decoded instruction.
pub open spec fn branch(i: Branch) -> Option<Instruction> {
    Some(Instruction::Branch(i))
}

/// A stack, port or machine control instruction as a decoded instruction.
pub open spec fn control(i: Control) -> Option<Instruction> {
    Some(Instruction::Control(i))
}

/// The instructions of the opcodes 0x00 to 0x3f.
pub open spec fn decoded_first_quarter(middle: int, low: int) -> Option<Instruction> {
    if low == 0 {
        if middle == 0 {
            control(Control::Nop)
        } else {
            None
        }
    } else if low == 1 {
        if middle % 2 == 0 {
            transfer(Transfer::Lxi(RegisterPair::of_code(middle / 2)))
        } else {
            arithmetic(Arithmetic::Dad(RegisterPair::of_code(middle / 2)))
        }
    } else if low == 2 {
        if middle == 0 {
            transfer(Transfer::Stax(IndexPair::BC))
        } else if middle == 1 {
            transfer(Transfer::Ldax(IndexPair::BC))
        } else if middle == 2 {
            transfer(Transfer::Stax(IndexPair::DE))
        } else if middle == 3 {
            transfer(Transfer::Ldax(IndexPair::DE))
        } else if middle == 4 {
            transfer(Transfer::Shld)
        } else if middle == 5 {
            transfer(Transfer::Lhld)
        } else if middle == 6 {
            transfer(Transfer::Sta)
        } else {
            transfer(Transfer::Lda)
        }
    } else if low == 3 {
        if middle % 2 == 0 {
            arithmetic(Arithmetic::Inx(RegisterPair::of_code(middle / 2)))
        } else {
            arithmetic(Arithmetic::Dcx(RegisterPair::of_code(middle / 2)))
        }
    } else if low == 4 {
        arithmetic(Arithmetic::Inr(Register::of_code(middle)))
    } else if low == 5 {
        arithmetic(Arithmetic::Dcr(Register::of_code(middle)))
    } else if low == 6 {
        transfer(Transfer::Mvi(Register::of_code(middle)))
    } else if middle < 4 {
        arithmetic(Arithmetic::Rotate(Rotation::of_code(middle)))
    } else if middle == 4 {
        arithmetic(Arithmetic::Daa)
    } else if middle == 5 {
        arithmetic(Arithmetic::Cma)
    } else if middle == 6 {
        arithmetic(Arithmetic::Stc)
    } else {
        arithmetic(Arithmetic::Cmc)
    }
}

/// The instructions of the opcodes 0xc0 to 0xff.
pub open spec fn decoded_last_quarter(middle: int, low: int) -> Option<Instruction> {
    if low == 0 {
        branch(Branch::RetIf(Condition::of_code(middle)))
    } else if low == 1 {
        if middle % 2 == 0 {
            control(Control::Pop(StackPair::of_code(middle / 2)))
        } else if middle == 1 {
            branch(Branch::Ret)
        } else if middle == 5 {
            branch(Branch::Pchl)
        } else if middle == 7 {
            control(Control::Sphl)
        } else {
            None
        }
    } else if low == 2 {
        branch(Branch::JmpIf(Condition::of_code(middle)))
    } else if low == 3 {
        if middle == 0 {
            branch(Branch::Jmp)
        } else if middle == 1 {
            None
        } else if middle == 2 {
            control(Control::Out)
        } else if middle == 3 {
            control(Control::In)
        } else if middle == 4 {
            control(Control::Xthl)
        } else if middle == 5 {
            transfer(Transfer::Xchg)
        } else if middle == 6 {
            control(Control::Di)
        } else {
            control(Control::Ei)
        }
    } else if low == 4 {
        branch(Branch::CallIf(Condition::of_code(middle)))
    } else if low == 5 {
        if middle % 2 == 0 {
            control(Control::Push(StackPair::of_code(middle / 2)))
        } else if middle == 1 {
            branch(Branch::Call)
        } else {
            None
        }
    } else if low == 6 {
        arithmetic(Arithmetic::AluImmediate(AluOperation::of_code(middle)))
    } else {
        branch(Branch::Rst(middle as u8))
    }
}

/// Decodes an opcode byte; `None` for the twelve bytes that encode no
/// documented instruction.
pub fn decode(opcode: u8) -> (r: Option<Instruction>)
    ensures
        r == decoded(opcode),
{
    let quarter: u8 = opcode >> 6;
    let middle: u8 = (opcode >> 3) & 0x07;
    let low: u8 = opcode & 0x07;
    assert(opcode >> 6 == opcode / 64 && (opcode >> 3) & 0x07 == (opcode / 8) % 8 && opcode & 0x07
        == opcode % 8) by (bit_vector);
    match quarter {
        0 => decode_first_quarter(middle, low),
        1 => {
            if opcode == 0x76 {
                Some(Instruction::Control(Control::Hlt))
            } else {
                let to = Register::from_code(middle);
                let from = Register::from_code(low);
                Some(Instruction::Transfer(Transfer::Mov(to, from)))
            }
        },
        2 => {
            let operation = AluOperation::from_code(middle);
            let operand = Register::from_code(low);
            Some(Instruction::Arithmetic(Arithmetic::Alu(operation, operand)))
        },
        _ => decode_last_quarter(middle, low),
    }
}

fn decode_first_quarter(middle: u8, low: u8) -> (r: Option<Instruction>)
    requires
        middle < 8,
        low < 8,
    ensures
        r == decoded_first_quarter(middle as int, low as int),
{
    let pair = RegisterPair::from_code(middle / 2);
    let operand = Register::from_code(middle);
    match low {
        0 => if middle == 0 {
            Some(Instruction::Control(Control::Nop))
        } else {
            None
        },
        1 => if middle % 2 == 0 {
            Some(Instruction::Transfer(Transfer::Lxi(pair)))
        } else {
            Some(Instruction::Arithmetic(Arithmetic::Dad(pair)))
        },
        2 => Some(
            Instruction::Transfer(
                match middle {
                    0 => Transfer::Stax(IndexPair::BC),
                    1 => Transfer::Ldax(IndexPair::BC),
                    2 => Transfer::Stax(IndexPair::DE),
                    3 => Transfer::Ldax(IndexPair::DE),
                    4 => Transfer::Shld,
                    5 => Transfer::Lhld,
                    6 => Transfer::Sta,
                    _ => Transfer::Lda,
                },
            ),
        ),
        3 => if middle % 2 == 0 {
            Some(Instruction::Arithmetic(Arithmetic::Inx(pair)))
        } else {
            Some(Instruction::Arithmetic(Arithmetic::Dcx(pair)))
        },
        4 => Some(Instruction::Arithmetic(Arithmetic::Inr(operand))),
        5 => Some(Instruction::Arithmetic(Arithmetic::Dcr(operand))),
        6 => Some(Instruction::Transfer(Transfer::Mvi(operand))),
        _ => Some(
            Instruction::Arithmetic(
                match middle {
                    4 => Arithmetic::Daa,
                    5 => Arithmetic::Cma,
                    6 => Arithmetic::Stc,
                    7 => Arithmetic::Cmc,
                    _ => Arithmetic::Rotate(Rotation::from_code(middle)),
                },
            ),
        ),
    }
}

fn decode_last_quarter(middle: u8, low: u8) -> (r: Option<Instruction>)
    requires
        middle < 8,
        low < 8,
    ensures
        r == decoded_last_quarter(middle as int, low as int),
{
    let pair = StackPair::from_code(middle / 2);
    let condition = Condition::from_code(middle);
    match low {
        0 => Some(Instruction::Branch(Branch::RetIf(condition))),
        1 => match middle {
            1 => Some(Instruction::Branch(Branch::Ret)),
            3 => None,
            5 => Some(Instruction::Branch(Branch::Pchl)),
            7 => Some(Instruction::Control(Control::Sphl)),
            _ => Some(Instruction::Control(Control::Pop(pair))),
        },
        2 => Some(Instruction::Branch(Branch::JmpIf(condition))),
        3 => match middle {
            0 => Some(Instruction::Branch(Branch::Jmp)),
            1 => None,
            2 => Some(Instruction::Control(Control::Out)),
            3 => Some(Instruction::Control(Control::In)),
            4 => Some(Instruction::Control(Control::Xthl)),
            5 => Some(Instruction::Transfer(Transfer::Xchg)),
            6 => Some(Instruction::Control(Control::Di)),
            _ => Some(Instruction::Control(Control::Ei)),
        },
        4 => Some(Instruction::Branch(Branch::CallIf(condition))),
        5 => match middle {
            1 => Some(Instruction::Branch(Branch::Call)),
            3 | 5 | 7 => None,
            _ => Some(Instruction::Control(Control::Push(pair))),
        },
        6 => {
            let operation = AluOperation::from_code(middle);
            Some(Instruction::Arithmetic(Arithmetic::AluImmediate(operation)))
        },
        _ => Some(Instruction::Branch(Branch::Rst(middle))),
    }
}

/// The three bit fields of an opcode put together from their values.
proof fn lemma_fields(quarter: int, middle: int, low: int)
    requires
        0 <= quarter < 4,
        0 <= middle < 8,
        0 <= low < 8,
    ensures
        ({
            let opcode = (64 * quarter + 8 * middle + low) as u8;
            &&& opcode == 64 * quarter + 8 * middle + low
            &&& opcode / 64 == quarter
            &&& (opcode / 8) % 8 == middle
            &&& opcode % 8 == low
        }),
{
}

/// Decoding gives back a data transfer instruction that was encoded.
pub proof fn lemma_decode_of_transfer(instruction: Transfer)
    requires
        instruction.valid(),
    ensures
        0 <= instruction.encoding() < 256,
        decoded(instruction.encoding() as u8) == transfer(instruction),
{
    match instruction {
        Transfer::Mov(to, from) => {
            to.lemma_code();
            from.lemma_code();
            lemma_fields(1, to.code(), from.code());
        },
        Transfer::Mvi(r) => {
            r.lemma_code();
            lemma_fields(0, r.code(), 6);
            assert(decoded_first_quarter(r.code(), 6) == transfer(instruction));
        },
        Transfer::Lxi(pair) => {
            pair.lemma_code();
            lemma_fields(0, 2 * pair.code(), 1);
            assert(decoded_first_quarter(2 * pair.code(), 1) == transfer(instruction));
        },
        Transfer::Lda => {
            lemma_fields(0, 7, 2);
            assert(decoded_first_quarter(7, 2) == transfer(instruction));
        },
        Transfer::Sta => {
            lemma_fields(0, 6, 2);
            assert(decoded_first_quarter(6, 2) == transfer(instruction));
        },
        Transfer::Lhld => {
            lemma_fields(0, 5, 2);
            assert(decoded_first_quarter(5, 2) == transfer(instruction));
        },
        Transfer::Shld => {
            lemma_fields(0, 4, 2);
            assert(decoded_first_quarter(4, 2) == transfer(instruction));
        },
        Transfer::Ldax(pair) => {
            pair.lemma_code();
            lemma_fields(0, 2 * pair.code() + 1, 2);
            assert(decoded_first_quarter(2 * pair.code() + 1, 2) == transfer(instruction));
        },
        Transfer::Stax(pair) => {
            pair.lemma_code();
            lemma_fields(0, 2 * pair.code(), 2);
            assert(decoded_first_quarter(2 * pair.code(), 2) == transfer(instruction));
        },
        Transfer::Xchg => {
            lemma_fields(3, 5, 3);
            assert(decoded_last_quarter(5, 3) == transfer(instruction));
        },
    }
}

/// Decoding gives back an arithmetic or logical instruction that was encoded.
pub proof fn lemma_decode_of_arithmetic(instruction: Arithmetic)
    requires
        instruction.valid(),
    ensures
        0 <= instruction.encoding() < 256,
        decoded(instruction.encoding() as u8) == arithmetic(instruction),
{
    match instruction {
        Arithmetic::Alu(operation, r) => {
            operation.lemma_code();
            r.lemma_code();
            lemma_fields(2, operation.code(), r.code());
        },
        Arithmetic::AluImmediate(operation) => {
            operation.lemma_code();
            lemma_fields(3, operation.code(), 6);
            assert(decoded_last_quarter(operation.code(), 6) == arithmetic(instruction));
        },
        Arithmetic::Inr(r) => {
            r.lemma_code();
            lemma_fields(0, r.code(), 4);
            assert(decoded_first_quarter(r.code(), 4) == arithmetic(instruction));
        },
        Arithmetic::Dcr(r) => {
            r.lemma_code();
            lemma_fields(0, r.code(), 5);
            assert(decoded_first_quarter(r.code(), 5) == arithmetic(instruction));
        },
        Arithmetic::Inx(pair) => {
            pair.lemma_code();
            lemma_fields(0, 2 * pair.code(), 3);
            assert(decoded_first_quarter(2 * pair.code(), 3) == arithmetic(instruction));
        },
        Arithmetic::Dcx(pair) => {
            pair.lemma_code();
            lemma_fields(0, 2 * pair.code() + 1, 3);
            assert(decoded_first_quarter(2 * pair.code() + 1, 3) == arithmetic(instruction));
        },
        Arithmetic::Dad(pair) => {
            pair.lemma_code();
            lemma_fields(0, 2 * pair.code() + 1, 1);
            assert(decoded_first_quarter(2 * pair.code() + 1, 1) == arithmetic(instruction));
        },
        Arithmetic::Daa => {
            lemma_fields(0, 4, 7);
            assert(decoded_first_quarter(4, 7) == arithmetic(instruction));
        },
        Arithmetic::Rotate(rotation) => {
            rotation.lemma_code();
            lemma_fields(0, rotation.code(), 7);
            assert(decoded_first_quarter(rotation.code(), 7) == arithmetic(instruction));
        },
        Arithmetic::Cma => {
            lemma_fields(0, 5, 7);
            assert(decoded_first_quarter(5, 7) == arithmetic(instruction));
        },
        Arithmetic::Cmc => {
            lemma_fields(0, 7, 7);
            assert(decoded_first_quarter(7, 7) == arithmetic(instruction));
        },
        Arithmetic::Stc => {
            lemma_fields(0, 6, 7);
            assert(decoded_first_quarter(6, 7) == arithmetic(instruction));
        },
    }
}

/// Decoding gives back a jump, call or return that was encoded.
pub proof fn lemma_decode_of_branch(instruction: Branch)
    requires
        instruction.valid(),
    ensures
        0 <= instruction.encoding() < 256,
        decoded(instruction.encoding() as u8) == branch(instruction),
{
    match instruction {
        Branch::Jmp => {
            lemma_fields(3, 0, 3);
            assert(decoded_last_quarter(0, 3) == branch(instruction));
        },
        Branch::JmpIf(condition) => {
            condition.lemma_code();
            lemma_fields(3, condition.code(), 2);
            assert(decoded_last_quarter(condition.code(), 2) == branch(instruction));
        },
        Branch::Call => {
            lemma_fields(3, 1, 5);
            assert(decoded_last_quarter(1, 5) == branch(instruction));
        },
        Branch::CallIf(condition) => {
            condition.lemma_code();
            lemma_fields(3, condition.code(), 4);
            assert(decoded_last_quarter(condition.code(), 4) == branch(instruction));
        },
        Branch::Ret => {
            lemma_fields(3, 1, 1);
            assert(decoded_last_quarter(1, 1) == branch(instruction));
        },
        Branch::RetIf(condition) => {
            condition.lemma_code();
            lemma_fields(3, condition.code(), 0);
            assert(decoded_last_quarter(condition.code(), 0) == branch(instruction));
        },
        Branch::Rst(n) => {
            lemma_fields(3, n as int, 7);
            assert(decoded_last_quarter(n as int, 7) == branch(instruction));
        },
        Branch::Pchl => {
            lemma_fields(3, 5, 1);
            assert(decoded_last_quarter(5, 1) == branch(instruction));
        },
    }
}

/// Decoding gives back a stack, port or machine control instruction that was encoded.
pub proof fn lemma_decode_of_control(instruction: Control)
    requires
        instruction.valid(),
    ensures
        0 <= instruction.encoding() < 256,
        decoded(instruction.encoding() as u8) == control(instruction),
{
    match instruction {
        Control::Push(pair) => {
            pair.lemma_code();
            lemma_fields(3, 2 * pair.code(), 5);
            assert(decoded_last_quarter(2 * pair.code(), 5) == control(instruction));
        },
        Control::Pop(pair) => {
            pair.lemma_code();
            lemma_fields(3, 2 * pair.code(), 1);
            assert(decoded_last_quarter(2 * pair.code(), 1) == control(instruction));
        },
        Control::Xthl => {
            lemma_fields(3, 4, 3);
            assert(decoded_last_quarter(4, 3) == control(instruction));
        },
        Control::Sphl => {
            lemma_fields(3, 7, 1);
            assert(decoded_last_quarter(7, 1) == control(instruction));
        },
        Control::In => {
            lemma_fields(3, 3, 3);
            assert(decoded_last_quarter(3, 3) == control(instruction));
        },
        Control::Out => {
            lemma_fields(3, 2, 3);
            assert(decoded_last_quarter(2, 3) == control(instruction));
        },
        Control::Ei => {
            lemma_fields(3, 7, 3);
            assert(decoded_last_quarter(7, 3) == control(instruction));
        },
        Control::Di => {
            lemma_fields(3, 6, 3);
            assert(decoded_last_quarter(6, 3) == control(instruction));
        },
        Control::Hlt => {
            lemma_fields(1, 6, 6);
        },
        Control::Nop => {
            lemma_fields(0, 0, 0);
            assert(decoded_first_quarter(0, 0) == control(instruction));
        },
    }
}

/// Decoding gives back the instruction that was encoded.
pub proof fn lemma_decode_of_encoding(instruction: Instruction)
    requires
        instruction.valid(),
    ensures
        0 <= instruction.encoding() < 256,
        decoded(instruction.encoding() as u8) == Some(instruction),
{
    match instruction {
        Instruction::Transfer(i) => lemma_decode_of_transfer(i),
        Instruction::Arithmetic(i) => lemma_decode_of_arithmetic(i),
        Instruction::Branch(i) => lemma_decode_of_branch(i),
        Instruction::Control(i) => lemma_decode_of_control(i),
    }
}

/// What decoding returns is a valid instruction whose encoding is the
/// opcode.
pub proof fn lemma_encoding_of_decoded(opcode: u8)
    ensures
        decoded(opcode) matches Some(instruction) ==> instruction.valid() && instruction.encoding()
            == opcode,
{
    let quarter = opcode / 64;
    let middle = (opcode / 8) % 8;
    let low = opcode % 8;
    assert(opcode == 64 * quarter + 8 * middle + low);
    assert(quarter < 4 && middle < 8 && low < 8);
}

/// An opcode decodes to nothing exactly when it is one of the twelve
/// listed, and exactly when no valid instruction is encoded by it.
pub proof fn lemma_undocumented_opcodes(opcode: u8)
    ensures
        decoded(opcode) is None <==> (opcode == 0x08 || opcode == 0x10 || opcode == 0x18 || opcode
            == 0x20 || opcode == 0x28 || opcode == 0x30 || opcode == 0x38 || opcode == 0xcb
            || opcode == 0xd9 || opcode == 0xdd || opcode == 0xed || opcode == 0xfd),
        decoded(opcode) is None <==> (forall|instruction: Instruction|
            instruction.valid() ==> #[trigger] instruction.encoding() != opcode),
{
    let quarter = opcode / 64;
    let middle = (opcode / 8) % 8;
    let low = opcode % 8;
    assert(opcode == 64 * quarter + 8 * middle + low);
    assert(quarter < 4 && middle < 8 && low < 8);
    if decoded(opcode) is None {
        assert forall|instruction: Instruction| instruction.valid() implies
            #[trigger] instruction.encoding() != opcode by {
            if instruction.encoding() == opcode {
                lemma_decode_of_encoding(instruction);
            }
        }
    } else {
        lemma_encoding_of_decoded(opcode);
        let instruction = decoded(opcode)->Some_0;
        assert(instruction.valid() && instruction.encoding() == opcode);
    }
}

/// Two valid instructions with the same encoding are the same instruction.
pub proof fn lemma_encoding_injective(first: Instruction, second: Instruction)
    requires
        first.valid(),
        second.valid(),
        first.encoding() == second.encoding(),
    ensures
        first == second,
{
    lemma_decode_of_encoding(first);
    lemma_decode_of_encoding(second);
}

} // verus!

//! The processor: its registers, what each instruction does to them and to
//! the bus, and the execution of one instruction at a time.

use vstd::prelude::*;
use crate::alu::{
    decimal_adjust, decimal_adjusted, decrement, decremented, increment, incremented, rotate,
    rotated, AluOperation, AluResult, Rotation,
};
use crate::bits::{get_high_byte, get_low_byte, high_byte, low_byte, make_word, word, wrap16};
use crate::error::EmulatorError;
use crate::flags::Flags;
use crate::instruction::{
    decode, decoded, Arithmetic, Branch, Condition, Control, IndexPair, Instruction, Register,
    RegisterPair, StackPair, Transfer, MAX_INSTRUCTION_CYCLES, MIN_INSTRUCTION_CYCLES,
};
use crate::memory::{Bus, Memory};

verus! {

/// The clock cycles that pass each time a halted processor is asked to
/// execute: it fetches nothing and waits.
pub const HALT_IDLE_CYCLES: u8 = 4;

/// The registers of the processor.
#[derive(Clone, Copy, PartialEq, Eq, Debug, Structural)]
pub struct Cpu {
    /// The accumulator.
    pub a: u8,
    pub b: u8,
    pub c: u8,
    pub d: u8,
    pub e: u8,
    pub h: u8,
    pub l: u8,
    /// The stack pointer.
    pub sp: u16,
    /// The program counter.
    pub pc: u16,
    /// The condition flags.
    pub flags: Flags,
    /// Whether an interrupt would be accepted.
    pub interrupt_enable: bool,
    /// Whether the processor has halted and waits for an interrupt.
    pub halted: bool,
}

/// The mathematical model of the whole machine: the processor and the bus
/// it is attached to.
pub struct Machine {
    pub cpu: Cpu,
    pub bus: Bus,
}

/// What one step of the machine yields: the machine afterwards and the
/// clock cycles that passed.
pub struct Step {
    pub machine: Machine,
    pub cycles: u8,
}

/// The machine that a processor and a memory make.
pub open spec fn machine(cpu: Cpu, memory: Memory) -> Machine {
    Machine { cpu, bus: memory@ }
}

impl Cpu {
    /// The processor at reset, about to execute at `pc`: registers and
    /// stack pointer zero, flags clear, interrupts disabled, running.
    pub open spec fn reset(pc: u16) -> Cpu {
        Cpu {
            a: 0,
            b: 0,
            c: 0,
            d: 0,
            e: 0,
            h: 0,
            l: 0,
            sp: 0,
            pc,
            flags: Flags::cleared(),
            interrupt_enable: false,
            halted: false,
        }
    }

    /// The value of a register pair; the first register is the high byte.
    pub open spec fn pair(self, p: RegisterPair) -> u16 {
        match p {
            RegisterPair::BC => word(self.b, self.c),
            RegisterPair::DE => word(self.d, self.e),
            RegisterPair::HL => word(self.h, self.l),
            RegisterPair::SP => self.sp,
        }
    }

    /// The processor after a register pair is given the value `w`.
    pub open spec fn with_pair(self, p: RegisterPair, w: u16) -> Cpu {
        match p {
            RegisterPair::BC => Cpu { b: high_byte(w), c: low_byte(w), ..self },
            RegisterPair::DE => Cpu { d: high_byte(w), e: low_byte(w), ..self },
            RegisterPair::HL => Cpu { h: high_byte(w), l: low_byte(w), ..self },
            RegisterPair::SP => Cpu { sp: w, ..self },
        }
    }

    /// The address in an index pair.
    pub open spec fn index(self, p: IndexPair) -> u16 {
        match p {
            IndexPair::BC => self.pair(RegisterPair::BC),
            IndexPair::DE => self.pair(RegisterPair::DE),
        }
    }

    /// The word that a push of the pair puts on the stack; for `PSW` the
    /// accumulator is the high byte and the status byte the low.
    pub open spec fn stack_pair(self, p: StackPair) -> u16 {
        match p {
            StackPair::BC => self.pair(RegisterPair::BC),
            StackPair::DE => self.pair(RegisterPair::DE),
            StackPair::HL => self.pair(RegisterPair::HL),
            StackPair::PSW => word(self.a, self.flags.status_byte()),
        }
    }

    /// The processor after a pop gives the pair the word `w`.
    pub open spec fn with_stack_pair(self, p: StackPair, w: u16) -> Cpu {
        match p {
            StackPair::BC => self.with_pair(RegisterPair::BC, w),
            StackPair::DE => self.with_pair(RegisterPair::DE, w),
            StackPair::HL => self.with_pair(RegisterPair::HL, w),
            StackPair::PSW => Cpu {
                a: high_byte(w),
                flags: Flags::from_status_byte(low_byte(w)),
                ..self
            },
        }
    }

    /// The processor with the accumulator and flags that an operation
    /// leaves.
    pub open spec fn with_result(self, result: AluResult) -> Cpu {
        Cpu { a: result.value, flags: result.flags, ..self }
    }

    /// The processor with other flags.
    pub open spec fn with_flags(self, flags: Flags) -> Cpu {
        Cpu { flags, ..self }
    }

    /// The processor about to execute at `pc`.
    pub open spec fn at(self, pc: u16) -> Cpu {
        Cpu { pc, ..self }
    }

    /// The processor with the program counter moved past `n` bytes.
    pub open spec fn advanced(self, n: int) -> Cpu {
        self.at(wrap16(self.pc + n))
    }

    /// Exchanges HL with DE.
    #[verifier::opaque]
    pub open spec fn after_xchg(self) -> Cpu {
        Cpu { d: self.h, e: self.l, h: self.d, l: self.e, ..self }.advanced(1)
    }

    /// Adds one to a register pair; no flag changes.
    #[verifier::opaque]
    pub open spec fn after_inx(self, p: RegisterPair) -> Cpu {
        self.with_pair(p, wrap16(self.pair(p) + 1)).advanced(1)
    }

    /// Subtracts one from a register pair; no flag changes.
    #[verifier::opaque]
    pub open spec fn after_dcx(self, p: RegisterPair) -> Cpu {
        self.with_pair(p, wrap16(self.pair(p) - 1)).advanced(1)
    }

    /// Adds a register pair to HL; the carry flag reports a sum above 65535
    /// and no other flag changes.
    #[verifier::opaque]
    pub open spec fn after_dad(self, p: RegisterPair) -> Cpu {
        let sum = self.pair(RegisterPair::HL) + self.pair(p);
        self.with_pair(RegisterPair::HL, wrap16(sum)).with_flags(
            Flags { carry: sum > 65535, ..self.flags },
        ).advanced(1)
    }

    /// Adjusts the accumulator to two decimal digits.
    #[verifier::opaque]
    pub open spec fn after_daa(self) -> Cpu {
        self.with_result(decimal_adjusted(self.a, self.flags)).advanced(1)
    }

    /// Rotates the accumulator by one bit; only the carry flag changes.
    #[verifier::opaque]
    pub open spec fn after_rotate(self, rotation: Rotation) -> Cpu {
        self.with_result(rotated(rotation, self.a, self.flags)).advanced(1)
    }

    /// Complements every bit of the accumulator; no flag changes.
    #[verifier::opaque]
    pub open spec fn after_cma(self) -> Cpu {
        Cpu { a: (255 - self.a) as u8, ..self }.advanced(1)
    }

    /// Complements the carry flag.
    #[verifier::opaque]
    pub open spec fn after_cmc(self) -> Cpu {
        self.with_flags(Flags { carry: !self.flags.carry, ..self.flags }).advanced(1)
    }

    /// Sets the carry flag.
    #[verifier::opaque]
    pub open spec fn after_stc(self) -> Cpu {
        self.with_flags(Flags { carry: true, ..self.flags }).advanced(1)
    }

    /// Continues at the address in HL.
    #[verifier::opaque]
    pub open spec fn after_pchl(self) -> Cpu {
        self.at(self.pair(RegisterPair::HL))
    }

    /// Loads the stack pointer from HL.
    #[verifier::opaque]
    pub open spec fn after_sphl(self) -> Cpu {
        self.with_pair(RegisterPair::SP, self.pair(RegisterPair::HL)).advanced(1)
    }

    /// Enables interrupts.
    #[verifier::opaque]
    pub open spec fn after_ei(self) -> Cpu {
        Cpu { interrupt_enable: true, ..self }.advanced(1)
    }

    /// Disables interrupts.
    #[verifier::opaque]
    pub open spec fn after_di(self) -> Cpu {
        Cpu { interrupt_enable: false, ..self }.advanced(1)
    }

    /// Halts the processor, with the program counter past the opcode.
    #[verifier::opaque]
    pub open spec fn after_hlt(self) -> Cpu {
        Cpu { halted: true, ..self }.advanced(1)
    }

    /// Does nothing but move to the next instruction.
    #[verifier::opaque]
    pub open spec fn after_nop(self) -> Cpu {
        self.advanced(1)
    }
}

impl Machine {
    /// The byte that follows the opcode.
    pub open spec fn operand8(self) -> u8 {
        self.bus.read(wrap16(self.cpu.pc + 1))
    }

    /// The word that follows the opcode, low byte first.
    pub open spec fn operand16(self) -> u16 {
        self.bus.read_word(wrap16(self.cpu.pc + 1))
    }

    /// The value of a register pair.
    pub open spec fn pair(self, p: RegisterPair) -> u16 {
        self.cpu.pair(p)
    }

    /// The value of an eight-bit operand.
    pub open spec fn register(self, r: Register) -> u8 {
        match r {
            Register::B => self.cpu.b,
            Register::C => self.cpu.c,
            Register::D => self.cpu.d,
            Register::E => self.cpu.e,
            Register::H => self.cpu.h,
            Register::L => self.cpu.l,
            Register::M => self.bus.read(self.pair(RegisterPair::HL)),
            Register::A => self.cpu.a,
        }
    }

    /// The machine with another processor state.
    pub open spec fn with_cpu(self, cpu: Cpu) -> Machine {
        Machine { cpu, ..self }
    }

    /// The machine with another bus.
    pub open spec fn with_bus(self, bus: Bus) -> Machine {
        Machine { bus, ..self }
    }

    /// The machine after an eight-bit operand is given the value `v`.
    pub open spec fn with_register(self, r: Register, v: u8) -> Machine {
        match r {
            Register::B => self.with_cpu(Cpu { b: v, ..self.cpu }),
            Register::C => self.with_cpu(Cpu { c: v, ..self.cpu }),
            Register::D => self.with_cpu(Cpu { d: v, ..self.cpu }),
            Register::E => self.with_cpu(Cpu { e: v, ..self.cpu }),
            Register::H => self.with_cpu(Cpu { h: v, ..self.cpu }),
            Register::L => self.with_cpu(Cpu { l: v, ..self.cpu }),
            Register::M => self.with_bus(self.bus.write(self.pair(RegisterPair::HL), v)),
            Register::A => self.with_cpu(Cpu { a: v, ..self.cpu }),
        }
    }

    /// The machine after a register pair is given the value `w`.
    pub open spec fn with_pair(self, p: RegisterPair, w: u16) -> Machine {
        self.with_cpu(self.cpu.with_pair(p, w))
    }

    /// The machine with the accumulator and flags that an operation leaves.
    pub open spec fn with_result(self, result: AluResult) -> Machine {
        self.with_cpu(self.cpu.with_result(result))
    }

    /// The machine with other flags.
    pub open spec fn with_flags(self, flags: Flags) -> Machine {
        self.with_cpu(self.cpu.with_flags(flags))
    }

    /// The machine after `w` is pushed: the stack pointer goes down by two
    /// and the word is stored where it then points, low byte first.
    pub open spec fn pushed(self, w: u16) -> Machine {
        let sp = wrap16(self.cpu.sp - 2);
        Machine { cpu: Cpu { sp, ..self.cpu }, bus: self.bus.write_word(sp, w) }
    }

    /// The word on top of the stack.
    pub open spec fn top(self) -> u16 {
        self.bus.read_word(self.cpu.sp)
    }

    /// The machine after the top of the stack is dropped: the stack pointer
    /// goes up by two.
    pub open spec fn dropped(self) -> Machine {
        self.with_cpu(Cpu { sp: wrap16(self.cpu.sp + 2), ..self.cpu })
    }

    /// The machine about to execute at `pc`.
    pub open spec fn at(self, pc: u16) -> Machine {
        self.with_cpu(self.cpu.at(pc))
    }

    /// The machine with the program counter moved past `n` bytes.
    pub open spec fn next(self, n: int) -> Machine {
        self.with_cpu(self.cpu.advanced(n))
    }

    /// Copies one eight-bit operand to another.
    #[verifier::opaque]
    pub open spec fn after_mov(self, to: Register, from: Register) -> Machine {
        self.with_register(to, self.register(from)).next(1)
    }

    /// Gives an eight-bit operand the byte that follows the opcode.
    #[verifier::opaque]
    pub open spec fn after_mvi(self, r: Register) -> Machine {
        self.with_register(r, self.operand8()).next(2)
    }

    /// Loads a register pair with the word that follows the opcode.
    #[verifier::opaque]
    pub open spec fn after_lxi(self, p: RegisterPair) -> Machine {
        self.with_pair(p, self.operand16()).next(3)
    }

    /// Loads the accumulator from the address that follows the opcode.
    #[verifier::opaque]
    pub open spec fn after_lda(self) -> Machine {
        self.with_register(Register::A, self.bus.read(self.operand16())).next(3)
    }

    /// Stores the accumulator at the address that follows the opcode.
    #[verifier::opaque]
    pub open spec fn after_sta(self) -> Machine {
        self.with_bus(self.bus.write(self.operand16(), self.cpu.a)).next(3)
    }

    /// Loads HL from the address that follows the opcode.
    #[verifier::opaque]
    pub open spec fn after_lhld(self) -> Machine {
        self.with_pair(RegisterPair::HL, self.bus.read_word(self.operand16())).next(3)
    }

    /// Stores HL, low byte first, at the address that follows the opcode.
    #[verifier::opaque]
    pub open spec fn after_shld(self) -> Machine {
        self.with_bus(self.bus.write_word(self.operand16(), self.pair(RegisterPair::HL))).next(3)
    }

    /// Loads the accumulator from the address in an index pair.
    #[verifier::opaque]
    pub open spec fn after_ldax(self, p: IndexPair) -> Machine {
        self.with_register(Register::A, self.bus.read(self.cpu.index(p))).next(1)
    }

    /// Stores the accumulator at the address in an index pair.
    #[verifier::opaque]
    pub open spec fn after_stax(self, p: IndexPair) -> Machine {
        self.with_bus(self.bus.write(self.cpu.index(p), self.cpu.a)).next(1)
    }

    /// Combines the accumulator with an eight-bit operand.
    #[verifier::opaque]
    pub open spec fn after_alu(self, operation: AluOperation, r: Register) -> Machine {
        self.with_result(operation.apply(self.cpu.a, self.register(r), self.cpu.flags)).next(1)
    }

    /// Combines the accumulator with the byte that follows the opcode.
    #[verifier::opaque]
    pub open spec fn after_alu_immediate(self, operation: AluOperation) -> Machine {
        self.with_result(operation.apply(self.cpu.a, self.operand8(), self.cpu.flags)).next(2)
    }

    /// Adds one to an eight-bit operand; the carry flag is kept.
    #[verifier::opaque]
    pub open spec fn after_inr(self, r: Register) -> Machine {
        let result = incremented(self.register(r), self.cpu.flags);
        self.with_register(r, result.value).with_flags(result.flags).next(1)
    }

    /// Subtracts one from an eight-bit operand; the carry flag is kept.
    #[verifier::opaque]
    pub open spec fn after_dcr(self, r: Register) -> Machine {
        let result = decremented(self.register(r), self.cpu.flags);
        self.with_register(r, result.value).with_flags(result.flags).next(1)
    }

    /// Jumps to the address that follows the opcode.
    #[verifier::opaque]
    pub open spec fn after_jmp(self) -> Machine {
        self.at(self.operand16())
    }

    /// Jumps to the address that follows the opcode if the condition holds,
    /// else goes on with the next instruction.
    #[verifier::opaque]
    pub open spec fn after_jmp_if(self, condition: Condition) -> Machine {
        if condition.holds(self.cpu.flags) {
            self.at(self.operand16())
        } else {
            self.next(3)
        }
    }

    /// Calls the address that follows the opcode: pushes the address of the
    /// next instruction and continues at the operand, which is read before
    /// the push.
    #[verifier::opaque]
    pub open spec fn after_call(self) -> Machine {
        self.pushed(wrap16(self.cpu.pc + 3)).at(self.operand16())
    }

    /// Calls the address that follows the opcode if the condition holds, else
    /// goes on with the next instruction.
    #[verifier::opaque]
    pub open spec fn after_call_if(self, condition: Condition) -> Machine {
        if condition.holds(self.cpu.flags) {
            self.pushed(wrap16(self.cpu.pc + 3)).at(self.operand16())
        } else {
            self.next(3)
        }
    }

    /// Returns: continues at the word popped off the stack.
    #[verifier::opaque]
    pub open spec fn after_ret(self) -> Machine {
        self.dropped().at(self.top())
    }

    /// Returns if the condition holds, else goes on with the next
    /// instruction.
    #[verifier::opaque]
    pub open spec fn after_ret_if(self, condition: Condition) -> Machine {
        if condition.holds(self.cpu.flags) {
            self.dropped().at(self.top())
        } else {
            self.next(1)
        }
    }

    /// Calls the restart address `8 * n`.
    #[verifier::opaque]
    pub open spec fn after_rst(self, n: u8) -> Machine {
        self.pushed(wrap16(self.cpu.pc + 1)).at((8 * n) as u16)
    }

    /// Pushes a pair on the stack.
    #[verifier::opaque]
    pub open spec fn after_push(self, p: StackPair) -> Machine {
        self.pushed(self.cpu.stack_pair(p)).next(1)
    }

    /// Pops the top of the stack into a pair.
    #[verifier::opaque]
    pub open spec fn after_pop(self, p: StackPair) -> Machine {
        self.with_cpu(self.cpu.with_stack_pair(p, self.top())).dropped().next(1)
    }

    /// Exchanges HL with the word on top of the stack.
    #[verifier::opaque]
    pub open spec fn after_xthl(self) -> Machine {
        self.with_bus(self.bus.write_word(self.cpu.sp, self.pair(RegisterPair::HL))).with_pair(
            RegisterPair::HL,
            self.top(),
        ).next(1)
    }

    /// Reads the accumulator from the port whose number follows the opcode.
    #[verifier::opaque]
    pub open spec fn after_in(self) -> Machine {
        self.with_register(Register::A, self.bus.port_in(self.operand8())).next(2)
    }

    /// Writes the accumulator to the port whose number follows the opcode.
    #[verifier::opaque]
    pub open spec fn after_out(self) -> Machine {
        self.with_bus(self.bus.port_out(self.operand8(), self.cpu.a)).next(2)
    }

    /// The machine after it has executed a data transfer instruction.
    pub open spec fn after_transfer(self, instruction: Transfer) -> Machine {
        match instruction {
            Transfer::Mov(to, from) => self.after_mov(to, from),
            Transfer::Mvi(r) => self.after_mvi(r),
            Transfer::Lxi(p) => self.after_lxi(p),
            Transfer::Lda => self.after_lda(),
            Transfer::Sta => self.after_sta(),
            Transfer::Lhld => self.after_lhld(),
            Transfer::Shld => self.after_shld(),
            Transfer::Ldax(p) => self.after_ldax(p),
            Transfer::Stax(p) => self.after_stax(p),
            Transfer::Xchg => self.with_cpu(self.cpu.after_xchg()),
        }
    }

    /// The machine after it has executed an arithmetic or logical instruction.
    pub open spec fn after_arithmetic(self, instruction: Arithmetic) -> Machine {
        match instruction {
            Arithmetic::Alu(operation, r) => self.after_alu(operation, r),
            Arithmetic::AluImmediate(operation) => self.after_alu_immediate(operation),
            Arithmetic::Inr(r) => self.after_inr(r),
            Arithmetic::Dcr(r) => self.after_dcr(r),
            Arithmetic::Inx(p) => self.with_cpu(self.cpu.after_inx(p)),
            Arithmetic::Dcx(p) => self.with_cpu(self.cpu.after_dcx(p)),
            Arithmetic::Dad(p) => self.with_cpu(self.cpu.after_dad(p)),
            Arithmetic::Daa => self.with_cpu(self.cpu.after_daa()),
            Arithmetic::Rotate(rotation) => self.with_cpu(self.cpu.after_rotate(rotation)),
            Arithmetic::Cma => self.with_cpu(self.cpu.after_cma()),
            Arithmetic::Cmc => self.with_cpu(self.cpu.after_cmc()),
            Arithmetic::Stc => self.with_cpu(self.cpu.after_stc()),
        }
    }

    /// The machine after it has executed a jump, call or return.
    pub open spec fn after_branch(self, instruction: Branch) -> Machine {
        match instruction {
            Branch::Jmp => self.after_jmp(),
            Branch::JmpIf(condition) => self.after_jmp_if(condition),
            Branch::Call => self.after_call(),
            Branch::CallIf(condition) => self.after_call_if(condition),
            Branch::Ret => self.after_ret(),
            Branch::RetIf(condition) => self.after_ret_if(condition),
            Branch::Rst(n) => self.after_rst(n),
            Branch::Pchl => self.with_cpu(self.cpu.after_pchl()),
        }
    }

    /// The machine after it has executed a stack, port or machine control instruction.
    pub open spec fn after_control(self, instruction: Control) -> Machine {
        match instruction {
            Control::Push(p) => self.after_push(p),
            Control::Pop(p) => self.after_pop(p),
            Control::Xthl => self.after_xthl(),
            Control::Sphl => self.with_cpu(self.cpu.after_sphl()),
            Control::In => self.after_in(),
            Control::Out => self.after_out(),
            Control::Ei => self.with_cpu(self.cpu.after_ei()),
            Control::Di => self.with_cpu(self.cpu.after_di()),
            Control::Hlt => self.with_cpu(self.cpu.after_hlt()),
            Control::Nop => self.with_cpu(self.cpu.after_nop()),
        }
    }

    /// The machine after it has executed `instruction`, whose opcode is at
    /// the program counter and whose operands follow it.
    pub open spec fn after(self, instruction: Instruction) -> Machine {
        match instruction {
            Instruction::Transfer(i) => self.after_transfer(i),
            Instruction::Arithmetic(i) => self.after_arithmetic(i),
            Instruction::Branch(i) => self.after_branch(i),
            Instruction::Control(i) => self.after_control(i),
        }
    }

    /// Whether the condition of a conditional jump, call or return holds;
    /// false of every other instruction.
    pub open spec fn takes(self, instruction: Instruction) -> bool {
        match instruction {
            Instruction::Branch(branch) => match branch.condition() {
                Some(condition) => condition.holds(self.cpu.flags),
                None => false,
            },
            _ => false,
        }
    }

    /// The outcome of executing `instruction`: the machine afterwards and
    /// the clock cycles taken.
    pub open spec fn execute(self, instruction: Instruction) -> Step {
        Step {
            machine: self.after(instruction),
            cycles: instruction.cycles(self.takes(instruction)),
        }
    }

    /// One step of the machine. A halted processor idles. A running one
    /// fetches the opcode at the program counter and executes the
    /// instruction it encodes; an opcode that encodes none is an error.
    #[verifier::opaque]
    pub open spec fn step(self) -> Result<Step, EmulatorError> {
        let opcode = self.bus.read(self.cpu.pc);
        if self.cpu.halted {
            Ok(Step { machine: self, cycles: HALT_IDLE_CYCLES })
        } else {
            match decoded(opcode) {
                Some(instruction) => Ok(self.execute(instruction)),
                None => Err(EmulatorError::UnsupportedInstruction { opcode, pc: self.cpu.pc }),
            }
        }
    }

    /// Whether an interrupt on `vector` would be accepted: interrupts must
    /// be enabled, and there are eight vectors.
    pub open spec fn accepts(self, vector: u8) -> bool {
        self.cpu.interrupt_enable && vector < 8
    }

    /// The machine after an interrupt is requested on `vector`. An accepted
    /// interrupt pushes the program counter, disables further interrupts,
    /// ends a halt and continues at address `8 * vector`. One that is not
    /// accepted changes nothing.
    pub open spec fn interrupted(self, vector: u8) -> Machine {
        if self.accepts(vector) {
            self.with_cpu(Cpu { interrupt_enable: false, halted: false, ..self.cpu }).pushed(
                self.cpu.pc,
            ).at((8 * vector) as u16)
        } else {
            self
        }
    }
}

impl Cpu {
    /// A processor at reset, about to execute at `pc`.
    pub fn new(pc: u16) -> (r: Cpu)
        ensures
            r == Cpu::reset(pc),
    {
        Cpu {
            a: 0,
            b: 0,
            c: 0,
            d: 0,
            e: 0,
            h: 0,
            l: 0,
            sp: 0,
            pc,
            flags: Flags::new(),
            interrupt_enable: false,
            halted: false,
        }
    }

    /// The value of an eight-bit operand.
    pub fn get_register(&self, memory: &Memory, r: Register) -> (v: u8)
        ensures
            v == machine(*self, *memory).register(r),
    {
        match r {
            Register::B => self.b,
            Register::C => self.c,
            Register::D => self.d,
            Register::E => self.e,
            Register::H => self.h,
            Register::L => self.l,
            Register::M => memory.read_byte(make_word(self.h, self.l)),
            Register::A => self.a,
        }
    }

    /// Gives an eight-bit operand the value `v`.
    pub fn set_register(&mut self, memory: &mut Memory, r: Register, v: u8)
        ensures
            machine(*final(self), *final(memory)) == machine(
                *old(self),
                *old(memory),
            ).with_register(r, v),
    {
        match r {
            Register::B => {
                self.b = v;
            },
            Register::C => {
                self.c = v;
            },
            Register::D => {
                self.d = v;
            },
            Register::E => {
                self.e = v;
            },
            Register::H => {
                self.h = v;
            },
            Register::L => {
                self.l = v;
            },
            Register::M => {
                memory.write_byte(make_word(self.h, self.l), v);
            },
            Register::A => {
                self.a = v;
            },
        }
    }

    /// The value of a register pair.
    pub fn get_pair(&self, p: RegisterPair) -> (w: u16)
        ensures
            w == self.pair(p),
    {
        match p {
            RegisterPair::BC => make_word(self.b, self.c),
            RegisterPair::DE => make_word(self.d, self.e),
            RegisterPair::HL => make_word(self.h, self.l),
            RegisterPair::SP => self.sp,
        }
    }

    /// Gives a register pair the value `w`.
    pub fn set_pair(&mut self, p: RegisterPair, w: u16)
        ensures
            *final(self) == old(self).with_pair(p, w),
    {
        match p {
            RegisterPair::BC => {
                self.b = get_high_byte(w);
                self.c = get_low_byte(w);
            },
            RegisterPair::DE => {
                self.d = get_high_byte(w);
                self.e = get_low_byte(w);
            },
            RegisterPair::HL => {
                self.h = get_high_byte(w);
                self.l = get_low_byte(w);
            },
            RegisterPair::SP => {
                self.sp = w;
            },
        }
    }

    fn get_index(&self, p: IndexPair) -> (w: u16)
        ensures
            w == self.index(p),
    {
        match p {
            IndexPair::BC => make_word(self.b, self.c),
            IndexPair::DE => make_word(self.d, self.e),
        }
    }

    fn get_stack_pair(&self, p: StackPair) -> (w: u16)
        ensures
            w == self.stack_pair(p),
    {
        match p {
            StackPair::BC => make_word(self.b, self.c),
            StackPair::DE => make_word(self.d, self.e),
            StackPair::HL => make_word(self.h, self.l),
            StackPair::PSW => make_word(self.a, self.flags.to_byte()),
        }
    }

    fn set_stack_pair(&mut self, p: StackPair, w: u16)
        ensures
            *final(self) == old(self).with_stack_pair(p, w),
    {
        match p {
            StackPair::BC => {
                self.b = get_high_byte(w);
                self.c = get_low_byte(w);
            },
            StackPair::DE => {
                self.d = get_high_byte(w);
                self.e = get_low_byte(w);
            },
            StackPair::HL => {
                self.h = get_high_byte(w);
                self.l = get_low_byte(w);
            },
            StackPair::PSW => {
                self.a = get_high_byte(w);
                self.flags = Flags::from_byte(get_low_byte(w));
            },
        }
    }

    fn set_result(&mut self, result: AluResult)
        ensures
            *final(self) == old(self).with_result(result),
    {
        self.a = result.value;
        self.flags = result.flags;
    }

    fn operand8(&self, memory: &Memory) -> (v: u8)
        ensures
            v == machine(*self, *memory).operand8(),
    {
        memory.read_byte(self.pc.wrapping_add(1))
    }

    fn operand16(&self, memory: &Memory) -> (w: u16)
        ensures
            w == machine(*self, *memory).operand16(),
    {
        memory.read_word(self.pc.wrapping_add(1))
    }

    fn advance(&mut self, n: u16)
        ensures
            *final(self) == old(self).advanced(n as int),
    {
        self.pc = self.pc.wrapping_add(n);
    }

    fn push(&mut self, memory: &mut Memory, w: u16)
        ensures
            machine(*final(self), *final(memory)) == machine(*old(self), *old(memory)).pushed(w),
    {
        self.sp = self.sp.wrapping_sub(2);
        memory.write_word(self.sp, w);
    }

    fn pop(&mut self, memory: &Memory) -> (w: u16)
        ensures
            w == machine(*old(self), *memory).top(),
            machine(*final(self), *memory) == machine(*old(self), *memory).dropped(),
    {
        let w = memory.read_word(self.sp);
        self.sp = self.sp.wrapping_add(2);
        w
    }

    fn mov(&mut self, memory: &mut Memory, to: Register, from: Register)
        ensures
            machine(*final(self), *final(memory)) == machine(*old(self), *old(memory)).after_mov(
                to, from,
            ),
    {
        proof {
            reveal(Machine::after_mov);
        }
        let v = self.get_register(memory, from);
        self.set_register(memory, to, v);
        self.advance(1);
    }

    fn mvi(&mut self, memory: &mut Memory, r: Register)
        ensures
            machine(*final(self), *final(memory)) == machine(*old(self), *old(memory)).after_mvi(
                r,
            ),
    {
        proof {
            reveal(Machine::after_mvi);
        }
        let v = self.operand8(memory);
        self.set_register(memory, r, v);
        self.advance(2);
    }

    fn lxi(&mut self, memory: &Memory, p: RegisterPair)
        ensures
            machine(*final(self), *memory) == machine(*old(self), *memory).after_lxi(p),
    {
        proof {
            reveal(Machine::after_lxi);
        }
        let w = self.operand16(memory);
        self.set_pair(p, w);
        self.advance(3);
    }

    fn lda(&mut self, memory: &Memory)
        ensures
            machine(*final(self), *memory) == machine(*old(self), *memory).after_lda(),
    {
        proof {
            reveal(Machine::after_lda);
        }
        let address = self.operand16(memory);
        self.a = memory.read_byte(address);
        self.advance(3);
    }

    fn sta(&mut self, memory: &mut Memory)
        ensures
            machine(*final(self), *final(memory)) == machine(*old(self), *old(memory)).after_sta(),
    {
        proof {
            reveal(Machine::after_sta);
        }
        let address = self.operand16(memory);
        memory.write_byte(address, self.a);
        self.advance(3);
    }

    fn lhld(&mut self, memory: &Memory)
        ensures
            machine(*final(self), *memory) == machine(*old(self), *memory).after_lhld(),
    {
        proof {
            reveal(Machine::after_lhld);
        }
        let address = self.operand16(memory);
        let w = memory.read_word(address);
        self.set_pair(RegisterPair::HL, w);
        self.advance(3);
    }

    fn shld(&mut self, memory: &mut Memory)
        ensures
            machine(*final(self), *final(memory)) == machine(*old(self), *old(memory)).after_shld(),
    {
        proof {
            reveal(Machine::after_shld);
        }
        let address = self.operand16(memory);
        let hl = self.get_pair(RegisterPair::HL);
        memory.write_word(address, hl);
        self.advance(3);
    }

    fn ldax(&mut self, memory: &Memory, p: IndexPair)
        ensures
            machine(*final(self), *memory) == machine(*old(self), *memory).after_ldax(p),
    {
        proof {
            reveal(Machine::after_ldax);
        }
        let address = self.get_index(p);
        self.a = memory.read_byte(address);
        self.advance(1);
    }

    fn stax(&mut self, memory: &mut Memory, p: IndexPair)
        ensures
            machine(*final(self), *final(memory)) == machine(*old(self), *old(memory)).after_stax(
                p,
            ),
    {
        proof {
            reveal(Machine::after_stax);
        }
        let address = self.get_index(p);
        memory.write_byte(address, self.a);
        self.advance(1);
    }

    fn xchg(&mut self)
        ensures
            *final(self) == old(self).after_xchg(),
    {
        proof {
            reveal(Cpu::after_xchg);
        }
        let d = self.d;
        let e = self.e;
        self.d = self.h;
        self.e = self.l;
        self.h = d;
        self.l = e;
        self.advance(1);
    }

    fn alu(&mut self, memory: &Memory, operation: AluOperation, r: Register)
        ensures
            machine(*final(self), *memory) == machine(*old(self), *memory).after_alu(operation, r),
    {
        proof {
            reveal(Machine::after_alu);
        }
        let v = self.get_register(memory, r);
        let result = operation.perform(self.a, v, self.flags);
        self.set_result(result);
        self.advance(1);
    }

    fn alu_immediate(&mut self, memory: &Memory, operation: AluOperation)
        ensures
            machine(*final(self), *memory) == machine(*old(self), *memory).after_alu_immediate(
                operation,
            ),
    {
        proof {
            reveal(Machine::after_alu_immediate);
        }
        let v = self.operand8(memory);
        let result = operation.perform(self.a, v, self.flags);
        self.set_result(result);
        self.advance(2);
    }

    fn inr(&mut self, memory: &mut Memory, r: Register)
        ensures
            machine(*final(self), *final(memory)) == machine(*old(self), *old(memory)).after_inr(
                r,
            ),
    {
        proof {
            reveal(Machine::after_inr);
        }
        let v = self.get_register(memory, r);
        let result = increment(v, self.flags);
        self.set_register(memory, r, result.value);
        self.flags = result.flags;
        self.advance(1);
    }

    fn dcr(&mut self, memory: &mut Memory, r: Register)
        ensures
            machine(*final(self), *final(memory)) == machine(*old(self), *old(memory)).after_dcr(
                r,
            ),
    {
        proof {
            reveal(Machine::after_dcr);
        }
        let v = self.get_register(memory, r);
        let result = decrement(v, self.flags);
        self.set_register(memory, r, result.value);
        self.flags = result.flags;
        self.advance(1);
    }

    fn inx(&mut self, p: RegisterPair)
        ensures
            *final(self) == old(self).after_inx(p),
    {
        proof {
            reveal(Cpu::after_inx);
        }
        let w = self.get_pair(p).wrapping_add(1);
        self.set_pair(p, w);
        self.advance(1);
    }

    fn dcx(&mut self, p: RegisterPair)
        ensures
            *final(self) == old(self).after_dcx(p),
    {
        proof {
            reveal(Cpu::after_dcx);
        }
        let w = self.get_pair(p).wrapping_sub(1);
        self.set_pair(p, w);
        self.advance(1);
    }

    fn dad(&mut self, p: RegisterPair)
        ensures
            *final(self) == old(self).after_dad(p),
    {
        proof {
            reveal(Cpu::after_dad);
        }
        let hl = self.get_pair(RegisterPair::HL);
        let w = self.get_pair(p);
        let sum = hl.wrapping_add(w);
        self.set_pair(RegisterPair::HL, sum);
        self.flags.carry = sum < hl;
        self.advance(1);
    }

    fn daa(&mut self)
        ensures
            *final(self) == old(self).after_daa(),
    {
        proof {
            reveal(Cpu::after_daa);
        }
        let result = decimal_adjust(self.a, self.flags);
        self.set_result(result);
        self.advance(1);
    }

    fn rotate_accumulator(&mut self, rotation: Rotation)
        ensures
            *final(self) == old(self).after_rotate(rotation),
    {
        proof {
            reveal(Cpu::after_rotate);
        }
        let result = rotate(rotation, self.a, self.flags);
        self.set_result(result);
        self.advance(1);
    }

    fn cma(&mut self)
        ensures
            *final(self) == old(self).after_cma(),
    {
        proof {
            reveal(Cpu::after_cma);
        }
        let a = self.a;
        assert(!a == 255 - a) by (bit_vector);
        self.a = !a;
        self.advance(1);
    }

    fn cmc(&mut self)
        ensures
            *final(self) == old(self).after_cmc(),
    {
        proof {
            reveal(Cpu::after_cmc);
        }
        self.flags.carry = !self.flags.carry;
        self.advance(1);
    }

    fn stc(&mut self)
        ensures
            *final(self) == old(self).after_stc(),
    {
        proof {
            reveal(Cpu::after_stc);
        }
        self.flags.carry = true;
        self.advance(1);
    }

    fn jmp(&mut self, memory: &Memory)
        ensures
            machine(*final(self), *memory) == machine(*old(self), *memory).after_jmp(),
    {
        proof {
            reveal(Machine::after_jmp);
        }
        self.pc = self.operand16(memory);
    }

    fn jmp_if(&mut self, memory: &Memory, condition: Condition) -> (taken: bool)
        ensures
            machine(*final(self), *memory) == machine(*old(self), *memory).after_jmp_if(condition),
            taken == condition.holds(old(self).flags),
    {
        proof {
            reveal(Machine::after_jmp_if);
        }
        if condition.test(&self.flags) {
            self.pc = self.operand16(memory);
            true
        } else {
            self.advance(3);
            false
        }
    }

    fn call(&mut self, memory: &mut Memory)
        ensures
            machine(*final(self), *final(memory)) == machine(*old(self), *old(memory)).after_call(),
    {
        proof {
            reveal(Machine::after_call);
        }
        let address = self.operand16(memory);
        let back = self.pc.wrapping_add(3);
        self.push(memory, back);
        self.pc = address;
    }

    fn call_if(&mut self, memory: &mut Memory, condition: Condition) -> (taken: bool)
        ensures
            machine(*final(self), *final(memory)) == machine(
                *old(self),
                *old(memory),
            ).after_call_if(condition),
            taken == condition.holds(old(self).flags),
    {
        proof {
            reveal(Machine::after_call_if);
        }
        if condition.test(&self.flags) {
            let address = self.operand16(memory);
            let back = self.pc.wrapping_add(3);
            self.push(memory, back);
            self.pc = address;
            true
        } else {
            self.advance(3);
            false
        }
    }

    fn ret(&mut self, memory: &Memory)
        ensures
            machine(*final(self), *memory) == machine(*old(self), *memory).after_ret(),
    {
        proof {
            reveal(Machine::after_ret);
        }
        let address = self.pop(memory);
        self.pc = address;
    }

    fn ret_if(&mut self, memory: &Memory, condition: Condition) -> (taken: bool)
        ensures
            machine(*final(self), *memory) == machine(*old(self), *memory).after_ret_if(condition),
            taken == condition.holds(old(self).flags),
    {
        proof {
            reveal(Machine::after_ret_if);
        }
        if condition.test(&self.flags) {
            let address = self.pop(memory);
            self.pc = address;
            true
        } else {
            self.advance(1);
            false
        }
    }

    fn rst(&mut self, memory: &mut Memory, n: u8)
        ensures
            machine(*final(self), *final(memory)) == machine(*old(self), *old(memory)).after_rst(
                n,
            ),
    {
        proof {
            reveal(Machine::after_rst);
        }
        let target: u16 = 8 * (n as u16);
        let back = self.pc.wrapping_add(1);
        self.push(memory, back);
        self.pc = target;
    }

    fn pchl(&mut self)
        ensures
            *final(self) == old(self).after_pchl(),
    {
        proof {
            reveal(Cpu::after_pchl);
        }
        self.pc = self.get_pair(RegisterPair::HL);
    }

    fn push_pair(&mut self, memory: &mut Memory, p: StackPair)
        ensures
            machine(*final(self), *final(memory)) == machine(*old(self), *old(memory)).after_push(
                p,
            ),
    {
        proof {
            reveal(Machine::after_push);
        }
        let w = self.get_stack_pair(p);
        self.push(memory, w);
        self.advance(1);
    }

    fn pop_pair(&mut self, memory: &Memory, p: StackPair)
        ensures
            machine(*final(self), *memory) == machine(*old(self), *memory).after_pop(p),
    {
        proof {
            reveal(Machine::after_pop);
        }
        let w = self.pop(memory);
        self.set_stack_pair(p, w);
        self.advance(1);
    }

    fn xthl(&mut self, memory: &mut Memory)
        ensures
            machine(*final(self), *final(memory)) == machine(*old(self), *old(memory)).after_xthl(),
    {
        proof {
            reveal(Machine::after_xthl);
        }
        let top = memory.read_word(self.sp);
        let hl = self.get_pair(RegisterPair::HL);
        memory.write_word(self.sp, hl);
        self.set_pair(RegisterPair::HL, top);
        self.advance(1);
    }

    fn sphl(&mut self)
        ensures
            *final(self) == old(self).after_sphl(),
    {
        proof {
            reveal(Cpu::after_sphl);
        }
        self.sp = self.get_pair(RegisterPair::HL);
        self.advance(1);
    }

    fn input(&mut self, memory: &Memory)
        ensures
            machine(*final(self), *memory) == machine(*old(self), *memory).after_in(),
    {
        proof {
            reveal(Machine::after_in);
        }
        let port = self.operand8(memory);
        self.a = memory.read_port(port);
        self.advance(2);
    }

    fn output(&mut self, memory: &mut Memory)
        ensures
            machine(*final(self), *final(memory)) == machine(*old(self), *old(memory)).after_out(),
    {
        proof {
            reveal(Machine::after_out);
        }
        let port = self.operand8(memory);
        memory.write_port(port, self.a);
        self.advance(2);
    }

    fn ei(&mut self)
        ensures
            *final(self) == old(self).after_ei(),
    {
        proof {
            reveal(Cpu::after_ei);
        }
        self.interrupt_enable = true;
        self.advance(1);
    }

    fn di(&mut self)
        ensures
            *final(self) == old(self).after_di(),
    {
        proof {
            reveal(Cpu::after_di);
        }
        self.interrupt_enable = false;
        self.advance(1);
    }

    fn hlt(&mut self)
        ensures
            *final(self) == old(self).after_hlt(),
    {
        proof {
            reveal(Cpu::after_hlt);
        }
        self.halted = true;
        self.advance(1);
    }

    fn nop(&mut self)
        ensures
            *final(self) == old(self).after_nop(),
    {
        proof {
            reveal(Cpu::after_nop);
        }
        self.advance(1);
    }

    /// Executes a data transfer instruction.
    fn perform_transfer(&mut self, memory: &mut Memory, instruction: Transfer)
        ensures
            machine(*final(self), *final(memory)) == machine(
                *old(self),
                *old(memory),
            ).after_transfer(instruction),
    {
        match instruction {
            Transfer::Mov(to, from) => self.mov(memory, to, from),
            Transfer::Mvi(r) => self.mvi(memory, r),
            Transfer::Lxi(p) => self.lxi(memory, p),
            Transfer::Lda => self.lda(memory),
            Transfer::Sta => self.sta(memory),
            Transfer::Lhld => self.lhld(memory),
            Transfer::Shld => self.shld(memory),
            Transfer::Ldax(p) => self.ldax(memory, p),
            Transfer::Stax(p) => self.stax(memory, p),
            Transfer::Xchg => self.xchg(),
        }
    }

    /// Executes an arithmetic or logical instruction.
    fn perform_arithmetic(&mut self, memory: &mut Memory, instruction: Arithmetic)
        ensures
            machine(*final(self), *final(memory)) == machine(
                *old(self),
                *old(memory),
            ).after_arithmetic(instruction),
    {
        match instruction {
            Arithmetic::Alu(operation, r) => self.alu(memory, operation, r),
            Arithmetic::AluImmediate(operation) => self.alu_immediate(memory, operation),
            Arithmetic::Inr(r) => self.inr(memory, r),
            Arithmetic::Dcr(r) => self.dcr(memory, r),
            Arithmetic::Inx(p) => self.inx(p),
            Arithmetic::Dcx(p) => self.dcx(p),
            Arithmetic::Dad(p) => self.dad(p),
            Arithmetic::Daa => self.daa(),
            Arithmetic::Rotate(rotation) => self.rotate_accumulator(rotation),
            Arithmetic::Cma => self.cma(),
            Arithmetic::Cmc => self.cmc(),
            Arithmetic::Stc => self.stc(),
        }
    }

    /// Executes a jump, call or return.
    fn perform_branch(&mut self, memory: &mut Memory, instruction: Branch) -> (taken: bool)
        ensures
            machine(*final(self), *final(memory)) == machine(
                *old(self),
                *old(memory),
            ).after_branch(instruction),
            taken == machine(*old(self), *old(memory)).takes(Instruction::Branch(instruction)),
    {
        match instruction {
            Branch::Jmp => {
                self.jmp(memory);
                false
            },
            Branch::JmpIf(condition) => self.jmp_if(memory, condition),
            Branch::Call => {
                self.call(memory);
                false
            },
            Branch::CallIf(condition) => self.call_if(memory, condition),
            Branch::Ret => {
                self.ret(memory);
                false
            },
            Branch::RetIf(condition) => self.ret_if(memory, condition),
            Branch::Rst(n) => {
                self.rst(memory, n);
                false
            },
            Branch::Pchl => {
                self.pchl();
                false
            },
        }
    }

    /// Executes a stack, port or machine control instruction.
    fn perform_control(&mut self, memory: &mut Memory, instruction: Control)
        ensures
            machine(*final(self), *final(memory)) == machine(
                *old(self),
                *old(memory),
            ).after_control(instruction),
    {
        match instruction {
            Control::Push(p) => self.push_pair(memory, p),
            Control::Pop(p) => self.pop_pair(memory, p),
            Control::Xthl => self.xthl(memory),
            Control::Sphl => self.sphl(),
            Control::In => self.input(memory),
            Control::Out => self.output(memory),
            Control::Ei => self.ei(),
            Control::Di => self.di(),
            Control::Hlt => self.hlt(),
            Control::Nop => self.nop(),
        }
    }

    /// Executes `instruction`, whose opcode is at the program counter.
    /// Returns whether a conditional instruction's condition held.
    fn perform(&mut self, memory: &mut Memory, instruction: Instruction) -> (taken: bool)
        ensures
            machine(*final(self), *final(memory)) == machine(*old(self), *old(memory)).after(
                instruction,
            ),
            taken == machine(*old(self), *old(memory)).takes(instruction),
    {
        match instruction {
            Instruction::Transfer(i) => {
                self.perform_transfer(memory, i);
                false
            },
            Instruction::Arithmetic(i) => {
                self.perform_arithmetic(memory, i);
                false
            },
            Instruction::Branch(i) => self.perform_branch(memory, i),
            Instruction::Control(i) => {
                self.perform_control(memory, i);
                false
            },
        }
    }

    /// Executes one instruction and returns the clock cycles it took. A
    /// halted processor executes nothing and idles for
    /// `HALT_IDLE_CYCLES`. An opcode that encodes no documented instruction
    /// is reported with the address it was fetched from, and nothing is
    /// changed.
    pub fn execute_one(&mut self, memory: &mut Memory) -> (r: Result<u8, EmulatorError>)
        ensures
            match machine(*old(self), *old(memory)).step() {
                Ok(step) => r == Ok::<u8, EmulatorError>(step.cycles) && machine(
                    *final(self),
                    *final(memory),
                ) == step.machine,
                Err(e) => r == Err::<u8, EmulatorError>(e) && *final(self) == *old(self)
                    && final(memory)@ == old(memory)@,
            },
    {
        proof {
            reveal(Machine::step);
        }
        if self.halted {
            return Ok(HALT_IDLE_CYCLES);
        }
        let opcode = memory.read_byte(self.pc);
        match decode(opcode) {
            Some(instruction) => {
                let taken = self.perform(memory, instruction);
                Ok(instruction.cycle_count(taken))
            },
            None => Err(EmulatorError::UnsupportedInstruction { opcode, pc: self.pc }),
        }
    }

    /// Requests an interrupt on `vector` and reports whether it was
    /// accepted. An accepted interrupt pushes the program counter, disables
    /// further interrupts, ends a halt and continues at `8 * vector`.
    pub fn interrupt(&mut self, memory: &mut Memory, vector: u8) -> (accepted: bool)
        ensures
            accepted == machine(*old(self), *old(memory)).accepts(vector),
            machine(*final(self), *final(memory)) == machine(
                *old(self),
                *old(memory),
            ).interrupted(vector),
    {
        if self.interrupt_enable && vector < 8 {
            let target: u16 = 8 * (vector as u16);
            self.interrupt_enable = false;
            self.halted = false;
            let back = self.pc;
            self.push(memory, back);
            self.pc = target;
            true
        } else {
            false
        }
    }
}

/// Every step takes at least `MIN_INSTRUCTION_CYCLES` and at most
/// `MAX_INSTRUCTION_CYCLES` clock cycles.
pub proof fn lemma_step_cycles(m: Machine)
    ensures
        m.step() matches Ok(step) ==> MIN_INSTRUCTION_CYCLES <= step.cycles
            <= MAX_INSTRUCTION_CYCLES,
{
    reveal(Machine::step);
}

/// A step fails exactly when the processor is running and the opcode at
/// the program counter encodes no instruction; the error names that
/// opcode and its address.
pub proof fn lemma_step_failure(m: Machine)
    ensures
        m.step() is Err <==> !m.cpu.halted && decoded(m.bus.read(m.cpu.pc)) is None,
        m.step() matches Err(e) ==> e == (EmulatorError::UnsupportedInstruction {
            opcode: m.bus.read(m.cpu.pc),
            pc: m.cpu.pc,
        }),
{
    reveal(Machine::step);
}

/// A halted processor stays as it is, step after step.
pub proof fn lemma_halted_step(m: Machine)
    requires
        m.cpu.halted,
    ensures
        m.step() == Ok::<Step, EmulatorError>(Step { machine: m, cycles: HALT_IDLE_CYCLES }),
{
    reveal(Machine::step);
}

/// After a data transfer instruction the program counter is at the instruction
/// that follows.
pub proof fn lemma_transfer_goes_on(m: Machine, instruction: Transfer)
    ensures
        m.after_transfer(instruction).cpu.pc == wrap16(m.cpu.pc + instruction.length()),
{
    match instruction {
        Transfer::Mov(_, _) => {
            reveal(Machine::after_mov);
        },
        Transfer::Mvi(_) => {
            reveal(Machine::after_mvi);
        },
        Transfer::Lxi(_) => {
            reveal(Machine::after_lxi);
        },
        Transfer::Lda => {
            reveal(Machine::after_lda);
        },
        Transfer::Sta => {
            reveal(Machine::after_sta);
        },
        Transfer::Lhld => {
            reveal(Machine::after_lhld);
        },
        Transfer::Shld => {
            reveal(Machine::after_shld);
        },
        Transfer::Ldax(_) => {
            reveal(Machine::after_ldax);
        },
        Transfer::Stax(_) => {
            reveal(Machine::after_stax);
        },
        Transfer::Xchg => {
            reveal(Cpu::after_xchg);
        },
    }
}

/// After an arithmetic or logical instruction the program counter is at the instruction
/// that follows.
pub proof fn lemma_arithmetic_goes_on(m: Machine, instruction: Arithmetic)
    ensures
        m.after_arithmetic(instruction).cpu.pc == wrap16(m.cpu.pc + instruction.length()),
{
    match instruction {
        Arithmetic::Alu(_, _) => {
            reveal(Machine::after_alu);
        },
        Arithmetic::AluImmediate(_) => {
            reveal(Machine::after_alu_immediate);
        },
        Arithmetic::Inr(_) => {
            reveal(Machine::after_inr);
        },
        Arithmetic::Dcr(_) => {
            reveal(Machine::after_dcr);
        },
        Arithmetic::Inx(_) => {
            reveal(Cpu::after_inx);
        },
        Arithmetic::Dcx(_) => {
            reveal(Cpu::after_dcx);
        },
        Arithmetic::Dad(_) => {
            reveal(Cpu::after_dad);
        },
        Arithmetic::Daa => {
            reveal(Cpu::after_daa);
        },
        Arithmetic::Rotate(_) => {
            reveal(Cpu::after_rotate);
        },
        Arithmetic::Cma => {
            reveal(Cpu::after_cma);
        },
        Arithmetic::Cmc => {
            reveal(Cpu::after_cmc);
        },
        Arithmetic::Stc => {
            reveal(Cpu::after_stc);
        },
    }
}

/// After a stack, port or machine control instruction the program counter is at the instruction
/// that follows.
pub proof fn lemma_control_goes_on(m: Machine, instruction: Control)
    ensures
        m.after_control(instruction).cpu.pc == wrap16(m.cpu.pc + instruction.length()),
{
    match instruction {
        Control::Push(_) => {
            reveal(Machine::after_push);
        },
        Control::Pop(_) => {
            reveal(Machine::after_pop);
        },
        Control::Xthl => {
            reveal(Machine::after_xthl);
        },
        Control::Sphl => {
            reveal(Cpu::after_sphl);
        },
        Control::In => {
            reveal(Machine::after_in);
        },
        Control::Out => {
            reveal(Machine::after_out);
        },
        Control::Ei => {
            reveal(Cpu::after_ei);
        },
        Control::Di => {
            reveal(Cpu::after_di);
        },
        Control::Hlt => {
            reveal(Cpu::after_hlt);
        },
        Control::Nop => {
            reveal(Cpu::after_nop);
        },
    }
}

/// After an instruction that is no jump, call or return the program
/// counter is at the instruction that follows.
pub proof fn lemma_goes_on(m: Machine, instruction: Instruction)
    requires
        !(instruction is Branch),
    ensures
        m.after(instruction).cpu.pc == wrap16(m.cpu.pc + instruction.length()),
{
    match instruction {
        Instruction::Transfer(i) => lemma_transfer_goes_on(m, i),
        Instruction::Arithmetic(i) => lemma_arithmetic_goes_on(m, i),
        Instruction::Control(i) => lemma_control_goes_on(m, i),
        Instruction::Branch(_) => {},
    }
}

/// A conditional jump, call or return whose condition does not hold goes
/// on with the instruction that follows and changes nothing else.
pub proof fn lemma_branch_not_taken(m: Machine, instruction: Branch)
    requires
        instruction.condition() matches Some(condition) && !condition.holds(m.cpu.flags),
    ensures
        m.after_branch(instruction) == m.next(instruction.length()),
{
    reveal(Machine::after_jmp_if);
    reveal(Machine::after_call_if);
    reveal(Machine::after_ret_if);
}

/// A return after a call continues at the instruction that follows the
/// call, with the processor otherwise as it was before the call.
pub proof fn lemma_call_then_return(m: Machine)
    requires
        m.bus.wf(),
    ensures
        m.after_call().after_ret().cpu == m.cpu.advanced(3),
{
    reveal(Machine::after_call);
    reveal(Machine::after_ret);
    lemma_pushed_top(m, wrap16(m.cpu.pc + 3));
}

/// A pop after a push of the same pair gives back the processor as it
/// was, two instructions further on.
pub proof fn lemma_push_then_pop(m: Machine, p: StackPair)
    requires
        m.bus.wf(),
    ensures
        m.after_push(p).after_pop(p).cpu == m.cpu.advanced(2),
{
    reveal(Machine::after_push);
    reveal(Machine::after_pop);
    lemma_pushed_top(m, m.cpu.stack_pair(p));
    crate::flags::lemma_status_byte_round_trip(m.cpu.flags);
}

/// After a data transfer instruction the bus is still a whole address space.
proof fn lemma_transfer_keeps_address_space(m: Machine, instruction: Transfer)
    requires
        m.bus.wf(),
    ensures
        m.after_transfer(instruction).bus.wf(),
{
    match instruction {
        Transfer::Mov(_, _) => {
            reveal(Machine::after_mov);
        },
        Transfer::Mvi(_) => {
            reveal(Machine::after_mvi);
        },
        Transfer::Lxi(_) => {
            reveal(Machine::after_lxi);
        },
        Transfer::Lda => {
            reveal(Machine::after_lda);
        },
        Transfer::Sta => {
            reveal(Machine::after_sta);
        },
        Transfer::Lhld => {
            reveal(Machine::after_lhld);
        },
        Transfer::Shld => {
            reveal(Machine::after_shld);
        },
        Transfer::Ldax(_) => {
            reveal(Machine::after_ldax);
        },
        Transfer::Stax(_) => {
            reveal(Machine::after_stax);
        },
        Transfer::Xchg => {},
    }
}

/// After an arithmetic or logical instruction the bus is still a whole address space.
proof fn lemma_arithmetic_keeps_address_space(m: Machine, instruction: Arithmetic)
    requires
        m.bus.wf(),
    ensures
        m.after_arithmetic(instruction).bus.wf(),
{
    match instruction {
        Arithmetic::Alu(_, _) => {
            reveal(Machine::after_alu);
        },
        Arithmetic::AluImmediate(_) => {
            reveal(Machine::after_alu_immediate);
        },
        Arithmetic::Inr(_) => {
            reveal(Machine::after_inr);
        },
        Arithmetic::Dcr(_) => {
            reveal(Machine::after_dcr);
        },
        Arithmetic::Inx(_) => {},
        Arithmetic::Dcx(_) => {},
        Arithmetic::Dad(_) => {},
        Arithmetic::Daa => {},
        Arithmetic::Rotate(_) => {},
        Arithmetic::Cma => {},
        Arithmetic::Cmc => {},
        Arithmetic::Stc => {},
    }
}

/// After a jump, call or return the bus is still a whole address space.
proof fn lemma_branch_keeps_address_space(m: Machine, instruction: Branch)
    requires
        m.bus.wf(),
    ensures
        m.after_branch(instruction).bus.wf(),
{
    match instruction {
        Branch::Jmp => {
            reveal(Machine::after_jmp);
        },
        Branch::JmpIf(_) => {
            reveal(Machine::after_jmp_if);
        },
        Branch::Call => {
            reveal(Machine::after_call);
        },
        Branch::CallIf(_) => {
            reveal(Machine::after_call_if);
        },
        Branch::Ret => {
            reveal(Machine::after_ret);
        },
        Branch::RetIf(_) => {
            reveal(Machine::after_ret_if);
        },
        Branch::Rst(_) => {
            reveal(Machine::after_rst);
        },
        Branch::Pchl => {},
    }
}

/// After a stack, port or machine control instruction the bus is still a whole address space.
proof fn lemma_control_keeps_address_space(m: Machine, instruction: Control)
    requires
        m.bus.wf(),
    ensures
        m.after_control(instruction).bus.wf(),
{
    match instruction {
        Control::Push(_) => {
            reveal(Machine::after_push);
        },
        Control::Pop(_) => {
            reveal(Machine::after_pop);
        },
        Control::Xthl => {
            reveal(Machine::after_xthl);
        },
        Control::Sphl => {},
        Control::In => {
            reveal(Machine::after_in);
        },
        Control::Out => {
            reveal(Machine::after_out);
        },
        Control::Ei => {},
        Control::Di => {},
        Control::Hlt => {},
        Control::Nop => {},
    }
}

/// A step leaves the bus a whole address space: no instruction adds or
/// removes an address.
pub proof fn lemma_step_keeps_address_space(m: Machine)
    requires
        m.bus.wf(),
    ensures
        m.step() matches Ok(step) ==> step.machine.bus.wf(),
{
    reveal(Machine::step);
    if !m.cpu.halted {
        match decoded(m.bus.read(m.cpu.pc)) {
            Some(Instruction::Transfer(i)) => lemma_transfer_keeps_address_space(m, i),
            Some(Instruction::Arithmetic(i)) => lemma_arithmetic_keeps_address_space(m, i),
            Some(Instruction::Branch(i)) => lemma_branch_keeps_address_space(m, i),
            Some(Instruction::Control(i)) => lemma_control_keeps_address_space(m, i),
            None => {},
        }
    }
}

/// An interrupt, accepted or not, leaves the bus a whole address space.
pub proof fn lemma_interrupt_keeps_address_space(m: Machine, vector: u8)
    requires
        m.bus.wf(),
    ensures
        m.interrupted(vector).bus.wf(),
{
}

/// An interrupt requested while interrupts are disabled changes nothing.
pub proof fn lemma_interrupt_needs_enable(m: Machine, vector: u8)
    requires
        !m.cpu.interrupt_enable,
    ensures
        m.interrupted(vector) == m,
{
}

/// An accepted interrupt leaves interrupts disabled, so that a second
/// request is not accepted until the program enables them again; the
/// processor runs, at the vector's address, and the interrupted program
/// counter is on top of the stack.
pub proof fn lemma_interrupt_accepted(m: Machine, vector: u8, second: u8)
    requires
        m.bus.wf(),
        m.accepts(vector),
    ensures
        !m.interrupted(vector).cpu.interrupt_enable,
        !m.interrupted(vector).cpu.halted,
        m.interrupted(vector).cpu.pc == 8 * vector,
        m.interrupted(vector).top() == m.cpu.pc,
        m.interrupted(vector).interrupted(second) == m.interrupted(vector),
{
    lemma_pushed_top(
        m.with_cpu(Cpu { interrupt_enable: false, halted: false, ..m.cpu }),
        m.cpu.pc,
    );
}

/// The word on top of the stack after a push is the word pushed, and
/// dropping it gives the processor back as it was.
pub proof fn lemma_pushed_top(m: Machine, w: u16)
    requires
        m.bus.wf(),
    ensures
        m.pushed(w).top() == w,
        m.pushed(w).dropped().cpu == m.cpu,
{
    let sp = wrap16(m.cpu.sp - 2);
    let next = wrap16(sp + 1);
    assert(next != sp);
    assert(wrap16(sp + 2) == m.cpu.sp);
    crate::bits::lemma_word_of_bytes(w);
}

} // verus!

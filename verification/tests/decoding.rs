use invaders::alu::AluOperation;
use invaders::instruction::{
    decode, Arithmetic, Branch, Condition, Control, IndexPair, Instruction, Register,
    RegisterPair, StackPair, Transfer, MAX_INSTRUCTION_CYCLES, MIN_INSTRUCTION_CYCLES,
};

const UNDOCUMENTED: [u8; 12] =
    [0x08, 0x10, 0x18, 0x20, 0x28, 0x30, 0x38, 0xcb, 0xd9, 0xdd, 0xed, 0xfd];

/// Clock cycles by opcode, with conditional calls and returns not taken;
/// zero marks an opcode that encodes nothing.
const CYCLES: [u8; 256] = [
    4, 10, 7, 5, 5, 5, 7, 4, 0, 10, 7, 5, 5, 5, 7, 4, //
    0, 10, 7, 5, 5, 5, 7, 4, 0, 10, 7, 5, 5, 5, 7, 4, //
    0, 10, 16, 5, 5, 5, 7, 4, 0, 10, 16, 5, 5, 5, 7, 4, //
    0, 10, 13, 5, 10, 10, 10, 4, 0, 10, 13, 5, 5, 5, 7, 4, //
    5, 5, 5, 5, 5, 5, 7, 5, 5, 5, 5, 5, 5, 5, 7, 5, //
    5, 5, 5, 5, 5, 5, 7, 5, 5, 5, 5, 5, 5, 5, 7, 5, //
    5, 5, 5, 5, 5, 5, 7, 5, 5, 5, 5, 5, 5, 5, 7, 5, //
    7, 7, 7, 7, 7, 7, 7, 7, 5, 5, 5, 5, 5, 5, 7, 5, //
    4, 4, 4, 4, 4, 4, 7, 4, 4, 4, 4, 4, 4, 4, 7, 4, //
    4, 4, 4, 4, 4, 4, 7, 4, 4, 4, 4, 4, 4, 4, 7, 4, //
    4, 4, 4, 4, 4, 4, 7, 4, 4, 4, 4, 4, 4, 4, 7, 4, //
    4, 4, 4, 4, 4, 4, 7, 4, 4, 4, 4, 4, 4, 4, 7, 4, //
    5, 10, 10, 10, 11, 11, 7, 11, 5, 10, 10, 0, 11, 17, 7, 11, //
    5, 10, 10, 10, 11, 11, 7, 11, 5, 0, 10, 10, 11, 0, 7, 11, //
    5, 10, 10, 18, 11, 11, 7, 11, 5, 5, 10, 4, 11, 0, 7, 11, //
    5, 10, 10, 4, 11, 11, 7, 11, 5, 5, 10, 4, 11, 0, 7, 11, //
];

#[test]
fn twelve_opcodes_encode_nothing() {
    let mut none = 0;
    for opcode in 0..=255u8 {
        match decode(opcode) {
            Some(_) => assert!(!UNDOCUMENTED.contains(&opcode)),
            None => {
                assert!(UNDOCUMENTED.contains(&opcode));
                none += 1;
            }
        }
    }
    assert_eq!(none, 12);
}

#[test]
fn encoding_inverts_decoding() {
    for opcode in 0..=255u8 {
        if let Some(instruction) = decode(opcode) {
            assert_eq!(instruction.opcode(), opcode);
        }
    }
}

#[test]
fn every_opcode_has_its_documented_cycles() {
    for opcode in 0..=255u8 {
        match decode(opcode) {
            Some(instruction) => {
                let cycles = instruction.cycle_count(false);
                assert_eq!(cycles, CYCLES[opcode as usize]);
                assert!(MIN_INSTRUCTION_CYCLES <= cycles && cycles <= MAX_INSTRUCTION_CYCLES);
            }
            None => assert_eq!(CYCLES[opcode as usize], 0),
        }
    }
}

#[test]
fn only_conditional_calls_and_returns_cost_more_when_taken() {
    for opcode in 0..=255u8 {
        if let Some(instruction) = decode(opcode) {
            let extra = instruction.cycle_count(true) - instruction.cycle_count(false);
            match instruction {
                Instruction::Branch(Branch::CallIf(_)) | Instruction::Branch(Branch::RetIf(_)) => {
                    assert_eq!(extra, 6)
                }
                _ => assert_eq!(extra, 0),
            }
        }
    }
}

#[test]
fn decode_reads_the_documented_encodings() {
    let t = |i| Some(Instruction::Transfer(i));
    let a = |i| Some(Instruction::Arithmetic(i));
    let b = |i| Some(Instruction::Branch(i));
    let c = |i| Some(Instruction::Control(i));
    assert_eq!(decode(0x00), c(Control::Nop));
    assert_eq!(decode(0x01), t(Transfer::Lxi(RegisterPair::BC)));
    assert_eq!(decode(0x31), t(Transfer::Lxi(RegisterPair::SP)));
    assert_eq!(decode(0x02), t(Transfer::Stax(IndexPair::BC)));
    assert_eq!(decode(0x12), t(Transfer::Stax(IndexPair::DE)));
    assert_eq!(decode(0x0a), t(Transfer::Ldax(IndexPair::BC)));
    assert_eq!(decode(0x1a), t(Transfer::Ldax(IndexPair::DE)));
    assert_eq!(decode(0x22), t(Transfer::Shld));
    assert_eq!(decode(0x2a), t(Transfer::Lhld));
    assert_eq!(decode(0x32), t(Transfer::Sta));
    assert_eq!(decode(0x3a), t(Transfer::Lda));
    assert_eq!(decode(0x3e), t(Transfer::Mvi(Register::A)));
    assert_eq!(decode(0x36), t(Transfer::Mvi(Register::M)));
    assert_eq!(decode(0x41), t(Transfer::Mov(Register::B, Register::C)));
    assert_eq!(decode(0x77), t(Transfer::Mov(Register::M, Register::A)));
    assert_eq!(decode(0x7e), t(Transfer::Mov(Register::A, Register::M)));
    assert_eq!(decode(0xeb), t(Transfer::Xchg));
    assert_eq!(decode(0x03), a(Arithmetic::Inx(RegisterPair::BC)));
    assert_eq!(decode(0x3b), a(Arithmetic::Dcx(RegisterPair::SP)));
    assert_eq!(decode(0x34), a(Arithmetic::Inr(Register::M)));
    assert_eq!(decode(0x3d), a(Arithmetic::Dcr(Register::A)));
    assert_eq!(decode(0x29), a(Arithmetic::Dad(RegisterPair::HL)));
    assert_eq!(decode(0x07), a(Arithmetic::Rotate(invaders::alu::Rotation::Left)));
    assert_eq!(decode(0x0f), a(Arithmetic::Rotate(invaders::alu::Rotation::Right)));
    assert_eq!(decode(0x17), a(Arithmetic::Rotate(invaders::alu::Rotation::LeftThroughCarry)));
    assert_eq!(decode(0x1f), a(Arithmetic::Rotate(invaders::alu::Rotation::RightThroughCarry)));
    assert_eq!(decode(0x27), a(Arithmetic::Daa));
    assert_eq!(decode(0x2f), a(Arithmetic::Cma));
    assert_eq!(decode(0x37), a(Arithmetic::Stc));
    assert_eq!(decode(0x3f), a(Arithmetic::Cmc));
    assert_eq!(decode(0x80), a(Arithmetic::Alu(AluOperation::Add, Register::B)));
    assert_eq!(decode(0x8e), a(Arithmetic::Alu(AluOperation::AddWithCarry, Register::M)));
    assert_eq!(decode(0x97), a(Arithmetic::Alu(AluOperation::Subtract, Register::A)));
    assert_eq!(decode(0x9d), a(Arithmetic::Alu(AluOperation::SubtractWithBorrow, Register::L)));
    assert_eq!(decode(0xa1), a(Arithmetic::Alu(AluOperation::And, Register::C)));
    assert_eq!(decode(0xaf), a(Arithmetic::Alu(AluOperation::Xor, Register::A)));
    assert_eq!(decode(0xb2), a(Arithmetic::Alu(AluOperation::Or, Register::D)));
    assert_eq!(decode(0xbb), a(Arithmetic::Alu(AluOperation::Compare, Register::E)));
    assert_eq!(decode(0xc6), a(Arithmetic::AluImmediate(AluOperation::Add)));
    assert_eq!(decode(0xfe), a(Arithmetic::AluImmediate(AluOperation::Compare)));
    assert_eq!(decode(0xc3), b(Branch::Jmp));
    assert_eq!(decode(0xc2), b(Branch::JmpIf(Condition::NotZero)));
    assert_eq!(decode(0xfa), b(Branch::JmpIf(Condition::Minus)));
    assert_eq!(decode(0xcd), b(Branch::Call));
    assert_eq!(decode(0xdc), b(Branch::CallIf(Condition::Carry)));
    assert_eq!(decode(0xc9), b(Branch::Ret));
    assert_eq!(decode(0xe8), b(Branch::RetIf(Condition::ParityEven)));
    assert_eq!(decode(0xc7), b(Branch::Rst(0)));
    assert_eq!(decode(0xff), b(Branch::Rst(7)));
    assert_eq!(decode(0xe9), b(Branch::Pchl));
    assert_eq!(decode(0xc5), c(Control::Push(StackPair::BC)));
    assert_eq!(decode(0xf5), c(Control::Push(StackPair::PSW)));
    assert_eq!(decode(0xe1), c(Control::Pop(StackPair::HL)));
    assert_eq!(decode(0xe3), c(Control::Xthl));
    assert_eq!(decode(0xf9), c(Control::Sphl));
    assert_eq!(decode(0xdb), c(Control::In));
    assert_eq!(decode(0xd3), c(Control::Out));
    assert_eq!(decode(0xfb), c(Control::Ei));
    assert_eq!(decode(0xf3), c(Control::Di));
    assert_eq!(decode(0x76), c(Control::Hlt));
}

#[test]
fn operand_codes_round_trip() {
    for code in 0..8u8 {
        assert_eq!(Register::from_code(code).number(), code);
        assert_eq!(Condition::from_code(code).number(), code);
    }
    for code in 0..4u8 {
        assert_eq!(RegisterPair::from_code(code).number(), code);
        assert_eq!(StackPair::from_code(code).number(), code);
    }
    assert_eq!(IndexPair::BC.number(), 0);
    assert_eq!(IndexPair::DE.number(), 1);
    assert!(Register::M.is_memory());
    assert!(!Register::A.is_memory());
}

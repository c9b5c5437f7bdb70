use invaders::cpu::{Cpu, HALT_IDLE_CYCLES};
use invaders::flags::Flags;
use invaders::instruction::{Condition, RegisterPair};
use invaders::memory::Memory;

fn machine_at(origin: u16, program: &[u8]) -> (Cpu, Memory) {
    let mut memory = Memory::new();
    memory.load_image(program, origin).unwrap();
    let mut cpu = Cpu::new(origin);
    cpu.sp = 0x2400;
    (cpu, memory)
}

fn with_condition(c: Condition, holds: bool) -> Flags {
    let mut f = Flags::new();
    match c {
        Condition::NotZero => f.zero = !holds,
        Condition::Zero => f.zero = holds,
        Condition::NoCarry => f.carry = !holds,
        Condition::Carry => f.carry = holds,
        Condition::ParityOdd => f.parity = !holds,
        Condition::ParityEven => f.parity = holds,
        Condition::Plus => f.sign = !holds,
        Condition::Minus => f.sign = holds,
    }
    f
}

const CONDITIONS: [Condition; 8] = [
    Condition::NotZero,
    Condition::Zero,
    Condition::NoCarry,
    Condition::Carry,
    Condition::ParityOdd,
    Condition::ParityEven,
    Condition::Plus,
    Condition::Minus,
];

#[test]
fn conditions_test_their_flag() {
    for (code, c) in CONDITIONS.iter().enumerate() {
        assert_eq!(Condition::from_code(code as u8), *c);
        assert_eq!(c.number(), code as u8);
        assert!(c.test(&with_condition(*c, true)));
        assert!(!c.test(&with_condition(*c, false)));
    }
}

#[test]
fn jmp_goes_to_the_operand() {
    let (mut cpu, mut memory) = machine_at(0x0100, &[0xc3, 0x00, 0x3e]);
    assert_eq!(cpu.execute_one(&mut memory), Ok(10));
    assert_eq!(cpu.pc, 0x3e00);
    assert_eq!(cpu.sp, 0x2400);
}

#[test]
fn conditional_jumps_take_ten_cycles_either_way() {
    for (code, c) in CONDITIONS.iter().enumerate() {
        let opcode = 0xc2 + 8 * code as u8;
        let (mut cpu, mut memory) = machine_at(0x0100, &[opcode, 0x34, 0x12]);
        cpu.flags = with_condition(*c, true);
        assert_eq!(cpu.execute_one(&mut memory), Ok(10));
        assert_eq!(cpu.pc, 0x1234);
        let (mut cpu, mut memory) = machine_at(0x0100, &[opcode, 0x34, 0x12]);
        cpu.flags = with_condition(*c, false);
        assert_eq!(cpu.execute_one(&mut memory), Ok(10));
        assert_eq!(cpu.pc, 0x0103);
    }
}

#[test]
fn call_pushes_the_return_address() {
    let (mut cpu, mut memory) = machine_at(0x0100, &[0xcd, 0x00, 0x3e]);
    assert_eq!(cpu.execute_one(&mut memory), Ok(17));
    assert_eq!(cpu.pc, 0x3e00);
    assert_eq!(cpu.sp, 0x23fe);
    assert_eq!(memory.read_byte(0x23fe), 0x03);
    assert_eq!(memory.read_byte(0x23ff), 0x01);
}

#[test]
fn conditional_calls_take_seventeen_cycles_taken_and_eleven_not() {
    for (code, c) in CONDITIONS.iter().enumerate() {
        let opcode = 0xc4 + 8 * code as u8;
        let (mut cpu, mut memory) = machine_at(0x0100, &[opcode, 0x34, 0x12]);
        cpu.flags = with_condition(*c, true);
        assert_eq!(cpu.execute_one(&mut memory), Ok(17));
        assert_eq!((cpu.pc, cpu.sp), (0x1234, 0x23fe));
        assert_eq!(memory.read_word(0x23fe), 0x0103);
        let (mut cpu, mut memory) = machine_at(0x0100, &[opcode, 0x34, 0x12]);
        cpu.flags = with_condition(*c, false);
        assert_eq!(cpu.execute_one(&mut memory), Ok(11));
        assert_eq!((cpu.pc, cpu.sp), (0x0103, 0x2400));
        assert_eq!(memory.read_word(0x23fe), 0x0000);
    }
}

#[test]
fn ret_pops_the_program_counter() {
    let (mut cpu, mut memory) = machine_at(0x0100, &[0xc9]);
    memory.write_word(0x2400, 0x3e03);
    assert_eq!(cpu.execute_one(&mut memory), Ok(10));
    assert_eq!((cpu.pc, cpu.sp), (0x3e03, 0x2402));
}

#[test]
fn conditional_returns_take_eleven_cycles_taken_and_five_not() {
    for (code, c) in CONDITIONS.iter().enumerate() {
        let opcode = 0xc0 + 8 * code as u8;
        let (mut cpu, mut memory) = machine_at(0x0100, &[opcode]);
        memory.write_word(0x2400, 0x3e03);
        cpu.flags = with_condition(*c, true);
        assert_eq!(cpu.execute_one(&mut memory), Ok(11));
        assert_eq!((cpu.pc, cpu.sp), (0x3e03, 0x2402));
        let (mut cpu, mut memory) = machine_at(0x0100, &[opcode]);
        memory.write_word(0x2400, 0x3e03);
        cpu.flags = with_condition(*c, false);
        assert_eq!(cpu.execute_one(&mut memory), Ok(5));
        assert_eq!((cpu.pc, cpu.sp), (0x0101, 0x2400));
    }
}

#[test]
fn rst_calls_eight_times_its_number() {
    for n in 0..8u8 {
        let (mut cpu, mut memory) = machine_at(0x0100, &[0xc7 + 8 * n]);
        assert_eq!(cpu.execute_one(&mut memory), Ok(11));
        assert_eq!(cpu.pc, 8 * n as u16);
        assert_eq!(cpu.sp, 0x23fe);
        assert_eq!(memory.read_word(0x23fe), 0x0101);
    }
}

#[test]
fn pchl_and_sphl_copy_hl() {
    let (mut cpu, mut memory) = machine_at(0x0100, &[0xf9, 0xe9]);
    cpu.h = 0x41;
    cpu.l = 0x3e;
    assert_eq!(cpu.execute_one(&mut memory), Ok(5));
    assert_eq!((cpu.sp, cpu.pc), (0x413e, 0x0101));
    assert_eq!(cpu.execute_one(&mut memory), Ok(5));
    assert_eq!(cpu.pc, 0x413e);
}

#[test]
fn push_stores_high_byte_first_below_the_stack_pointer() {
    let (mut cpu, mut memory) = machine_at(0x0100, &[0xd5, 0xc5, 0xe5]);
    cpu.sp = 0x3a2c;
    cpu.d = 0x8f;
    cpu.e = 0x9d;
    cpu.b = 0x12;
    cpu.c = 0x34;
    cpu.h = 0x56;
    cpu.l = 0x78;
    assert_eq!(cpu.execute_one(&mut memory), Ok(11));
    assert_eq!(memory.read_byte(0x3a2b), 0x8f);
    assert_eq!(memory.read_byte(0x3a2a), 0x9d);
    assert_eq!(cpu.sp, 0x3a2a);
    assert_eq!(cpu.execute_one(&mut memory), Ok(11));
    assert_eq!(memory.read_word(0x3a28), 0x1234);
    assert_eq!(cpu.execute_one(&mut memory), Ok(11));
    assert_eq!(memory.read_word(0x3a26), 0x5678);
    assert_eq!((cpu.sp, cpu.pc), (0x3a26, 0x0103));
}

#[test]
fn push_psw_stores_accumulator_and_status_byte() {
    let (mut cpu, mut memory) = machine_at(0x0100, &[0xf5]);
    cpu.sp = 0x502a;
    cpu.a = 0x1f;
    cpu.flags = Flags { zero: true, sign: false, parity: true, carry: true, aux_carry: false };
    assert_eq!(cpu.execute_one(&mut memory), Ok(11));
    assert_eq!(memory.read_byte(0x5029), 0x1f);
    assert_eq!(memory.read_byte(0x5028), 0x47);
    assert_eq!(cpu.sp, 0x5028);
}

#[test]
fn pop_loads_low_byte_first() {
    let (mut cpu, mut memory) = machine_at(0x0100, &[0xe1, 0xc1, 0xd1]);
    cpu.sp = 0x1239;
    memory.write_byte(0x1239, 0x3d);
    memory.write_byte(0x123a, 0x93);
    memory.write_word(0x123b, 0xbeef);
    memory.write_word(0x123d, 0xcafe);
    assert_eq!(cpu.execute_one(&mut memory), Ok(10));
    assert_eq!((cpu.h, cpu.l, cpu.sp), (0x93, 0x3d, 0x123b));
    assert_eq!(cpu.execute_one(&mut memory), Ok(10));
    assert_eq!(cpu.get_pair(RegisterPair::BC), 0xbeef);
    assert_eq!(cpu.execute_one(&mut memory), Ok(10));
    assert_eq!(cpu.get_pair(RegisterPair::DE), 0xcafe);
    assert_eq!((cpu.sp, cpu.pc), (0x123f, 0x0103));
}

#[test]
fn pop_psw_restores_accumulator_and_flags() {
    let (mut cpu, mut memory) = machine_at(0x0100, &[0xf1]);
    cpu.sp = 0x2c00;
    memory.write_byte(0x2c00, 0xc3);
    memory.write_byte(0x2c01, 0xff);
    assert_eq!(cpu.execute_one(&mut memory), Ok(10));
    assert_eq!(cpu.a, 0xff);
    assert_eq!(
        cpu.flags,
        Flags { zero: true, sign: true, parity: false, carry: true, aux_carry: false }
    );
    assert_eq!(cpu.sp, 0x2c02);
}

#[test]
fn stack_wraps_around_the_address_space() {
    let (mut cpu, mut memory) = machine_at(0x0100, &[0xc5, 0xd1]);
    cpu.sp = 0x0001;
    cpu.b = 0xab;
    cpu.c = 0xcd;
    assert_eq!(cpu.execute_one(&mut memory), Ok(11));
    assert_eq!(cpu.sp, 0xffff);
    assert_eq!(memory.read_byte(0xffff), 0xcd);
    assert_eq!(memory.read_byte(0x0000), 0xab);
    assert_eq!(cpu.execute_one(&mut memory), Ok(10));
    assert_eq!((cpu.d, cpu.e, cpu.sp), (0xab, 0xcd, 0x0001));
}

#[test]
fn xthl_exchanges_hl_with_the_top_of_the_stack() {
    let (mut cpu, mut memory) = machine_at(0x0100, &[0xe3]);
    cpu.sp = 0x10ad;
    cpu.h = 0x0b;
    cpu.l = 0x3c;
    memory.write_byte(0x10ad, 0xf0);
    memory.write_byte(0x10ae, 0x0d);
    assert_eq!(cpu.execute_one(&mut memory), Ok(18));
    assert_eq!((cpu.h, cpu.l, cpu.sp), (0x0d, 0xf0, 0x10ad));
    assert_eq!(memory.read_byte(0x10ad), 0x3c);
    assert_eq!(memory.read_byte(0x10ae), 0x0b);
}

#[test]
fn in_reads_a_port_and_out_writes_one() {
    let program = [0xdb, 0x01, 0xd3, 0x02, 0xd3, 0x04, 0xdb, 0x03, 0xdb, 0x07];
    let (mut cpu, mut memory) = machine_at(0x0100, &program);
    memory.set_input_bit(1, 0, true);
    memory.set_input_bit(1, 4, true);
    assert_eq!(cpu.execute_one(&mut memory), Ok(10));
    assert_eq!(cpu.a, 0x11);
    cpu.a = 0x03;
    assert_eq!(cpu.execute_one(&mut memory), Ok(10));
    assert_eq!(memory.ports().shift_amount, 3);
    cpu.a = 0xa5;
    assert_eq!(cpu.execute_one(&mut memory), Ok(10));
    assert_eq!(memory.ports().shift_register, 0xa500);
    assert_eq!(cpu.execute_one(&mut memory), Ok(10));
    assert_eq!(cpu.a, 0x28);
    assert_eq!(cpu.execute_one(&mut memory), Ok(10));
    assert_eq!(cpu.a, 0x00);
    assert_eq!(cpu.pc, 0x010a);
}

#[test]
fn ei_and_di_switch_interrupts() {
    let (mut cpu, mut memory) = machine_at(0x0100, &[0xfb, 0xf3]);
    assert_eq!(cpu.execute_one(&mut memory), Ok(4));
    assert!(cpu.interrupt_enable);
    assert_eq!(cpu.execute_one(&mut memory), Ok(4));
    assert!(!cpu.interrupt_enable);
    assert_eq!(cpu.pc, 0x0102);
}

#[test]
fn hlt_stops_fetching_until_an_interrupt() {
    let (mut cpu, mut memory) = machine_at(0x0100, &[0xfb, 0x76, 0x3c]);
    assert_eq!(cpu.execute_one(&mut memory), Ok(4));
    assert_eq!(cpu.execute_one(&mut memory), Ok(7));
    assert!(cpu.halted);
    assert_eq!(cpu.pc, 0x0102);
    let halted = cpu;
    assert_eq!(HALT_IDLE_CYCLES, 4);
    assert_eq!(cpu.execute_one(&mut memory), Ok(4));
    assert_eq!(cpu.execute_one(&mut memory), Ok(4));
    assert_eq!(cpu, halted);
    assert!(cpu.interrupt(&mut memory, 2));
    assert!(!cpu.halted);
    assert!(!cpu.interrupt_enable);
    assert_eq!((cpu.pc, cpu.sp), (0x0010, 0x23fe));
    assert_eq!(memory.read_word(0x23fe), 0x0102);
}

#[test]
fn interrupt_is_ignored_while_disabled() {
    let (mut cpu, mut memory) = machine_at(0x0100, &[0x00]);
    let before = cpu;
    assert!(!cpu.interrupt(&mut memory, 1));
    assert_eq!(cpu, before);
    assert_eq!(memory.read_word(0x23fe), 0x0000);
}

#[test]
fn interrupt_is_accepted_once_until_enabled_again() {
    let (mut cpu, mut memory) = machine_at(0x0100, &[0x00]);
    cpu.interrupt_enable = true;
    assert!(cpu.interrupt(&mut memory, 1));
    assert_eq!((cpu.pc, cpu.sp), (0x0008, 0x23fe));
    assert_eq!(memory.read_word(0x23fe), 0x0100);
    assert!(!cpu.interrupt_enable);
    let after = cpu;
    assert!(!cpu.interrupt(&mut memory, 2));
    assert_eq!(cpu, after);
}

#[test]
fn interrupt_vectors_above_seven_do_not_exist() {
    let (mut cpu, mut memory) = machine_at(0x0100, &[0x00]);
    cpu.interrupt_enable = true;
    let before = cpu;
    assert!(!cpu.interrupt(&mut memory, 8));
    assert!(!cpu.interrupt(&mut memory, 255));
    assert_eq!(cpu, before);
    assert!(cpu.interrupt(&mut memory, 7));
    assert_eq!(cpu.pc, 0x0038);
}

use invaders::cpu::Cpu;
use invaders::emulator::{
    remaining_frame_time, Emulator, CLOCK_HZ, CYCLES_PER_FRAME, CYCLES_TO_MID_FRAME,
    FRAMES_PER_SECOND, FRAME_TIME_MS,
};
use invaders::error::EmulatorError;
use invaders::instruction::MAX_INSTRUCTION_CYCLES;
use invaders::memory::Memory;
use invaders::state::{ClockRate, EmulatorState};

fn state_with(program: &[u8]) -> EmulatorState {
    let mut memory = Memory::new();
    memory.load_image(program, 0).unwrap();
    EmulatorState::new(memory)
}

/// Sets the stack, enables interrupts and loops; both interrupt routines
/// enable interrupts again and return.
const LOOP_WITH_INTERRUPTS: [u8; 18] = [
    0x31, 0x00, 0x24, // 0000 lxi sp, 2400
    0xfb, // 0003 ei
    0xc3, 0x04, 0x00, // 0004 jmp 0004
    0x00, // 0007
    0xfb, 0xc9, // 0008 ei; ret
    0x00, 0x00, 0x00, 0x00, 0x00, 0x00, // 000a
    0xfb, 0xc9, // 0010 ei; ret
];

#[test]
fn frame_constants() {
    assert_eq!(CLOCK_HZ, 2_000_000);
    assert_eq!(FRAMES_PER_SECOND, 60);
    assert_eq!(CYCLES_PER_FRAME, 33_333);
    assert_eq!(CYCLES_TO_MID_FRAME, 16_666);
    assert_eq!(FRAME_TIME_MS, 16);
    assert_eq!(Emulator::WIDTH, 224);
    assert_eq!(Emulator::HEIGHT, 256);
}

#[test]
fn new_emulator_is_at_reset() {
    let emulator = Emulator::new(0x0100);
    assert_eq!(emulator.cpu, Cpu::new(0x0100));
    assert_eq!(emulator.interrupts_delivered, 0);
}

#[test]
fn frame_of_nops_runs_just_past_the_budget() {
    let mut state = state_with(&[0x00]);
    let mut emulator = Emulator::new(0);
    assert_eq!(emulator.run_one_frame(&mut state), Ok(33_336));
    assert_eq!(emulator.cpu.pc, 8334);
    assert_eq!(emulator.interrupts_delivered, 0);
    assert_eq!(emulator.cpu, Cpu { pc: 8334, ..Cpu::new(0) });
}

#[test]
fn frame_cycles_stay_within_one_instruction_of_the_budget() {
    let programs: [&[u8]; 5] = [
        &[0x00],
        &[0xc3, 0x00, 0x00],
        &[0x31, 0x00, 0x24, 0xcd, 0x03, 0x00],
        &[0x31, 0x00, 0x24, 0xe3, 0xc3, 0x03, 0x00],
        &LOOP_WITH_INTERRUPTS,
    ];
    for program in programs {
        let mut state = state_with(program);
        let mut emulator = Emulator::new(0);
        for _ in 0..5 {
            let cycles = emulator.run_one_frame(&mut state).unwrap();
            assert!(cycles >= CYCLES_PER_FRAME);
            assert!(cycles < CYCLES_PER_FRAME + MAX_INSTRUCTION_CYCLES as u64);
            assert!(emulator.interrupts_delivered <= 2);
        }
    }
}

#[test]
fn both_interrupts_fire_when_enabled_at_the_thresholds() {
    let mut state = state_with(&LOOP_WITH_INTERRUPTS);
    let mut emulator = Emulator::new(0);
    assert_eq!(emulator.run_one_frame(&mut state), Ok(33_338));
    assert_eq!(emulator.interrupts_delivered, 2);
    assert_eq!(emulator.cpu.pc, 0x0010);
    assert_eq!(emulator.cpu.sp, 0x23fe);
    assert!(!emulator.cpu.interrupt_enable);
    assert_eq!(state.memory().read_word(0x23fe), 0x0004);
    assert_eq!(emulator.run_one_frame(&mut state), Ok(33_338));
    assert_eq!(emulator.interrupts_delivered, 2);
    assert_eq!(emulator.cpu.pc, 0x0010);
}

#[test]
fn no_interrupt_fires_while_interrupts_are_disabled() {
    let mut state = state_with(&[0x31, 0x00, 0x24, 0xc3, 0x03, 0x00]);
    let mut emulator = Emulator::new(0);
    assert_eq!(emulator.run_one_frame(&mut state), Ok(33_340));
    assert_eq!(emulator.interrupts_delivered, 0);
    assert_eq!(emulator.cpu.pc, 0x0003);
    assert_eq!(emulator.cpu.sp, 0x2400);
    assert_eq!(state.memory().read_word(0x23fe), 0x0000);
}

#[test]
fn only_the_first_interrupt_fires_when_its_routine_leaves_them_disabled() {
    let mut program = LOOP_WITH_INTERRUPTS;
    program[8] = 0x00;
    let mut state = state_with(&program);
    let mut emulator = Emulator::new(0);
    assert_eq!(emulator.run_one_frame(&mut state), Ok(33_338));
    assert_eq!(emulator.interrupts_delivered, 1);
    assert_eq!(emulator.cpu.pc, 0x0004);
    assert_eq!(emulator.cpu.sp, 0x2400);
    assert!(!emulator.cpu.interrupt_enable);
    assert_eq!(emulator.run_one_frame(&mut state), Ok(33_340));
    assert_eq!(emulator.interrupts_delivered, 0);
}

#[test]
fn halted_processor_idles_through_the_frame_and_wakes_on_an_interrupt() {
    let mut state = state_with(&[0x31, 0x00, 0x24, 0xfb, 0x76, 0x3c, 0xc3, 0x06, 0x00]);
    let mut emulator = Emulator::new(0);
    let cycles = emulator.run_one_frame(&mut state).unwrap();
    assert_eq!(cycles, 33_333);
    assert_eq!(emulator.interrupts_delivered, 1);
    assert!(!emulator.cpu.halted);
    assert!(!emulator.cpu.interrupt_enable);
    assert_eq!(emulator.cpu.a, 0);
    assert_eq!(emulator.cpu.pc, 0x0008 + 4166);
    assert_eq!(state.memory().read_word(0x23fe), 0x0005);
}

#[test]
fn unsupported_opcode_ends_the_frame_where_it_stands() {
    let mut state = state_with(&[0x00, 0x3c, 0x08, 0x3c]);
    let mut emulator = Emulator::new(0);
    assert_eq!(
        emulator.run_one_frame(&mut state),
        Err(EmulatorError::UnsupportedInstruction { opcode: 0x08, pc: 0x0002 })
    );
    assert_eq!(emulator.cpu.pc, 0x0002);
    assert_eq!(emulator.cpu.a, 1);
    assert_eq!(emulator.interrupts_delivered, 0);
    assert_eq!(
        emulator.run_one_frame(&mut state),
        Err(EmulatorError::UnsupportedInstruction { opcode: 0x08, pc: 0x0002 })
    );
    assert_eq!(emulator.cpu.a, 1);
}

#[test]
fn paused_frame_executes_nothing() {
    let mut state = state_with(&LOOP_WITH_INTERRUPTS);
    let mut emulator = Emulator::new(0);
    emulator.run_one_frame(&mut state).unwrap();
    let cpu = emulator.cpu;
    let stack = state.memory().read_word(0x23fe);
    state.pause();
    for _ in 0..3 {
        assert_eq!(emulator.run_one_frame(&mut state), Ok(0));
        assert_eq!(emulator.cpu, cpu);
        assert_eq!(emulator.interrupts_delivered, 0);
        assert_eq!(state.memory().read_word(0x23fe), stack);
        assert!(state.is_paused());
    }
}

#[test]
fn unpausing_resumes_from_the_state_at_the_pause() {
    let mut paused_state = state_with(&LOOP_WITH_INTERRUPTS);
    let mut paused = Emulator::new(0);
    let mut running_state = state_with(&LOOP_WITH_INTERRUPTS);
    let mut running = Emulator::new(0);
    assert_eq!(paused.run_one_frame(&mut paused_state), running.run_one_frame(&mut running_state));
    paused_state.pause();
    assert_eq!(paused.run_one_frame(&mut paused_state), Ok(0));
    assert_eq!(paused.run_one_frame(&mut paused_state), Ok(0));
    assert_eq!(paused.cpu, running.cpu);
    paused_state.unpause();
    for _ in 0..3 {
        let resumed = paused.run_one_frame(&mut paused_state);
        assert_eq!(resumed, running.run_one_frame(&mut running_state));
        assert_eq!(paused.cpu, running.cpu);
        assert_eq!(paused.interrupts_delivered, running.interrupts_delivered);
        for address in [0x23fcu16, 0x23fd, 0x23fe, 0x23ff, 0x2400] {
            assert_eq!(
                paused_state.memory().read_byte(address),
                running_state.memory().read_byte(address)
            );
        }
    }
}

#[test]
fn program_that_draws_and_halts_shows_in_the_framebuffer() {
    let mut state = state_with(&[
        0x3e, 0xa5, // mvi a, a5
        0x32, 0x00, 0x24, // sta 2400
        0x3e, 0x3c, // mvi a, 3c
        0x32, 0x21, 0x24, // sta 2421
        0x21, 0xff, 0x3f, // lxi h, 3fff
        0x36, 0x81, // mvi m, 81
        0x76, // hlt
    ]);
    let mut emulator = Emulator::new(0);
    assert_eq!(state.framebuffer_byte(0), 0x00);
    let cycles = emulator.run_one_frame(&mut state).unwrap();
    assert!(cycles >= CYCLES_PER_FRAME);
    assert!(emulator.cpu.halted);
    assert_eq!(state.framebuffer_byte(0), 0xa5);
    assert_eq!(state.framebuffer_byte(0x21), 0x3c);
    assert_eq!(state.framebuffer_byte(7167), 0x81);
    assert_eq!(state.framebuffer_byte(1), 0x00);
    assert_eq!(state.memory().read_byte(0x2400), 0xa5);
}

#[test]
fn frame_pacing_waits_for_the_rest_of_sixteen_milliseconds() {
    assert_eq!(remaining_frame_time(0), Some(16));
    assert_eq!(remaining_frame_time(1), Some(15));
    assert_eq!(remaining_frame_time(15), Some(1));
    assert_eq!(remaining_frame_time(16), None);
    assert_eq!(remaining_frame_time(17), None);
    assert_eq!(remaining_frame_time(u128::MAX), None);
}

#[test]
fn measured_clock_rate_is_kept_as_given() {
    let mut state = state_with(&[0x00]);
    assert_eq!(state.get_measured_clock_mhz(), ClockRate { cycles: 0, micros: 0 });
    state.set_measured_clock_mhz(ClockRate { cycles: 33_338, micros: 16_667 });
    assert_eq!(state.get_measured_clock_mhz(), ClockRate { cycles: 33_338, micros: 16_667 });
    assert!(!state.is_paused());
    assert_eq!(state.memory().read_byte(0), 0);
}

#[test]
fn clock_rate_in_hundredths_of_a_megahertz() {
    assert_eq!(ClockRate { cycles: 33_338, micros: 16_667 }.hundredths_of_mhz(), Some(200));
    assert_eq!(ClockRate { cycles: 33_333, micros: 16_000 }.hundredths_of_mhz(), Some(208));
    assert_eq!(ClockRate { cycles: 1, micros: 1 }.hundredths_of_mhz(), Some(100));
    assert_eq!(ClockRate { cycles: 199, micros: 100 }.hundredths_of_mhz(), Some(199));
    assert_eq!(ClockRate { cycles: 0, micros: 5 }.hundredths_of_mhz(), Some(0));
    assert_eq!(ClockRate { cycles: 5, micros: 0 }.hundredths_of_mhz(), None);
}

#[test]
fn clock_rate_rounds_to_the_nearest_hundredth() {
    assert_eq!(ClockRate { cycles: 1994, micros: 1000 }.hundredths_of_mhz(), Some(199));
    assert_eq!(ClockRate { cycles: 1995, micros: 1000 }.hundredths_of_mhz(), Some(200));
    assert_eq!(ClockRate { cycles: 1996, micros: 1000 }.hundredths_of_mhz(), Some(200));
    assert_eq!(ClockRate { cycles: 2, micros: 3 }.hundredths_of_mhz(), Some(67));
    assert_eq!(ClockRate { cycles: 1, micros: 3 }.hundredths_of_mhz(), Some(33));
    assert_eq!(ClockRate { cycles: 1, micros: 200 }.hundredths_of_mhz(), Some(1));
    assert_eq!(ClockRate { cycles: 1, micros: 201 }.hundredths_of_mhz(), Some(0));
    assert_eq!(
        ClockRate { cycles: u64::MAX, micros: 1 }.hundredths_of_mhz(),
        Some(u64::MAX as u128 * 100)
    );
    assert_eq!(ClockRate { cycles: u64::MAX, micros: u64::MAX }.hundredths_of_mhz(), Some(100));
}

#[test]
fn pause_and_unpause_touch_only_the_flag() {
    let mut state = state_with(&[0x12, 0x34]);
    state.set_input_bit(1, 2, true);
    state.set_measured_clock_mhz(ClockRate { cycles: 2, micros: 1 });
    assert!(!state.is_paused());
    state.pause();
    assert!(state.is_paused());
    state.pause();
    assert!(state.is_paused());
    state.unpause();
    assert!(!state.is_paused());
    assert_eq!(state.memory().read_port(1), 0x04);
    assert_eq!(state.memory().read_byte(1), 0x34);
    assert_eq!(state.get_measured_clock_mhz(), ClockRate { cycles: 2, micros: 1 });
}

#[test]
fn input_bits_of_the_shared_state_reach_the_processor() {
    let mut state = state_with(&[0xdb, 0x01, 0x47, 0xdb, 0x02, 0x76]);
    state.set_input_bit(1, 0, true);
    state.set_input_bit(1, 5, true);
    state.set_input_bit(2, 6, true);
    state.set_input_bit(1, 0, false);
    let mut emulator = Emulator::new(0);
    emulator.run_one_frame(&mut state).unwrap();
    assert_eq!(emulator.cpu.b, 0x20);
    assert_eq!(emulator.cpu.a, 0x40);
}

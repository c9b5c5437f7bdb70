//! The frame scheduler: it runs the processor for one video frame's worth
//! of clock cycles and raises the two interrupts of the frame, one when
//! the beam is half way down the screen and one when it has reached the
//! end.

use vstd::prelude::*;
use crate::cpu::{lemma_step_cycles, lemma_step_keeps_address_space, machine, Cpu, Machine};
use crate::error::EmulatorError;
use crate::instruction::MAX_INSTRUCTION_CYCLES;
use crate::memory::Memory;
use crate::state::{EmulatorState, StateModel};

verus! {

/// The clock rate of the processor, in cycles per second.
pub const CLOCK_HZ: u64 = 2_000_000;

/// The frames shown per second.
pub const FRAMES_PER_SECOND: u64 = 60;

/// The clock cycles of one frame.
pub const CYCLES_PER_FRAME: u64 = CLOCK_HZ / FRAMES_PER_SECOND;

/// The clock cycles from the start of a frame to the middle of the screen.
pub const CYCLES_TO_MID_FRAME: u64 = CYCLES_PER_FRAME / 2;

/// The interrupt vector raised in the middle of the screen.
pub const MID_FRAME_VECTOR: u8 = 1;

/// The interrupt vector raised at the end of the screen.
pub const END_OF_FRAME_VECTOR: u8 = 2;

/// The milliseconds that a frame lasts, rounded down.
pub const FRAME_TIME_MS: u64 = 1000 / FRAMES_PER_SECOND;

/// How far a run of the machine got.
pub struct Progress {
    /// The machine where the run ended.
    pub machine: Machine,
    /// The clock cycles counted when it ended.
    pub cycles: nat,
    /// The error that ended it, if one did.
    pub fault: Option<EmulatorError>,
}

/// The clock cycles still to count before `threshold` is reached.
pub open spec fn cycles_left(elapsed: nat, threshold: nat) -> nat {
    if elapsed < threshold {
        (threshold - elapsed) as nat
    } else {
        0
    }
}

/// The machine stepped until the cycle count, which starts at `elapsed`,
/// has reached `threshold`. The step that reaches the threshold is
/// executed whole, so the count may pass it. A step that fails ends the
/// run where it stands.
pub open spec fn run_until(m: Machine, elapsed: nat, threshold: nat) -> Progress
    decreases cycles_left(elapsed, threshold),
{
    if elapsed >= threshold {
        Progress { machine: m, cycles: elapsed, fault: None }
    } else {
        match m.step() {
            Ok(step) => {
                proof {
                    lemma_step_cycles(m);
                }
                run_until(step.machine, elapsed + step.cycles as nat, threshold)
            },
            Err(e) => Progress { machine: m, cycles: elapsed, fault: Some(e) },
        }
    }
}

/// What one frame makes of a machine.
pub struct Frame {
    /// The machine at the end of the frame.
    pub machine: Machine,
    /// The clock cycles executed.
    pub cycles: nat,
    /// The interrupts that the processor accepted.
    pub interrupts: nat,
    /// The error that ended the frame early, if one did.
    pub fault: Option<EmulatorError>,
}

/// One if an interrupt on `vector` would be accepted, else zero.
pub open spec fn accepted(m: Machine, vector: u8) -> nat {
    if m.accepts(vector) {
        1
    } else {
        0
    }
}

/// One frame of a running machine. The machine is stepped to the middle
/// of the screen and the first interrupt is requested; it is stepped on,
/// with the same cycle count, to the end of the frame and the second
/// interrupt is requested. A step that fails ends the frame at once.
pub open spec fn frame(m: Machine) -> Frame {
    let first = run_until(m, 0, CYCLES_TO_MID_FRAME as nat);
    if first.fault is Some {
        Frame { machine: first.machine, cycles: first.cycles, interrupts: 0, fault: first.fault }
    } else {
        let middle = first.machine;
        let second = run_until(
            middle.interrupted(MID_FRAME_VECTOR),
            first.cycles,
            CYCLES_PER_FRAME as nat,
        );
        if second.fault is Some {
            Frame {
                machine: second.machine,
                cycles: second.cycles,
                interrupts: accepted(middle, MID_FRAME_VECTOR),
                fault: second.fault,
            }
        } else {
            let end = second.machine;
            Frame {
                machine: end.interrupted(END_OF_FRAME_VECTOR),
                cycles: second.cycles,
                interrupts: accepted(middle, MID_FRAME_VECTOR) + accepted(end, END_OF_FRAME_VECTOR),
                fault: None,
            }
        }
    }
}

/// What a call for one frame makes of the processor and the shared state.
/// While emulation is paused nothing is executed and nothing changes.
pub open spec fn frame_outcome(cpu: Cpu, state: StateModel) -> (Cpu, StateModel, Frame) {
    if state.paused {
        let m = Machine { cpu, bus: state.bus };
        (cpu, state, Frame { machine: m, cycles: 0, interrupts: 0, fault: None })
    } else {
        let f = frame(Machine { cpu, bus: state.bus });
        (f.machine.cpu, state.with_bus(f.machine.bus), f)
    }
}

/// The emulator: the processor and the scheduler that drives it.
pub struct Emulator {
    /// The processor.
    pub cpu: Cpu,
    /// The interrupts that the processor accepted during the last frame.
    pub interrupts_delivered: u8,
}

impl Emulator {
    /// The width of the picture in pixels.
    pub const WIDTH: usize = crate::display::WIDTH;

    /// The height of the picture in pixels.
    pub const HEIGHT: usize = crate::display::HEIGHT;

    /// An emulator whose processor is at reset and will start at `pc`.
    pub fn new(pc: u16) -> (r: Emulator)
        ensures
            r.cpu == Cpu::reset(pc),
            r.interrupts_delivered == 0,
    {
        Emulator { cpu: Cpu::new(pc), interrupts_delivered: 0 }
    }

    /// Steps the processor until the cycle count, which starts at
    /// `elapsed`, has reached `threshold`.
    fn run_until(&mut self, memory: &mut Memory, elapsed: u64, threshold: u64) -> (r: Result<
        u64,
        EmulatorError,
    >)
        requires
            elapsed <= threshold + MAX_INSTRUCTION_CYCLES,
            threshold <= CYCLES_PER_FRAME,
        ensures
            ({
                let p = run_until(
                    machine(old(self).cpu, *old(memory)),
                    elapsed as nat,
                    threshold as nat,
                );
                &&& machine(final(self).cpu, *final(memory)) == p.machine
                &&& final(self).interrupts_delivered == old(self).interrupts_delivered
                &&& r == match p.fault {
                    Some(e) => Err::<u64, EmulatorError>(e),
                    None => Ok::<u64, EmulatorError>(p.cycles as u64),
                }
                &&& p.fault is None ==> p.cycles <= u64::MAX
            }),
    {
        let mut total = elapsed;
        while total < threshold
            invariant
                threshold <= CYCLES_PER_FRAME,
                total <= threshold + MAX_INSTRUCTION_CYCLES,
                self.interrupts_delivered == old(self).interrupts_delivered,
                run_until(machine(self.cpu, *memory), total as nat, threshold as nat) == run_until(
                    machine(old(self).cpu, *old(memory)),
                    elapsed as nat,
                    threshold as nat,
                ),
            decreases cycles_left(total as nat, threshold as nat),
        {
            proof {
                lemma_step_cycles(machine(self.cpu, *memory));
            }
            match self.cpu.execute_one(memory) {
                Ok(cycles) => {
                    total = total + cycles as u64;
                },
                Err(e) => {
                    return Err(e);
                },
            }
        }
        Ok(total)
    }

    /// Runs the processor for one frame and returns the clock cycles it
    /// executed. While emulation is paused nothing is executed and zero is
    /// returned. An opcode that encodes no documented instruction ends the
    /// frame at once with an error; the processor is left at that opcode.
    pub fn run_one_frame(&mut self, shared: &mut EmulatorState) -> (r: Result<u64, EmulatorError>)
        ensures
            ({
                let (cpu, state, f) = frame_outcome(old(self).cpu, old(shared)@);
                &&& final(self).cpu == cpu
                &&& final(shared)@ == state
                &&& final(self).interrupts_delivered == f.interrupts
                &&& r == match f.fault {
                    Some(e) => Err::<u64, EmulatorError>(e),
                    None => Ok::<u64, EmulatorError>(f.cycles as u64),
                }
            }),
            final(self).interrupts_delivered <= 2,
            r matches Ok(cycles) ==> (if old(shared)@.paused {
                cycles == 0
            } else {
                CYCLES_PER_FRAME <= cycles < CYCLES_PER_FRAME + MAX_INSTRUCTION_CYCLES
            }),
    {
        proof {
            shared.lemma_view();
            lemma_frame_cycles(machine(self.cpu, shared.memory));
        }
        self.interrupts_delivered = 0;
        if shared.paused {
            return Ok(0);
        }
        let at_middle = match self.run_until(&mut shared.memory, 0, CYCLES_TO_MID_FRAME) {
            Ok(cycles) => cycles,
            Err(e) => {
                proof {
                    shared.lemma_view();
                }
                return Err(e);
            },
        };
        if self.cpu.interrupt(&mut shared.memory, MID_FRAME_VECTOR) {
            self.interrupts_delivered = 1;
        }
        let at_end = match self.run_until(&mut shared.memory, at_middle, CYCLES_PER_FRAME) {
            Ok(cycles) => cycles,
            Err(e) => {
                proof {
                    shared.lemma_view();
                }
                return Err(e);
            },
        };
        if self.cpu.interrupt(&mut shared.memory, END_OF_FRAME_VECTOR) {
            self.interrupts_delivered = self.interrupts_delivered + 1;
        }
        proof {
            shared.lemma_view();
        }
        Ok(at_end)
    }
}

/// The milliseconds still to wait after a frame that took `elapsed_ms`, so
/// that frames follow each other every `FRAME_TIME_MS`; `None` when the
/// frame took that long or longer. Time lost is not made up.
pub fn remaining_frame_time(elapsed_ms: u128) -> (r: Option<u64>)
    ensures
        elapsed_ms < FRAME_TIME_MS ==> r == Some((FRAME_TIME_MS - elapsed_ms) as u64),
        elapsed_ms >= FRAME_TIME_MS ==> r is None,
{
    if elapsed_ms < FRAME_TIME_MS as u128 {
        Some(FRAME_TIME_MS - elapsed_ms as u64)
    } else {
        None
    }
}

/// A run counts no fewer cycles than it started with. One that ends
/// without error and had to step at all ends on the step that reached the
/// threshold; one that fails ends below the threshold.
pub proof fn lemma_run_until_cycles(m: Machine, elapsed: nat, threshold: nat)
    ensures
        ({
            let p = run_until(m, elapsed, threshold);
            &&& elapsed <= p.cycles
            &&& elapsed >= threshold ==> p.cycles == elapsed && p.fault is None && p.machine == m
            &&& elapsed < threshold && p.fault is None ==> threshold <= p.cycles < threshold
                + MAX_INSTRUCTION_CYCLES
            &&& p.fault is Some ==> p.cycles < threshold
        }),
    decreases cycles_left(elapsed, threshold),
{
    if elapsed < threshold {
        lemma_step_cycles(m);
        match m.step() {
            Ok(step) => {
                lemma_run_until_cycles(step.machine, elapsed + step.cycles as nat, threshold);
            },
            Err(_) => {},
        }
    }
}

/// A frame that ends without error has executed at least
/// `CYCLES_PER_FRAME` clock cycles, and fewer than that plus the cycles of
/// the longest instruction: the count passes each of the two thresholds
/// by less than one instruction, and the second interval starts with what
/// the first ran over. One that fails has executed fewer than
/// `CYCLES_PER_FRAME`.
pub proof fn lemma_frame_cycles(m: Machine)
    ensures
        frame(m).fault is None ==> CYCLES_PER_FRAME <= frame(m).cycles < CYCLES_PER_FRAME
            + MAX_INSTRUCTION_CYCLES,
        frame(m).fault is None ==> CYCLES_PER_FRAME - MAX_INSTRUCTION_CYCLES <= frame(m).cycles
            <= CYCLES_PER_FRAME + 2 * MAX_INSTRUCTION_CYCLES,
        frame(m).fault is Some ==> frame(m).cycles < CYCLES_PER_FRAME,
{
    let first = run_until(m, 0, CYCLES_TO_MID_FRAME as nat);
    lemma_run_until_cycles(m, 0, CYCLES_TO_MID_FRAME as nat);
    if first.fault is None {
        lemma_run_until_cycles(
            first.machine.interrupted(MID_FRAME_VECTOR),
            first.cycles,
            CYCLES_PER_FRAME as nat,
        );
    }
}

/// A run leaves the bus a whole address space.
pub proof fn lemma_run_until_keeps_address_space(m: Machine, elapsed: nat, threshold: nat)
    requires
        m.bus.wf(),
    ensures
        run_until(m, elapsed, threshold).machine.bus.wf(),
    decreases cycles_left(elapsed, threshold),
{
    if elapsed < threshold {
        lemma_step_cycles(m);
        lemma_step_keeps_address_space(m);
        match m.step() {
            Ok(step) => {
                lemma_run_until_keeps_address_space(
                    step.machine,
                    elapsed + step.cycles as nat,
                    threshold,
                );
            },
            Err(_) => {},
        }
    }
}

/// A frame leaves the bus a whole address space.
pub proof fn lemma_frame_keeps_address_space(m: Machine)
    requires
        m.bus.wf(),
    ensures
        frame(m).machine.bus.wf(),
{
    let first = run_until(m, 0, CYCLES_TO_MID_FRAME as nat);
    lemma_run_until_keeps_address_space(m, 0, CYCLES_TO_MID_FRAME as nat);
    lemma_run_until_keeps_address_space(
        first.machine.interrupted(MID_FRAME_VECTOR),
        first.cycles,
        CYCLES_PER_FRAME as nat,
    );
}

/// At most two interrupts are accepted in a frame, one at each threshold,
/// and none at a threshold that the processor reaches with interrupts
/// disabled: the request then changes nothing.
pub proof fn lemma_frame_interrupts(m: Machine)
    ensures
        frame(m).interrupts <= 2,
        ({
            let first = run_until(m, 0, CYCLES_TO_MID_FRAME as nat);
            let middle = first.machine;
            let second = run_until(
                middle.interrupted(MID_FRAME_VECTOR),
                first.cycles,
                CYCLES_PER_FRAME as nat,
            );
            let end = second.machine;
            &&& !middle.cpu.interrupt_enable ==> middle.interrupted(MID_FRAME_VECTOR) == middle
            &&& !end.cpu.interrupt_enable ==> end.interrupted(END_OF_FRAME_VECTOR) == end
            &&& first.fault is None && second.fault is None ==> frame(m).interrupts == accepted(
                middle,
                MID_FRAME_VECTOR,
            ) + accepted(end, END_OF_FRAME_VECTOR)
            &&& first.fault is None && second.fault is None && !middle.cpu.interrupt_enable
                && !end.cpu.interrupt_enable ==> frame(m).interrupts == 0 && frame(m).machine
                == end
        }),
{
}

/// A frame requested while emulation is paused executes nothing, and the
/// frame after unpausing is the frame that would have run had emulation
/// never been paused: the processor resumes from the state it was paused
/// in.
pub proof fn lemma_pause_resumes(cpu: Cpu, state: StateModel)
    ensures
        frame_outcome(cpu, state.pause()).0 == cpu,
        frame_outcome(cpu, state.pause()).1 == state.pause(),
        frame_outcome(cpu, state.pause()).2.cycles == 0,
        frame_outcome(cpu, state.pause()).2.interrupts == 0,
        frame_outcome(cpu, state.pause().unpause()) == frame_outcome(cpu, state.unpause()),
        !state.paused ==> state.pause().unpause() == state,
{
}

} // verus!

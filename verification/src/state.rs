//! The state shared between the emulation worker and the side that shows
//! the picture and reads the controls. It wraps the memory and port map;
//! its owner puts it behind one lock, and each side goes through the
//! methods here.

use vstd::prelude::*;
use crate::memory::{Bus, Memory, VIDEO_RAM_SIZE};

verus! {

/// A measured clock rate, kept as the exact ratio of clock cycles to
/// microseconds; cycles per microsecond are megahertz.
#[derive(Clone, Copy, PartialEq, Eq, Debug, Structural)]
pub struct ClockRate {
    /// The clock cycles executed.
    pub cycles: u64,
    /// The microseconds they took.
    pub micros: u64,
}

impl ClockRate {
    /// The rate in hundredths of a megahertz, rounded to the nearest, a
    /// half upwards; nothing when no time has passed.
    pub open spec fn hundredths(self) -> Option<int> {
        if self.micros == 0 {
            None
        } else {
            Some((200 * self.cycles + self.micros) / (2 * self.micros))
        }
    }

    /// The rate in hundredths of a megahertz, rounded to the nearest;
    /// `None` when no time has passed.
    pub fn hundredths_of_mhz(&self) -> (r: Option<u128>)
        ensures
            r is None <==> self.hundredths() is None,
            r matches Some(v) ==> self.hundredths() == Some(v as int),
    {
        if self.micros == 0 {
            None
        } else {
            let cycles = self.cycles as u128;
            let micros = self.micros as u128;
            Some((200 * cycles + micros) / (2 * micros))
        }
    }
}

/// The mathematical model of the shared state.
pub struct StateModel {
    /// Whether emulation is paused.
    pub paused: bool,
    /// The clock rate last measured.
    pub clock: ClockRate,
    /// The memory and port map.
    pub bus: Bus,
}

impl StateModel {
    /// The state with emulation paused.
    pub open spec fn pause(self) -> StateModel {
        StateModel { paused: true, ..self }
    }

    /// The state with emulation running.
    pub open spec fn unpause(self) -> StateModel {
        StateModel { paused: false, ..self }
    }

    /// The state after bit `bit` of input port `port` is set to `on`.
    pub open spec fn with_input_bit(self, port: u8, bit: u8, on: bool) -> StateModel {
        StateModel { bus: self.bus.with_input_bit(port, bit, on), ..self }
    }

    /// The state with another measured clock rate.
    pub open spec fn with_clock(self, clock: ClockRate) -> StateModel {
        StateModel { clock, ..self }
    }

    /// The state with another bus.
    pub open spec fn with_bus(self, bus: Bus) -> StateModel {
        StateModel { bus, ..self }
    }
}

/// The shared state.
pub struct EmulatorState {
    pub(crate) paused: bool,
    pub(crate) clock: ClockRate,
    pub(crate) memory: Memory,
}

impl View for EmulatorState {
    type V = StateModel;

    closed spec fn view(&self) -> StateModel {
        StateModel { paused: self.paused, clock: self.clock, bus: self.memory@ }
    }
}

impl EmulatorState {
    /// The model is made of the three parts of the state.
    pub(crate) proof fn lemma_view(self)
        ensures
            self@ == (StateModel { paused: self.paused, clock: self.clock, bus: self.memory@ }),
    {
    }

    /// The state around `memory`: running, with no clock rate measured yet.
    pub fn new(memory: Memory) -> (r: EmulatorState)
        ensures
            r@ == (StateModel {
                paused: false,
                clock: ClockRate { cycles: 0, micros: 0 },
                bus: memory@,
            }),
    {
        EmulatorState { paused: false, clock: ClockRate { cycles: 0, micros: 0 }, memory }
    }

    pub fn pause(&mut self)
        ensures
            final(self)@ == old(self)@.pause(),
    {
        self.paused = true;
    }

    pub fn unpause(&mut self)
        ensures
            final(self)@ == old(self)@.unpause(),
    {
        self.paused = false;
    }

    pub fn is_paused(&self) -> (r: bool)
        ensures
            r == self@.paused,
    {
        self.paused
    }

    /// Sets or clears one bit of an input port. Ports 1 and 2 have bits 0
    /// to 7; any other request is ignored.
    pub fn set_input_bit(&mut self, port: u8, bit_index: u8, value: bool)
        ensures
            final(self)@ == old(self)@.with_input_bit(port, bit_index, value),
    {
        self.memory.set_input_bit(port, bit_index, value);
    }

    pub fn set_measured_clock_mhz(&mut self, rate: ClockRate)
        ensures
            final(self)@ == old(self)@.with_clock(rate),
    {
        self.clock = rate;
    }

    pub fn get_measured_clock_mhz(&self) -> (r: ClockRate)
        ensures
            r == self@.clock,
    {
        self.clock
    }

    /// Byte `index` of video memory in column order: byte 0 is the first
    /// strip of eight pixels of the first column.
    pub fn framebuffer_byte(&self, index: usize) -> (r: u8)
        requires
            index < VIDEO_RAM_SIZE,
        ensures
            r == self@.bus.video_byte(index as int),
    {
        self.memory.video_byte(index)
    }

    /// The memory and port map.
    pub fn memory(&self) -> (r: &Memory)
        ensures
            r@ == self@.bus,
    {
        &self.memory
    }
}

} // verus!

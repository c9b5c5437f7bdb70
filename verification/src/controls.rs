//! The controls: which key stands for which button of the cabinet, and
//! what a key event does to the shared state.

use vstd::prelude::*;
use crate::memory::{INPUT_PORT_1, INPUT_PORT_2};
use crate::state::{EmulatorState, StateModel};

verus! {

/// The keys that mean something to the machine; every other key is
/// `Other`.
#[derive(Clone, Copy, PartialEq, Eq, Debug, Structural)]
pub enum Key {
    Escape,
    P,
    C,
    Num1,
    Num2,
    Space,
    Left,
    Right,
    S,
    A,
    D,
    Other,
}

/// What the window reports.
#[derive(Clone, Copy, PartialEq, Eq, Debug, Structural)]
pub enum InputEvent {
    /// The window was closed.
    Quit,
    /// A key went down.
    KeyDown(Key),
    /// A key came up.
    KeyUp(Key),
    /// Anything else.
    Other,
}

/// A button of the cabinet; each is one bit of an input port.
#[derive(Clone, Copy, PartialEq, Eq, Debug, Structural)]
pub enum Button {
    /// The coin slot.
    Coin,
    /// The start button of a game for two players.
    Start2,
    /// The start button of a game for one player.
    Start1,
    /// The first player's fire button.
    Fire1,
    /// The first player's button to move left.
    Left1,
    /// The first player's button to move right.
    Right1,
    /// The second player's fire button.
    Fire2,
    /// The second player's button to move left.
    Left2,
    /// The second player's button to move right.
    Right2,
}

impl Button {
    /// The input port that the button is wired to.
    pub open spec fn port(self) -> u8 {
        match self {
            Button::Coin => INPUT_PORT_1,
            Button::Start2 => INPUT_PORT_1,
            Button::Start1 => INPUT_PORT_1,
            Button::Fire1 => INPUT_PORT_1,
            Button::Left1 => INPUT_PORT_1,
            Button::Right1 => INPUT_PORT_1,
            Button::Fire2 => INPUT_PORT_2,
            Button::Left2 => INPUT_PORT_2,
            Button::Right2 => INPUT_PORT_2,
        }
    }

    /// The bit of its port that the button is wired to.
    pub open spec fn bit(self) -> u8 {
        match self {
            Button::Coin => 0,
            Button::Start2 => 1,
            Button::Start1 => 2,
            Button::Fire1 | Button::Fire2 => 4,
            Button::Left1 | Button::Left2 => 5,
            Button::Right1 | Button::Right2 => 6,
        }
    }

    /// The input port that the button is wired to.
    pub fn port_number(self) -> (r: u8)
        ensures
            r == self.port(),
    {
        match self {
            Button::Fire2 | Button::Left2 | Button::Right2 => INPUT_PORT_2,
            _ => INPUT_PORT_1,
        }
    }

    /// The bit of its port that the button is wired to.
    pub fn bit_index(self) -> (r: u8)
        ensures
            r == self.bit(),
            r < 8,
    {
        match self {
            Button::Coin => 0,
            Button::Start2 => 1,
            Button::Start1 => 2,
            Button::Fire1 | Button::Fire2 => 4,
            Button::Left1 | Button::Left2 => 5,
            Button::Right1 | Button::Right2 => 6,
        }
    }
}

impl Key {
    /// The button that the key stands for, if it stands for one.
    pub open spec fn button(self) -> Option<Button> {
        match self {
            Key::C => Some(Button::Coin),
            Key::Num2 => Some(Button::Start2),
            Key::Num1 => Some(Button::Start1),
            Key::Space => Some(Button::Fire1),
            Key::Left => Some(Button::Left1),
            Key::Right => Some(Button::Right1),
            Key::S => Some(Button::Fire2),
            Key::A => Some(Button::Left2),
            Key::D => Some(Button::Right2),
            Key::Escape | Key::P | Key::Other => None,
        }
    }

    /// The button that the key stands for, if it stands for one.
    pub fn to_button(self) -> (r: Option<Button>)
        ensures
            r == self.button(),
    {
        match self {
            Key::C => Some(Button::Coin),
            Key::Num2 => Some(Button::Start2),
            Key::Num1 => Some(Button::Start1),
            Key::Space => Some(Button::Fire1),
            Key::Left => Some(Button::Left1),
            Key::Right => Some(Button::Right1),
            Key::S => Some(Button::Fire2),
            Key::A => Some(Button::Left2),
            Key::D => Some(Button::Right2),
            _ => None,
        }
    }
}

impl InputEvent {
    /// Whether the event ends the session: the window was closed, or
    /// Escape went down.
    pub open spec fn quits(self) -> bool {
        self == InputEvent::Quit || self == InputEvent::KeyDown(Key::Escape)
    }
}

impl StateModel {
    /// The state with button `b` pressed or released.
    pub open spec fn with_button(self, b: Button, pressed: bool) -> StateModel {
        self.with_input_bit(b.port(), b.bit(), pressed)
    }

    /// The state after an event.
    ///
    /// - `P` going down pauses a running emulation and resumes a paused one.
    /// - A key that stands for a button presses it when it goes down and
    ///   releases it when it comes up. The space bar is the exception:
    ///   going down while emulation is paused, it resumes emulation and
    ///   presses nothing.
    /// - Any other key but Escape going down resumes a paused emulation.
    /// - Nothing else changes the state.
    pub open spec fn after_event(self, event: InputEvent) -> StateModel {
        match event {
            InputEvent::KeyDown(Key::P) => if self.paused {
                self.unpause()
            } else {
                self.pause()
            },
            InputEvent::KeyDown(Key::Escape) => self,
            InputEvent::KeyDown(Key::Space) => if self.paused {
                self.unpause()
            } else {
                self.with_button(Button::Fire1, true)
            },
            InputEvent::KeyDown(key) => match key.button() {
                Some(b) => self.with_button(b, true),
                None => self.unpause(),
            },
            InputEvent::KeyUp(key) => match key.button() {
                Some(b) => self.with_button(b, false),
                None => self,
            },
            InputEvent::Quit | InputEvent::Other => self,
        }
    }
}

impl EmulatorState {
    /// Presses or releases a button.
    pub fn set_button(&mut self, b: Button, pressed: bool)
        ensures
            final(self)@ == old(self)@.with_button(b, pressed),
    {
        self.set_input_bit(b.port_number(), b.bit_index(), pressed);
    }

    /// Applies an event to the state and reports whether it ends the
    /// session.
    pub fn handle_event(&mut self, event: InputEvent) -> (quit: bool)
        ensures
            quit == event.quits(),
            final(self)@ == old(self)@.after_event(event),
    {
        match event {
            InputEvent::Quit => true,
            InputEvent::Other => false,
            InputEvent::KeyDown(key) => {
                match key {
                    Key::Escape => true,
                    Key::P => {
                        if self.is_paused() {
                            self.unpause();
                        } else {
                            self.pause();
                        }
                        false
                    },
                    Key::Space => {
                        if self.is_paused() {
                            self.unpause();
                        } else {
                            self.set_button(Button::Fire1, true);
                        }
                        false
                    },
                    _ => {
                        match key.to_button() {
                            Some(b) => {
                                self.set_button(b, true);
                            },
                            None => {
                                if self.is_paused() {
                                    self.unpause();
                                }
                            },
                        }
                        false
                    },
                }
            },
            InputEvent::KeyUp(key) => {
                match key.to_button() {
                    Some(b) => {
                        self.set_button(b, false);
                    },
                    None => {},
                }
                false
            },
        }
    }
}

} // verus!

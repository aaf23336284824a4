use crate::bits::lemma_shift_arithmetic;
use crate::text::append_either;
use vstd::prelude::*;

verus! {

pub const BUTTON_A: u8 = 0b0000_0001;

pub const BUTTON_B: u8 = 0b0000_0010;

pub const BUTTON_SELECT: u8 = 0b0000_0100;

pub const BUTTON_START: u8 = 0b0000_1000;

pub const BUTTON_UP: u8 = 0b0001_0000;

pub const BUTTON_DOWN: u8 = 0b0010_0000;

pub const BUTTON_LEFT: u8 = 0b0100_0000;

pub const BUTTON_RIGHT: u8 = 0b1000_0000;

/// A controller as plain values.
pub struct ControllerState {
    pub button_a: bool,
    pub button_b: bool,
    pub button_select: bool,
    pub button_start: bool,
    pub button_up: bool,
    pub button_down: bool,
    pub button_left: bool,
    pub button_right: bool,
    /// Whether the strobe line is high.
    pub latch_state: bool,
    /// The shift register.
    pub captured_byte: u8,
}

/// 1 for a pressed button, 0 for a released one.
pub open spec fn pressed(button: bool) -> int {
    if button {
        1
    } else {
        0
    }
}

impl ControllerState {
    /// A controller with every button released and the strobe line low.
    pub open spec fn released() -> ControllerState {
        ControllerState {
            button_a: false,
            button_b: false,
            button_select: false,
            button_start: false,
            button_up: false,
            button_down: false,
            button_left: false,
            button_right: false,
            latch_state: false,
            captured_byte: 0,
        }
    }

    /// The buttons as one byte: A is bit 0, then B, Select, Start, Up,
    /// Down, Left, and Right is bit 7.
    pub open spec fn buttons(self) -> u8 {
        (pressed(self.button_a) + 2 * pressed(self.button_b) + 4 * pressed(self.button_select) + 8
            * pressed(self.button_start) + 16 * pressed(self.button_up) + 32 * pressed(self.button_down)
            + 64 * pressed(self.button_left) + 128 * pressed(self.button_right)) as u8
    }

    /// The controller after the strobe line was set: while the line is high
    /// the shift register follows the buttons.
    pub open spec fn latched(self, state: bool) -> ControllerState {
        ControllerState {
            latch_state: state,
            captured_byte: if state {
                self.buttons()
            } else {
                self.captured_byte
            },
            ..self
        }
    }

    /// The bit that a read returns, and the controller after the read. With
    /// the strobe line high every read returns button A; with it low a read
    /// returns the lowest bit of the shift register, and the register moves
    /// down by one bit with a 1 coming in at the top.
    pub open spec fn read(self) -> (u8, ControllerState) {
        if self.latch_state {
            (self.buttons() % 2, ControllerState { captured_byte: self.buttons(), ..self })
        } else {
            (
                self.captured_byte % 2,
                ControllerState { captured_byte: (self.captured_byte / 2 + 128) as u8, ..self },
            )
        }
    }

    /// The controller after `count` reads.
    pub open spec fn read_times(self, count: nat) -> ControllerState
        decreases count,
    {
        if count == 0 {
            self
        } else {
            self.read_times((count - 1) as nat).read().1
        }
    }

    /// Button number `index` in the order in which the buttons are read.
    pub open spec fn button(self, index: int) -> bool {
        if index == 0 {
            self.button_a
        } else if index == 1 {
            self.button_b
        } else if index == 2 {
            self.button_select
        } else if index == 3 {
            self.button_start
        } else if index == 4 {
            self.button_up
        } else if index == 5 {
            self.button_down
        } else if index == 6 {
            self.button_left
        } else {
            self.button_right
        }
    }
}

pub struct Controller {
    pub button_a: bool,
    pub button_b: bool,
    pub button_select: bool,
    pub button_start: bool,
    pub button_up: bool,
    pub button_down: bool,
    pub button_left: bool,
    pub button_right: bool,
    latch_state: bool,
    captured_byte: u8,
}

impl View for Controller {
    type V = ControllerState;

    closed spec fn view(&self) -> ControllerState {
        ControllerState {
            button_a: self.button_a,
            button_b: self.button_b,
            button_select: self.button_select,
            button_start: self.button_start,
            button_up: self.button_up,
            button_down: self.button_down,
            button_left: self.button_left,
            button_right: self.button_right,
            latch_state: self.latch_state,
            captured_byte: self.captured_byte,
        }
    }
}

proof fn lemma_or_adds(so_far: u8, bit: u8)
    by (bit_vector)
    requires
        so_far < bit,
        bit == 1u8 || bit == 2u8 || bit == 4u8 || bit == 8u8 || bit == 16u8 || bit == 32u8 || bit
            == 64u8 || bit == 128u8,
    ensures
        so_far | bit == (so_far + bit) as u8,
        so_far + bit < 256,
{
}

impl Default for Controller {
    /// A controller with every button released and the strobe line low.
    fn default() -> (controller: Controller)
        ensures
            controller@ == ControllerState::released(),
    {
        Controller {
            button_a: false,
            button_b: false,
            button_select: false,
            button_start: false,
            button_up: false,
            button_down: false,
            button_left: false,
            button_right: false,
            latch_state: false,
            captured_byte: 0,
        }
    }
}

impl Controller {
    pub fn capture_byte(&self) -> (result: u8)
        ensures
            result == self@.buttons(),
    {
        let mut result: u8 = 0;
        if self.button_a {
            proof {
                lemma_or_adds(result, BUTTON_A);
            }
            result |= BUTTON_A;
        }
        if self.button_b {
            proof {
                lemma_or_adds(result, BUTTON_B);
            }
            result |= BUTTON_B;
        }
        if self.button_select {
            proof {
                lemma_or_adds(result, BUTTON_SELECT);
            }
            result |= BUTTON_SELECT;
        }
        if self.button_start {
            proof {
                lemma_or_adds(result, BUTTON_START);
            }
            result |= BUTTON_START;
        }
        if self.button_up {
            proof {
                lemma_or_adds(result, BUTTON_UP);
            }
            result |= BUTTON_UP;
        }
        if self.button_down {
            proof {
                lemma_or_adds(result, BUTTON_DOWN);
            }
            result |= BUTTON_DOWN;
        }
        if self.button_left {
            proof {
                lemma_or_adds(result, BUTTON_LEFT);
            }
            result |= BUTTON_LEFT;
        }
        if self.button_right {
            proof {
                lemma_or_adds(result, BUTTON_RIGHT);
            }
            result |= BUTTON_RIGHT;
        }
        return result;
    }

    pub fn set_latch_state(&mut self, state: bool)
        ensures
            final(self)@ == old(self)@.latched(state),
    {
        self.latch_state = state;
        if self.latch_state {
            self.captured_byte = self.capture_byte();
        }
    }

    pub fn perform_read(&mut self) -> (result: u8)
        ensures
            (result, final(self)@) == old(self)@.read(),
    {
        if self.latch_state {
            // If the latch is currently on, we can't shift bits out. Just
            // keep capturing and capturing and...
            self.captured_byte = self.capture_byte();
        }
        proof {
            lemma_shift_arithmetic(self.captured_byte);
        }
        let result = self.captured_byte & 1;
        if !self.latch_state {
            // If the latch is off, we shift one bit out.
            self.captured_byte = (self.captured_byte >> 1u8) | 0x80;
        }
        return result;
    }

    /// The buttons as letters, upper case for a pressed button: A, B,
    /// sElect, Start, Up, Down, Left, Right.
    pub fn describe(&self) -> (text: String)
        ensures
            text@ == seq![
                if self@.button_a { 'A' } else { 'a' },
                if self@.button_b { 'B' } else { 'b' },
                if self@.button_select { 'E' } else { 'e' },
                if self@.button_start { 'S' } else { 's' },
                if self@.button_up { 'U' } else { 'u' },
                if self@.button_down { 'D' } else { 'd' },
                if self@.button_left { 'L' } else { 'l' },
                if self@.button_right { 'R' } else { 'r' },
            ],
    {
        proof {
            reveal_strlit("A");
            reveal_strlit("a");
            reveal_strlit("B");
            reveal_strlit("b");
            reveal_strlit("E");
            reveal_strlit("e");
            reveal_strlit("S");
            reveal_strlit("s");
            reveal_strlit("U");
            reveal_strlit("u");
            reveal_strlit("D");
            reveal_strlit("d");
            reveal_strlit("L");
            reveal_strlit("l");
            reveal_strlit("R");
            reveal_strlit("r");
        }
        let mut text = String::new();
        append_either(&mut text, self.button_a, "A", "a");
        append_either(&mut text, self.button_b, "B", "b");
        append_either(&mut text, self.button_select, "E", "e");
        append_either(&mut text, self.button_start, "S", "s");
        append_either(&mut text, self.button_up, "U", "u");
        append_either(&mut text, self.button_down, "D", "d");
        append_either(&mut text, self.button_left, "L", "l");
        append_either(&mut text, self.button_right, "R", "r");
        text
    }
}

} // verus!

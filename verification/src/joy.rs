//! The two controller ports: an 8-bit button state per controller, latched
//! into a shift register by the strobe and read out one bit per read.
//!
//! Button order, LSB first: A, B, Select, Start, Up, Down, Left, Right.
//! After all eight bits have been shifted out, further reads return 1.

use vstd::prelude::*;

verus! {

/// Which controller port.
#[derive(Debug, PartialEq, Eq, Structural, Clone, Copy)]
pub enum Controller {
    Input1,
    Input2,
}

/// One of the eight buttons.
#[derive(Debug, PartialEq, Eq, Structural, Clone, Copy)]
pub enum Button {
    A,
    B,
    Select,
    Start,
    Up,
    Down,
    Left,
    Right,
}

/// The mask of the bit a button occupies in the latched state.
pub open spec fn spec_button_mask(btn: Button) -> u8 {
    match btn {
        Button::A => 0x01,
        Button::B => 0x02,
        Button::Select => 0x04,
        Button::Start => 0x08,
        Button::Up => 0x10,
        Button::Down => 0x20,
        Button::Left => 0x40,
        Button::Right => 0x80,
    }
}

/// The mask of the bit a button occupies in the latched state.
pub fn button_mask(btn: Button) -> (r: u8)
    ensures
        r == spec_button_mask(btn),
{
    match btn {
        Button::A => 0x01,
        Button::B => 0x02,
        Button::Select => 0x04,
        Button::Start => 0x08,
        Button::Up => 0x10,
        Button::Down => 0x20,
        Button::Left => 0x40,
        Button::Right => 0x80,
    }
}

/// Both controller ports.
pub struct Joy {
    /// Live button state of controller 1, one bit per button.
    pub state1: u8,
    /// Live button state of controller 2.
    pub state2: u8,
    /// Shift register of controller 1.
    pub shift1: u8,
    /// Shift register of controller 2.
    pub shift2: u8,
    /// Strobe line: while high, the live state is latched continuously.
    pub strobe: bool,
}

impl Joy {
    pub fn new() -> (r: Joy)
        ensures
            r.state1 == 0,
            r.state2 == 0,
            r.shift1 == 0,
            r.shift2 == 0,
            !r.strobe,
    {
        Joy { state1: 0, state2: 0, shift1: 0, shift2: 0, strobe: false }
    }

    /// Press or release a button on controller 1.
    pub fn input(&mut self, btn: Button, pressed: bool)
        ensures
            final(self).state1 == (if pressed {
                old(self).state1 | spec_button_mask(btn)
            } else {
                old(self).state1 & !spec_button_mask(btn)
            }),
            final(self).state2 == old(self).state2,
            final(self).shift1 == old(self).shift1,
            final(self).shift2 == old(self).shift2,
            final(self).strobe == old(self).strobe,
    {
        self.controller_input(Controller::Input1, btn, pressed);
    }

    /// Press or release a button on the given controller.
    pub fn controller_input(&mut self, controller: Controller, btn: Button, pressed: bool)
        ensures
            final(self).state1 == (if controller == Controller::Input1 {
                if pressed {
                    old(self).state1 | spec_button_mask(btn)
                } else {
                    old(self).state1 & !spec_button_mask(btn)
                }
            } else {
                old(self).state1
            }),
            final(self).state2 == (if controller == Controller::Input2 {
                if pressed {
                    old(self).state2 | spec_button_mask(btn)
                } else {
                    old(self).state2 & !spec_button_mask(btn)
                }
            } else {
                old(self).state2
            }),
            final(self).shift1 == old(self).shift1,
            final(self).shift2 == old(self).shift2,
            final(self).strobe == old(self).strobe,
    {
        let mask = button_mask(btn);
        match controller {
            Controller::Input1 => {
                self.state1 = if pressed {
                    crate::bits::mask_set(self.state1, mask)
                } else {
                    crate::bits::mask_clear(self.state1, mask)
                };
            },
            Controller::Input2 => {
                self.state2 = if pressed {
                    crate::bits::mask_set(self.state2, mask)
                } else {
                    crate::bits::mask_clear(self.state2, mask)
                };
            },
        }
    }

    /// A write to the strobe register ($4016). While bit 0 stays set, the
    /// live state keeps getting latched into both shift registers.
    pub fn write_strobe(&mut self, data: u8)
        ensures
            final(self).strobe == (data & 0x01 != 0),
            final(self).shift1 == (if data & 0x01 != 0 {
                old(self).state1
            } else {
                old(self).shift1
            }),
            final(self).shift2 == (if data & 0x01 != 0 {
                old(self).state2
            } else {
                old(self).shift2
            }),
            final(self).state1 == old(self).state1,
            final(self).state2 == old(self).state2,
    {
        self.strobe = data & 0x01 != 0;
        if self.strobe {
            self.shift1 = self.state1;
            self.shift2 = self.state2;
        }
    }

    /// A read from $4016 / $4017: the shift register's low bit. While the
    /// strobe is high the live A button is returned instead and nothing
    /// shifts; otherwise the register shifts right and fills with 1 bits,
    /// so that a ninth read returns 1.
    pub fn read(&mut self, controller: Controller) -> (r: u8)
        ensures
            r == (if old(self).strobe {
                match controller {
                    Controller::Input1 => old(self).state1 & 0x01,
                    Controller::Input2 => old(self).state2 & 0x01,
                }
            } else {
                match controller {
                    Controller::Input1 => old(self).shift1 & 0x01,
                    Controller::Input2 => old(self).shift2 & 0x01,
                }
            }),
            final(self).shift1 == (if !old(self).strobe && controller == Controller::Input1 {
                (old(self).shift1 >> 1) | 0x80
            } else {
                old(self).shift1
            }),
            final(self).shift2 == (if !old(self).strobe && controller == Controller::Input2 {
                (old(self).shift2 >> 1) | 0x80
            } else {
                old(self).shift2
            }),
            final(self).state1 == old(self).state1,
            final(self).state2 == old(self).state2,
            final(self).strobe == old(self).strobe,
    {
        if self.strobe {
            match controller {
                Controller::Input1 => self.state1 & 0x01,
                Controller::Input2 => self.state2 & 0x01,
            }
        } else {
            match controller {
                Controller::Input1 => {
                    let r = self.shift1 & 0x01;
                    self.shift1 = (self.shift1 >> 1) | 0x80;
                    r
                },
                Controller::Input2 => {
                    let r = self.shift2 & 0x01;
                    self.shift2 = (self.shift2 >> 1) | 0x80;
                    r
                },
            }
        }
    }
}

} // verus!

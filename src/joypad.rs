use vstd::prelude::*;
use crate::util::bit8;

verus! {

/// P1/JOYP: button latch, line selection and press-edge interrupt.
#[derive(Clone, Copy, PartialEq, Eq, Structural)]
pub struct Joypad {
    /// Buttons held by the host, 1 = pressed: bits 0-3 A/B/Select/Start,
    /// bits 4-7 Right/Left/Up/Down.
    pub cur_input: u8,
    pub p1: u8,
    pub last_p1: u8,
}

/// The low nibble of P1 for a selection byte and a pressed-button map: each
/// selected group (bit 5 low: buttons, bit 4 low: directions) pulls its
/// pressed lines low; unselected lines read high.
pub open spec fn p1_lines(select: u8, input: u8) -> u8 {
    let buttons: u8 = if !bit8(select, 5) { !input & 0xF } else { 0xF };
    let dirs: u8 = if !bit8(select, 4) { (!input >> 4) & 0xF } else { 0xF };
    buttons & dirs
}

impl Joypad {
    pub fn new() -> (r: Joypad)
        ensures
            r == (Joypad { cur_input: 0, p1: 0xCF, last_p1: 0xCF }),
    {
        Joypad { cur_input: 0, p1: 0xCF, last_p1: 0xCF }
    }

    /// Refreshes the input lines for one M-cycle; returns whether a line
    /// went from high to low (the joypad interrupt).
    pub fn tick(&mut self) -> (r: bool)
        ensures
            final(self).cur_input == old(self).cur_input,
            final(self).p1 == (old(self).p1 & 0x30) | p1_lines(old(self).p1 & 0x30, old(self).cur_input),
            final(self).last_p1 == final(self).p1,
            r == (old(self).last_p1 & !final(self).p1 & 0xF != 0),
    {
        let select = self.p1 & 0x30;
        let buttons: u8 = if select & 0x20 == 0 { !self.cur_input & 0xF } else { 0xF };
        let dirs: u8 = if select & 0x10 == 0 { (!self.cur_input >> 4) & 0xF } else { 0xF };
        assert((select & 0x20 == 0) == !bit8(select, 5) && (select & 0x10 == 0) == !bit8(select, 4))
            by (bit_vector);
        self.p1 = select | (buttons & dirs);
        let interrupt = self.last_p1 & !self.p1 & 0xF != 0;
        self.last_p1 = self.p1;
        interrupt
    }

    /// Bits 7-6 read as 1.
    pub fn read_p1(&self) -> (r: u8)
        ensures
            r == self.p1 | 0xC0,
    {
        self.p1 | 0xC0
    }

    /// Only the selection bits 5-4 are writable.
    pub fn write_p1(&mut self, val: u8)
        ensures
            *final(self) == (Joypad { p1: (old(self).p1 & 0xCF) | (val & 0x30), ..*old(self) }),
    {
        self.p1 = (self.p1 & 0xCF) | (val & 0x30);
    }
}

} // verus!

use vstd::prelude::*;
use crate::util::{bit16, bit8, BitIndex};

verus! {

/// DIV/TIMA/TMA/TAC: a free-running M-cycle counter and a falling-edge
/// detector that drives TIMA.
#[derive(Clone, Copy, PartialEq, Eq, Structural)]
pub struct Timer {
    pub clocks: u16,
    pub counter: u8,
    pub modulo: u8,
    pub control: u8,
    pub edge_delay: bool,
}

/// Which bit of the M-cycle counter feeds the edge detector, by TAC[1:0].
pub open spec fn selector_bit(control: u8) -> u8 {
    let f = control & 3;
    if f == 0 {
        7
    } else if f == 1 {
        1
    } else if f == 2 {
        3
    } else {
        5
    }
}

/// The edge detector's input for a given counter and control byte.
pub open spec fn detector_input(clocks: u16, control: u8) -> bool {
    bit8(control, 2) && bit16(clocks, selector_bit(control))
}

impl Timer {
    /// The state after one M-cycle, and whether TIMA overflowed.
    pub open spec fn ticked(self) -> (Timer, bool) {
        let clocks: u16 = if self.clocks == 0xFFFF { 0 } else { (self.clocks + 1) as u16 };
        let input = detector_input(clocks, self.control);
        let fall = !input && self.edge_delay;
        let overflow = fall && self.counter == 255;
        let counter = if !fall {
            self.counter
        } else if overflow {
            self.modulo
        } else {
            (self.counter + 1) as u8
        };
        (Timer { clocks, counter, edge_delay: input, ..self }, overflow)
    }

    pub fn new() -> (r: Timer)
        ensures
            r == (Timer { clocks: 0, counter: 0, modulo: 0, control: 0, edge_delay: false }),
    {
        Timer { clocks: 0, counter: 0, modulo: 0, control: 0, edge_delay: false }
    }

    /// Advances one M-cycle; returns whether the timer interrupt is raised.
    pub fn tick(&mut self) -> (r: bool)
        ensures
            (*final(self), r) == old(self).ticked(),
    {
        self.clocks = self.clocks.wrapping_add(1);
        let sel: u8 = match self.control & 3 {
            0 => 7,
            1 => 1,
            2 => 3,
            _ => 5,
        };
        let input = self.control.test(2) && self.clocks.test(sel);
        let mut trigger_interrupt = false;
        if !input && self.edge_delay {
            if self.counter == 255 {
                trigger_interrupt = true;
                self.counter = self.modulo;
            } else {
                self.counter = self.counter + 1;
            }
        }
        self.edge_delay = input;
        trigger_interrupt
    }

    /// DIV: the counter advances every 64 M-cycles (16384 Hz).
    pub fn read_div(&self) -> (r: u8)
        ensures
            r == (self.clocks >> 6) as u8,
    {
        (self.clocks >> 6) as u8
    }

    /// Any write to DIV clears the whole counter.
    pub fn write_div(&mut self, _val: u8)
        ensures
            *final(self) == (Timer { clocks: 0, ..*old(self) }),
    {
        self.clocks = 0;
    }

    pub fn read_tima(&self) -> (r: u8)
        ensures
            r == self.counter,
    {
        self.counter
    }

    pub fn write_tima(&mut self, val: u8)
        ensures
            *final(self) == (Timer { counter: val, ..*old(self) }),
    {
        self.counter = val;
    }

    pub fn read_tma(&self) -> (r: u8)
        ensures
            r == self.modulo,
    {
        self.modulo
    }

    pub fn write_tma(&mut self, val: u8)
        ensures
            *final(self) == (Timer { modulo: val, ..*old(self) }),
    {
        self.modulo = val;
    }

    /// TAC: bits 7-3 read as 1.
    pub fn read_tac(&self) -> (r: u8)
        ensures
            r == self.control | 0xF8,
    {
        self.control | 0xF8
    }

    pub fn write_tac(&mut self, val: u8)
        ensures
            *final(self) == (Timer { control: val, ..*old(self) }),
    {
        self.control = val;
    }
}

/// Writing DIV while the enabled, selected counter bit is high makes the
/// next M-cycle see a falling edge: TIMA advances (or reloads from TMA and
/// raises the interrupt when it was 0xFF).
pub proof fn lemma_div_write_falling_edge(t: Timer)
    requires
        t.edge_delay,
    ensures
        ({
            let (n, irq) = Timer { clocks: 0, ..t }.ticked();
            &&& t.counter < 255 ==> n.counter == t.counter + 1 && !irq
            &&& t.counter == 255 ==> n.counter == t.modulo && irq
        }),
{
    let sel = selector_bit(t.control);
    assert(sel == 7 || sel == 1 || sel == 3 || sel == 5);
    assert(forall|s: u8| (s == 7 || s == 1 || s == 3 || s == 5) ==> !bit16(1u16, s)) by (bit_vector);
}

} // verus!

use vstd::prelude::*;
use crate::util::bit8;

verus! {

/// Number of sound registers, NR10 (0xFF10) to NR52 (0xFF26).
pub const SOUND_REGS: usize = 0x17;

/// The audio unit, kept at register level: it stores what is written to the
/// sound registers and wave RAM and produces no samples.
pub struct APU {
    pub enabled: bool,
    /// NR10..NR52, indexed by I/O address minus 0x10.
    pub regs: Vec<u8>,
    pub wave_ram: Vec<u8>,
}

/// The sound register that I/O offset `reg` names, as an index into
/// `regs`: NR10-NR52 at 0x10-0x26, but for the unused 0x15 and 0x1F.
pub open spec fn sound_reg(reg: u16) -> Option<int> {
    if 0x10 <= reg <= 0x26 && reg != 0x15 && reg != 0x1F {
        Some(reg - 0x10)
    } else {
        None
    }
}

impl APU {
    pub open spec fn wf(&self) -> bool {
        self.regs@.len() == SOUND_REGS && self.wave_ram@.len() == 16
    }

    pub fn new() -> (r: APU)
        ensures
            r.wf(),
            !r.enabled,
            forall|i: int| 0 <= i < SOUND_REGS ==> r.regs@[i] == 0,
            forall|i: int| 0 <= i < 16 ==> r.wave_ram@[i] == 0,
    {
        APU { enabled: false, regs: vec![0u8; SOUND_REGS], wave_ram: vec![0u8; 16] }
    }

    /// Nothing is synthesised, so a cycle changes nothing.
    pub fn tick(&mut self)
        ensures
            final(self).enabled == old(self).enabled,
            final(self).regs@ == old(self).regs@,
            final(self).wave_ram@ == old(self).wave_ram@,
    {
    }

    fn store(&mut self, idx: usize, val: u8)
        requires
            old(self).wf(),
            idx < SOUND_REGS,
        ensures
            final(self).wf(),
            final(self).regs@ == old(self).regs@.update(idx as int, val),
            final(self).wave_ram@ == old(self).wave_ram@,
            final(self).enabled == old(self).enabled,
    {
        self.regs.set(idx, val);
    }

    /// Channel 1 sweep.
    pub fn write_nr10(&mut self, val: u8)
        requires
            old(self).wf(),
        ensures
            final(self).wf(),
            final(self).regs@ == old(self).regs@.update(0x0, val),
            final(self).wave_ram@ == old(self).wave_ram@,
            final(self).enabled == old(self).enabled,
    {
        self.store(0x0, val);
    }

    /// Channel 1 length timer and duty cycle.
    pub fn write_nr11(&mut self, val: u8)
        requires
            old(self).wf(),
        ensures
            final(self).wf(),
            final(self).regs@ == old(self).regs@.update(0x1, val),
            final(self).wave_ram@ == old(self).wave_ram@,
            final(self).enabled == old(self).enabled,
    {
        self.store(0x1, val);
    }

    /// Channel 1 volume and envelope.
    pub fn write_nr12(&mut self, val: u8)
        requires
            old(self).wf(),
        ensures
            final(self).wf(),
            final(self).regs@ == old(self).regs@.update(0x2, val),
            final(self).wave_ram@ == old(self).wave_ram@,
            final(self).enabled == old(self).enabled,
    {
        self.store(0x2, val);
    }

    /// Channel 1 wavelength low.
    pub fn write_nr13(&mut self, val: u8)
        requires
            old(self).wf(),
        ensures
            final(self).wf(),
            final(self).regs@ == old(self).regs@.update(0x3, val),
            final(self).wave_ram@ == old(self).wave_ram@,
            final(self).enabled == old(self).enabled,
    {
        self.store(0x3, val);
    }

    /// Channel 1 wavelength high and control.
    pub fn write_nr14(&mut self, val: u8)
        requires
            old(self).wf(),
        ensures
            final(self).wf(),
            final(self).regs@ == old(self).regs@.update(0x4, val),
            final(self).wave_ram@ == old(self).wave_ram@,
            final(self).enabled == old(self).enabled,
    {
        self.store(0x4, val);
    }

    /// Channel 2 length timer and duty cycle.
    pub fn write_nr21(&mut self, val: u8)
        requires
            old(self).wf(),
        ensures
            final(self).wf(),
            final(self).regs@ == old(self).regs@.update(0x6, val),
            final(self).wave_ram@ == old(self).wave_ram@,
            final(self).enabled == old(self).enabled,
    {
        self.store(0x6, val);
    }

    /// Channel 2 volume and envelope.
    pub fn write_nr22(&mut self, val: u8)
        requires
            old(self).wf(),
        ensures
            final(self).wf(),
            final(self).regs@ == old(self).regs@.update(0x7, val),
            final(self).wave_ram@ == old(self).wave_ram@,
            final(self).enabled == old(self).enabled,
    {
        self.store(0x7, val);
    }

    /// Channel 2 wavelength low.
    pub fn write_nr23(&mut self, val: u8)
        requires
            old(self).wf(),
        ensures
            final(self).wf(),
            final(self).regs@ == old(self).regs@.update(0x8, val),
            final(self).wave_ram@ == old(self).wave_ram@,
            final(self).enabled == old(self).enabled,
    {
        self.store(0x8, val);
    }

    /// Channel 2 wavelength high and control.
    pub fn write_nr24(&mut self, val: u8)
        requires
            old(self).wf(),
        ensures
            final(self).wf(),
            final(self).regs@ == old(self).regs@.update(0x9, val),
            final(self).wave_ram@ == old(self).wave_ram@,
            final(self).enabled == old(self).enabled,
    {
        self.store(0x9, val);
    }

    /// Channel 3 DAC enable.
    pub fn write_nr30(&mut self, val: u8)
        requires
            old(self).wf(),
        ensures
            final(self).wf(),
            final(self).regs@ == old(self).regs@.update(0xa, val),
            final(self).wave_ram@ == old(self).wave_ram@,
            final(self).enabled == old(self).enabled,
    {
        self.store(0xa, val);
    }

    /// Channel 3 length timer.
    pub fn write_nr31(&mut self, val: u8)
        requires
            old(self).wf(),
        ensures
            final(self).wf(),
            final(self).regs@ == old(self).regs@.update(0xb, val),
            final(self).wave_ram@ == old(self).wave_ram@,
            final(self).enabled == old(self).enabled,
    {
        self.store(0xb, val);
    }

    /// Channel 3 output level.
    pub fn write_nr32(&mut self, val: u8)
        requires
            old(self).wf(),
        ensures
            final(self).wf(),
            final(self).regs@ == old(self).regs@.update(0xc, val),
            final(self).wave_ram@ == old(self).wave_ram@,
            final(self).enabled == old(self).enabled,
    {
        self.store(0xc, val);
    }

    /// Channel 3 wavelength low.
    pub fn write_nr33(&mut self, val: u8)
        requires
            old(self).wf(),
        ensures
            final(self).wf(),
            final(self).regs@ == old(self).regs@.update(0xd, val),
            final(self).wave_ram@ == old(self).wave_ram@,
            final(self).enabled == old(self).enabled,
    {
        self.store(0xd, val);
    }

    /// Channel 3 wavelength high and control.
    pub fn write_nr34(&mut self, val: u8)
        requires
            old(self).wf(),
        ensures
            final(self).wf(),
            final(self).regs@ == old(self).regs@.update(0xe, val),
            final(self).wave_ram@ == old(self).wave_ram@,
            final(self).enabled == old(self).enabled,
    {
        self.store(0xe, val);
    }

    /// Channel 4 length timer.
    pub fn write_nr41(&mut self, val: u8)
        requires
            old(self).wf(),
        ensures
            final(self).wf(),
            final(self).regs@ == old(self).regs@.update(0x10, val),
            final(self).wave_ram@ == old(self).wave_ram@,
            final(self).enabled == old(self).enabled,
    {
        self.store(0x10, val);
    }

    /// Channel 4 volume and envelope.
    pub fn write_nr42(&mut self, val: u8)
        requires
            old(self).wf(),
        ensures
            final(self).wf(),
            final(self).regs@ == old(self).regs@.update(0x11, val),
            final(self).wave_ram@ == old(self).wave_ram@,
            final(self).enabled == old(self).enabled,
    {
        self.store(0x11, val);
    }

    /// Channel 4 frequency and randomness.
    pub fn write_nr43(&mut self, val: u8)
        requires
            old(self).wf(),
        ensures
            final(self).wf(),
            final(self).regs@ == old(self).regs@.update(0x12, val),
            final(self).wave_ram@ == old(self).wave_ram@,
            final(self).enabled == old(self).enabled,
    {
        self.store(0x12, val);
    }

    /// Channel 4 control.
    pub fn write_nr44(&mut self, val: u8)
        requires
            old(self).wf(),
        ensures
            final(self).wf(),
            final(self).regs@ == old(self).regs@.update(0x13, val),
            final(self).wave_ram@ == old(self).wave_ram@,
            final(self).enabled == old(self).enabled,
    {
        self.store(0x13, val);
    }

    /// Master volume and VIN panning.
    pub fn write_nr50(&mut self, val: u8)
        requires
            old(self).wf(),
        ensures
            final(self).wf(),
            final(self).regs@ == old(self).regs@.update(0x14, val),
            final(self).wave_ram@ == old(self).wave_ram@,
            final(self).enabled == old(self).enabled,
    {
        self.store(0x14, val);
    }

    /// Sound panning.
    pub fn write_nr51(&mut self, val: u8)
        requires
            old(self).wf(),
        ensures
            final(self).wf(),
            final(self).regs@ == old(self).regs@.update(0x15, val),
            final(self).wave_ram@ == old(self).wave_ram@,
            final(self).enabled == old(self).enabled,
    {
        self.store(0x15, val);
    }

    pub fn read_nr51(&self) -> (r: u8)
        requires
            self.wf(),
        ensures
            r == self.regs@[0x15],
    {
        self.regs[0x15]
    }

    /// Sound on/off: only bit 7 is kept.
    pub fn read_nr52(&self) -> (r: u8)
        ensures
            r == (if self.enabled { 0x80u8 } else { 0u8 }),
    {
        if self.enabled {
            0x80
        } else {
            0
        }
    }

    pub fn write_nr52(&mut self, val: u8)
        requires
            old(self).wf(),
        ensures
            final(self).wf(),
            final(self).enabled == bit8(val, 7),
            final(self).regs@ == old(self).regs@.update(0x16, val),
            final(self).wave_ram@ == old(self).wave_ram@,
    {
        self.store(0x16, val);
        self.enabled = val & 0x80 != 0;
        assert((val & 0x80 != 0) == bit8(val, 7)) by (bit_vector);
    }

    /// Wave RAM, 0xFF30-0xFF3F.
    pub fn write_wave(&mut self, addr: u16, val: u8)
        requires
            old(self).wf(),
        ensures
            final(self).wf(),
            final(self).wave_ram@ == old(self).wave_ram@.update((addr & 0xF) as int, val),
            final(self).regs@ == old(self).regs@,
            final(self).enabled == old(self).enabled,
    {
        assert(addr & 0xF < 16) by (bit_vector);
        self.wave_ram.set((addr & 0xF) as usize, val);
    }
}

} // verus!

use vstd::prelude::*;
use crate::apu::APU;
use crate::joypad::Joypad;
use crate::ppu::PPU;
use crate::rom::{Cartridge, ROM};
use crate::serial::Serial;
use crate::timer::Timer;
use crate::util::{bit8, lemma_addr_masks};
use crate::apu::sound_reg;

verus! {

/// Size of the boot image.
pub const BOOTROM_BYTES: usize = 0x100;

/// The 256-byte boot image, mapped at 0x0000-0x00FF until 0xFF50 is written.
pub struct Bootrom {
    pub rom: Vec<u8>,
}

impl Bootrom {
    pub open spec fn wf(&self) -> bool {
        self.rom@.len() == BOOTROM_BYTES
    }

    /// Takes a boot image; it must be exactly 256 bytes.
    pub fn new(bytes: &[u8]) -> (r: Option<Bootrom>)
        ensures
            bytes@.len() == BOOTROM_BYTES <==> r is Some,
            r matches Some(b) ==> b.wf() && b.rom@ == bytes@,
    {
        if bytes.len() != BOOTROM_BYTES {
            return None;
        }
        let mut rom: Vec<u8> = Vec::new();
        let mut i: usize = 0;
        while i < BOOTROM_BYTES
            invariant
                i <= BOOTROM_BYTES,
                bytes@.len() == BOOTROM_BYTES,
                rom@ == bytes@.subrange(0, i as int),
            decreases BOOTROM_BYTES - i,
        {
            rom.push(bytes[i]);
            i = i + 1;
            assert(rom@ =~= bytes@.subrange(0, i as int));
        }
        assert(rom@ =~= bytes@);
        Some(Bootrom { rom })
    }

    /// An image that is never mapped: every byte reads as 0xFF.
    pub fn blank() -> (r: Bootrom)
        ensures
            r.wf(),
    {
        Bootrom { rom: vec![0xFFu8; BOOTROM_BYTES] }
    }

    pub fn read(&self, addr: u8) -> (r: u8)
        requires
            self.wf(),
        ensures
            r == self.rom@[addr as int],
    {
        self.rom[addr as usize]
    }
}

/// Whether `addr` is work RAM (with its echo) or high RAM.
pub open spec fn is_ram(addr: u16) -> bool {
    (0xC000 <= addr < 0xFE00) || (0xFF80 <= addr < 0xFFFF)
}

/// The storage cell behind a RAM address: work RAM cells 0-0x1FFF (echo RAM
/// shares them), high RAM cells 0x2000-0x207F.
pub open spec fn ram_cell(addr: u16) -> int {
    if addr < 0xFE00 {
        (addr & 0x1FFF) as int
    } else {
        0x2000 + (addr & 0x7F) as int
    }
}

/// RAM cells after a write to `addr`: only a RAM address changes one.
pub open spec fn stored(cells: Seq<u8>, addr: u16, val: u8) -> Seq<u8> {
    if is_ram(addr) {
        cells.update(ram_cell(addr), val)
    } else {
        cells
    }
}

/// A RAM address reads back what its cell holds, unless OAM DMA is running.
pub proof fn lemma_ram_read(c: &Components, a: u16)
    requires
        c.wf(),
        is_ram(a),
        !c.ppu.oam_dma_running,
    ensures
        0 <= ram_cell(a) < c.ram_cells().len(),
        c.read_value(a) == c.ram_cells()[ram_cell(a)],
{
    lemma_addr_masks(a);
}

/// A fixed byte reads the same after bus cycles that keep the memory.
pub proof fn lemma_fixed_read(c1: &Components, c2: &Components, a: u16)
    requires
        c1.wf(),
        c2.wf(),
        c1.same_memory(c2),
        c1.fixed(a),
        !c2.ppu.oam_dma_running,
    ensures
        c2.read_value(a) == c1.peek(a),
        c2.fixed(a),
{
    lemma_addr_masks(a);
    if is_ram(a) {
        lemma_ram_read(c1, a);
        lemma_ram_read(c2, a);
    }
}

/// Loading a byte and storing it back to the same address leaves memory as
/// it was (`LD A, (nn)` then `LD (nn), A`), DMA aside.
pub proof fn lemma_load_store_idempotent(c: &Components, a: u16)
    requires
        c.wf(),
        !c.ppu.oam_dma_running,
    ensures
        stored(c.ram_cells(), a, c.read_value(a)) == c.ram_cells(),
{
    if is_ram(a) {
        lemma_ram_read(c, a);
        assert(c.ram_cells().update(ram_cell(a), c.read_value(a)) =~= c.ram_cells());
    }
}

/// A byte written to BGP reads back unchanged.
pub proof fn lemma_bgp_readback(c: &Components, v: u8)
    requires
        c.wf(),
        !c.ppu.oam_dma_running,
        c.ppu.bg_palette == v,
    ensures
        c.read_value(0xFF47) == v,
{
    assert(0xFF47u16 & 0xFF == 0x47) by (bit_vector);
}

/// Interrupt flag bits raised in one M-cycle.
pub open spec fn raised(timer: bool, vblank: bool, stat: bool, joypad: bool) -> u8 {
    (if vblank { 1u8 } else { 0u8 }) | (if stat { 2u8 } else { 0u8 }) | (if timer { 4u8 } else { 0u8 }) | (
    if joypad { 16u8 } else { 0u8 })
}

/// Everything the CPU talks to: the memory map, the components that are
/// ticked once per M-cycle, and the interrupt registers.
pub struct Components {
    pub rom: Cartridge,
    pub bootrom: Bootrom,
    pub ppu: PPU,
    pub apu: APU,
    pub timer: Timer,
    pub serial: Serial,
    pub joypad: Joypad,
    pub wram: Vec<u8>,
    pub hram: Vec<u8>,
    pub bootrom_disabled: bool,
    pub interrupt_flag: u8,
    pub interrupt_enable: u8,
    /// M-cycles since power-on.
    pub cycle: u64,
}

impl Components {
    pub open spec fn wf(&self) -> bool {
        &&& self.rom.inv()
        &&& self.bootrom.wf()
        &&& self.ppu.wf()
        &&& self.apu.wf()
        &&& self.wram@.len() == 0x2000
        &&& self.hram@.len() == 0x80
    }

    /// The byte held by a RAM cell.
    pub open spec fn ram_at(&self, cell: int) -> u8 {
        if cell < 0x2000 {
            self.wram@[cell]
        } else {
            self.hram@[cell - 0x2000]
        }
    }

    /// RAM cells, work RAM then high RAM.
    pub open spec fn ram_cells(&self) -> Seq<u8> {
        self.wram@ + self.hram@
    }

    /// What the I/O register at 0xFF00 + (addr & 0xFF) reads as.
    pub open spec fn io_byte(&self, addr: u16) -> u8 {
        let r = addr & 0xFF;
        if r == 0x00 {
            self.joypad.p1 | 0xC0
        } else if r == 0x04 {
            (self.timer.clocks >> 6) as u8
        } else if r == 0x05 {
            self.timer.counter
        } else if r == 0x06 {
            self.timer.modulo
        } else if r == 0x07 {
            self.timer.control | 0xF8
        } else if r == 0x0F {
            self.interrupt_flag
        } else if r == 0x25 {
            self.apu.regs@[0x15]
        } else if r == 0x26 {
            if self.apu.enabled { 0x80 } else { 0 }
        } else if 0x30 <= r < 0x40 {
            self.apu.wave_ram@[(r & 0xF) as int]
        } else if r == 0x40 {
            self.ppu.lcd_control
        } else if r == 0x41 {
            self.ppu.stat_byte()
        } else if r == 0x42 {
            self.ppu.viewport_y
        } else if r == 0x43 {
            self.ppu.viewport_x
        } else if r == 0x44 {
            self.ppu.lcd_y
        } else if r == 0x45 {
            self.ppu.lcd_y_compare
        } else if r == 0x46 {
            self.ppu.oam_dma_src
        } else if r == 0x47 {
            self.ppu.bg_palette
        } else if r == 0x48 {
            self.ppu.obp0
        } else if r == 0x49 {
            self.ppu.obp1
        } else if r == 0x4A {
            self.ppu.window_y
        } else if r == 0x4B {
            self.ppu.window_x
        } else if r == 0x50 {
            if self.bootrom_disabled { 1 } else { 0 }
        } else {
            0xFF
        }
    }

    /// The byte at `addr` in the memory map, ignoring OAM DMA.
    pub open spec fn peek(&self, addr: u16) -> u8 {
        if addr < 0x100 && !self.bootrom_disabled {
            self.bootrom.rom@[addr as int]
        } else if addr < 0x8000 {
            self.rom.rom_byte(addr)
        } else if addr < 0xA000 {
            if self.ppu.vram_open() {
                self.ppu.vram@[(addr & 0x1FFF) as int]
            } else {
                0xFF
            }
        } else if addr < 0xC000 {
            self.rom.ram_byte(addr)
        } else if addr < 0xFE00 {
            self.wram@[(addr & 0x1FFF) as int]
        } else if addr < 0xFF00 {
            self.ppu.oam_byte(addr)
        } else if addr < 0xFF80 {
            self.io_byte(addr)
        } else if addr < 0xFFFF {
            self.hram@[(addr & 0x7F) as int]
        } else {
            self.interrupt_enable
        }
    }

    /// The byte OAM DMA copies from `addr`: the memory map as the CPU sees
    /// it, but VRAM whatever the PPU mode.
    pub open spec fn dma_byte(&self, addr: u16) -> u8 {
        if 0x8000 <= addr < 0xA000 {
            self.ppu.vram@[(addr & 0x1FFF) as int]
        } else {
            self.peek(addr)
        }
    }

    /// What a CPU read of `addr` returns: during OAM DMA only high RAM
    /// answers, everything else reads 0xFF.
    pub open spec fn read_value(&self, addr: u16) -> u8 {
        if self.ppu.oam_dma_running && !(0xFF80 <= addr < 0xFFFF) {
            0xFF
        } else {
            self.peek(addr)
        }
    }

    /// Whether bus cycles alone leave the byte at `addr` as it is: cartridge
    /// ROM space (with the boot image) or RAM, with OAM DMA idle.
    pub open spec fn fixed(&self, addr: u16) -> bool {
        !self.ppu.oam_dma_running && (addr < 0x8000 || is_ram(addr))
    }

    /// Same cartridge, boot image mapping and RAM contents.
    pub open spec fn same_memory(&self, other: &Components) -> bool {
        &&& self.rom == other.rom
        &&& self.bootrom == other.bootrom
        &&& self.bootrom_disabled == other.bootrom_disabled
        &&& self.ram_cells() == other.ram_cells()
    }

    /// The interrupts both requested and enabled, among the five sources.
    pub open spec fn pending(&self) -> u8 {
        self.interrupt_enable & self.interrupt_flag & 0x1F
    }

    /// Powers on with the boot image mapped, or with none mapped.
    pub fn new(rom: Cartridge, bootrom: Option<Bootrom>) -> (r: Components)
        requires
            rom.inv(),
            bootrom matches Some(b) ==> b.wf(),
        ensures
            r.wf(),
            r.cycle == 0,
            r.bootrom_disabled == bootrom is None,
            r.interrupt_flag == 0,
            r.interrupt_enable == 0,
            !r.ppu.oam_dma_running,
            forall|c: int| 0 <= c < 0x2080 ==> #[trigger] r.ram_at(c) == 0,
            // The cartridge and boot image given are the ones mapped.
            r.rom == rom,
            bootrom matches Some(b) ==> r.bootrom == b && forall|a: u16|
                a < 0x100 ==> #[trigger] r.read_value(a) == b.rom@[a as int],
            forall|a: u16|
                (a < 0x8000 && (bootrom is None || a >= 0x100)) ==> #[trigger] r.read_value(a)
                    == rom.rom_byte(a),
    {
        let disabled = bootrom.is_none();
        let boot = match bootrom {
            Some(b) => b,
            None => Bootrom::blank(),
        };
        Components {
            rom,
            bootrom: boot,
            ppu: PPU::new(),
            apu: APU::new(),
            timer: Timer::new(),
            serial: Serial::new(),
            joypad: Joypad::new(),
            wram: vec![0u8; 0x2000],
            hram: vec![0u8; 0x80],
            bootrom_disabled: disabled,
            interrupt_flag: 0,
            interrupt_enable: 0,
            cycle: 0,
        }
    }
}

impl Components {
    /// Reads the I/O register selected by the low byte of `addr`.
    #[verifier::rlimit(40)]
    fn read_io(&self, addr: u16) -> (r: u8)
        requires
            self.wf(),
        ensures
            r == self.io_byte(addr),
    {
        proof {
            lemma_addr_masks(addr);
        }
        let reg = addr & 0xFF;
        proof {
            lemma_addr_masks(reg);
        }
        if reg == 0x00 {
            self.joypad.read_p1()
        } else if reg == 0x01 {
            self.serial.read_sb()
        } else if reg == 0x02 {
            self.serial.read_sc()
        } else if reg == 0x04 {
            self.timer.read_div()
        } else if reg == 0x05 {
            self.timer.read_tima()
        } else if reg == 0x06 {
            self.timer.read_tma()
        } else if reg == 0x07 {
            self.timer.read_tac()
        } else if reg == 0x0F {
            self.interrupt_flag
        } else if reg == 0x25 {
            self.apu.read_nr51()
        } else if reg == 0x26 {
            self.apu.read_nr52()
        } else if 0x30 <= reg && reg < 0x40 {
            self.apu.wave_ram[(reg & 0xF) as usize]
        } else if reg == 0x40 {
            self.ppu.read_lcdc()
        } else if reg == 0x41 {
            self.ppu.read_stat()
        } else if reg == 0x42 {
            self.ppu.read_scy()
        } else if reg == 0x43 {
            self.ppu.read_scx()
        } else if reg == 0x44 {
            self.ppu.read_ly()
        } else if reg == 0x45 {
            self.ppu.read_lyc()
        } else if reg == 0x46 {
            self.ppu.read_dma()
        } else if reg == 0x47 {
            self.ppu.read_bgp()
        } else if reg == 0x48 {
            self.ppu.read_obp0()
        } else if reg == 0x49 {
            self.ppu.read_obp1()
        } else if reg == 0x4A {
            self.ppu.read_wy()
        } else if reg == 0x4B {
            self.ppu.read_wx()
        } else if reg == 0x50 {
            if self.bootrom_disabled {
                1
            } else {
                0
            }
        } else {
            0xFF
        }
    }

    /// The byte at `addr`, as the memory map decodes it, without OAM DMA
    /// blocking.
    #[verifier::rlimit(40)]
    fn peek_byte(&self, addr: u16) -> (r: u8)
        requires
            self.wf(),
        ensures
            r == self.peek(addr),
    {
        proof {
            lemma_addr_masks(addr);
        }
        if addr < 0x100 && !self.bootrom_disabled {
            self.bootrom.read(addr as u8)
        } else if addr < 0x8000 {
            self.rom.read_rom(addr)
        } else if addr < 0xA000 {
            self.ppu.read_vram(addr)
        } else if addr < 0xC000 {
            self.rom.read_ram(addr)
        } else if addr < 0xFE00 {
            self.wram[(addr & 0x1FFF) as usize]
        } else if addr < 0xFF00 {
            self.ppu.read_oam(addr)
        } else if addr < 0xFF80 {
            self.read_io(addr)
        } else if addr < 0xFFFF {
            self.hram[(addr & 0x7F) as usize]
        } else {
            self.interrupt_enable
        }
    }

    /// Reads a byte without ticking.
    pub fn read_passive(&self, addr: u16) -> (r: u8)
        requires
            self.wf(),
        ensures
            r == self.read_value(addr),
    {
        if self.ppu.oam_dma_running && !(0xFF80 <= addr && addr < 0xFFFF) {
            0xFF
        } else {
            self.peek_byte(addr)
        }
    }

    /// Moves one byte of a running OAM DMA transfer.
    fn dma_step(&mut self)
        requires
            old(self).wf(),
        ensures
            final(self).wf(),
            final(self).ram_cells() == old(self).ram_cells(),
            final(self).rom == old(self).rom,
            final(self).bootrom == old(self).bootrom,
            final(self).timer == old(self).timer,
            final(self).joypad == old(self).joypad,
            final(self).interrupt_flag == old(self).interrupt_flag,
            final(self).interrupt_enable == old(self).interrupt_enable,
            final(self).bootrom_disabled == old(self).bootrom_disabled,
            final(self).cycle == old(self).cycle,
            final(self).serial.output@ == old(self).serial.output@,
            final(self).ppu.vram@ == old(self).ppu.vram@,
            final(self).ppu.lcd_control == old(self).ppu.lcd_control,
            final(self).ppu.bg_palette == old(self).ppu.bg_palette,
            final(self).ppu.lcd_y == old(self).ppu.lcd_y,
            final(self).ppu.scanline_dot == old(self).ppu.scanline_dot,
            !old(self).ppu.oam_dma_running ==> final(self).ppu == old(self).ppu,
            old(self).ppu.oam_dma_running ==> final(self).ppu.oam@ == old(self).ppu.oam@.update(
                old(self).ppu.oam_dma_idx as int,
                old(self).dma_byte(((old(self).ppu.oam_dma_src as u16) * 256 + old(self).ppu.oam_dma_idx as u16) as u16),
            ),
            old(self).ppu.oam_dma_running ==> final(self).ppu.oam_dma_idx == old(self).ppu.oam_dma_idx
                + 1 && final(self).ppu.oam_dma_running == (old(self).ppu.oam_dma_idx + 1 < 160),
            final(self).ppu.stat_request == old(self).ppu.stat_request,
            final(self).apu == old(self).apu,
            final(self).ppu == (PPU {
                oam: final(self).ppu.oam,
                oam_dma_idx: final(self).ppu.oam_dma_idx,
                oam_dma_running: final(self).ppu.oam_dma_running,
                ..old(self).ppu
            }),
    {
        if self.ppu.oam_dma_running {
            let idx = self.ppu.oam_dma_idx;
            let src = (self.ppu.oam_dma_src as u16) * 256 + idx as u16;
            proof {
                lemma_addr_masks(src);
            }
            let v = if 0x8000 <= src && src < 0xA000 {
                self.ppu.vram[(src & 0x1FFF) as usize]
            } else {
                self.peek_byte(src)
            };
            self.ppu.oam.set(idx as usize, v);
            self.ppu.oam_dma_idx = idx + 1;
            if idx + 1 == 160 {
                self.ppu.oam_dma_running = false;
            }
        }
    }

    /// Processes one M-cycle: the timer, the PPU (with OAM DMA), the APU
    /// and the joypad each advance once, and what they raise is ORed into
    /// IF.
    #[verifier::rlimit(40)]
    pub fn tick(&mut self)
        requires
            old(self).wf(),
            old(self).cycle < u64::MAX,
        ensures
            final(self).wf(),
            final(self).cycle == old(self).cycle + 1,
            final(self).timer == old(self).timer.ticked().0,
            old(self).ppu.enabled() ==> final(self).ppu.frame_pos() == (old(self).ppu.frame_pos() + 4)
                % crate::ppu::FRAME_DOTS as int,
            !old(self).ppu.enabled() ==> final(self).ppu.frame_pos() == old(self).ppu.frame_pos(),
            // IF gains the timer overflow, VBlank, the STAT request and a
            // joypad line going low; nothing is cleared.
            final(self).interrupt_flag == old(self).interrupt_flag | raised(
                old(self).timer.ticked().1,
                old(self).ppu.vblank_due(),
                final(self).ppu.stat_request,
                old(self).joypad.last_p1 & !final(self).joypad.p1 & 0xF != 0,
            ),
            final(self).joypad.cur_input == old(self).joypad.cur_input,
            final(self).joypad.last_p1 == final(self).joypad.p1,
            final(self).joypad.p1 == (old(self).joypad.p1 & 0x30) | crate::joypad::p1_lines(
                old(self).joypad.p1 & 0x30,
                old(self).joypad.cur_input,
            ),
            // The APU holds registers only.
            final(self).apu.regs@ == old(self).apu.regs@,
            final(self).apu.wave_ram@ == old(self).apu.wave_ram@,
            final(self).apu.enabled == old(self).apu.enabled,
            // OAM DMA moves one byte per M-cycle; a byte from anywhere but
            // OAM and I/O is the one the source address held.
            !old(self).ppu.oam_dma_running ==> final(self).ppu.oam@ == old(self).ppu.oam@,
            old(self).ppu.oam_dma_running ==> ({
                let idx = old(self).ppu.oam_dma_idx;
                let src = ((old(self).ppu.oam_dma_src as u16) * 256 + idx as u16) as u16;
                &&& final(self).ppu.oam@ == old(self).ppu.oam@.update(idx as int, final(self).ppu.oam@[idx as int])
                &&& (src < 0xFE00 || is_ram(src)) ==> final(self).ppu.oam@[idx as int] == old(
                    self,
                ).dma_byte(src)
                &&& final(self).ppu.oam_dma_idx == idx + 1
                &&& final(self).ppu.oam_dma_running == (idx + 1 < 160)
            }),
            final(self).ram_cells() == old(self).ram_cells(),
            final(self).rom == old(self).rom,
            final(self).bootrom == old(self).bootrom,
            final(self).interrupt_enable == old(self).interrupt_enable,
            final(self).bootrom_disabled == old(self).bootrom_disabled,
            final(self).serial.output@ == old(self).serial.output@,
            final(self).ppu.same_lcd_registers(&old(self).ppu),
            final(self).ppu.vram@ == old(self).ppu.vram@,
            final(self).ppu.bg_palette == old(self).ppu.bg_palette,
            final(self).ppu.lcd_control == old(self).ppu.lcd_control,
            final(self).ppu.lcd_y < 154,
            final(self).ppu.scanline_dot < 456,
            !old(self).ppu.oam_dma_running ==> !final(self).ppu.oam_dma_running,
    {
        let timer_irq = self.timer.tick();
        let (vblank, stat) = self.ppu.tick();
        self.dma_step();
        self.apu.tick();
        let joypad = self.joypad.tick();
        let bits: u8 = (if vblank { 1u8 } else { 0u8 }) | (if stat { 2u8 } else { 0u8 }) | (if timer_irq {
            4u8
        } else {
            0u8
        }) | (if joypad { 16u8 } else { 0u8 });
        self.interrupt_flag = self.interrupt_flag | bits;
        self.cycle = self.cycle + 1;
        assert(bits == raised(timer_irq, vblank, stat, joypad));
        assert(timer_irq == old(self).timer.ticked().1);
        assert(vblank == old(self).ppu.vblank_due());
        proof {
            lemma_addr_masks(((old(self).ppu.oam_dma_src as u16) * 256 + old(self).ppu.oam_dma_idx as u16) as u16);
        }
    }

    /// Ticks one M-cycle, then reads.
    pub fn read(&mut self, addr: u16) -> (r: u8)
        requires
            old(self).wf(),
            old(self).cycle < u64::MAX,
        ensures
            final(self).wf(),
            final(self).cycle == old(self).cycle + 1,
            // The cycle's tick, as `tick` states it.
            final(self).timer == old(self).timer.ticked().0,
            old(self).ppu.enabled() ==> final(self).ppu.frame_pos() == (old(self).ppu.frame_pos() + 4)
                % crate::ppu::FRAME_DOTS as int,
            !old(self).ppu.enabled() ==> final(self).ppu.frame_pos() == old(self).ppu.frame_pos(),
            final(self).interrupt_flag == old(self).interrupt_flag | raised(
                old(self).timer.ticked().1,
                old(self).ppu.vblank_due(),
                final(self).ppu.stat_request,
                old(self).joypad.last_p1 & !final(self).joypad.p1 & 0xF != 0,
            ),
            final(self).apu.regs@ == old(self).apu.regs@,
            final(self).apu.wave_ram@ == old(self).apu.wave_ram@,
            final(self).apu.enabled == old(self).apu.enabled,
            r == final(self).read_value(addr),
            final(self).ram_cells() == old(self).ram_cells(),
            final(self).rom == old(self).rom,
            final(self).bootrom == old(self).bootrom,
            final(self).interrupt_enable == old(self).interrupt_enable,
            final(self).bootrom_disabled == old(self).bootrom_disabled,
            final(self).serial.output@ == old(self).serial.output@,
            final(self).interrupt_flag & old(self).interrupt_flag == old(self).interrupt_flag,
            !old(self).ppu.oam_dma_running ==> !final(self).ppu.oam_dma_running,
    {
        self.tick();
        proof {
            let f = self.interrupt_flag;
            let o = old(self).interrupt_flag;
            assert(forall|b: u8| (o | b) & o == o) by (bit_vector);
        }
        self.read_passive(addr)
    }
}

/// The mapper after a write into cartridge RAM space, as `ROM::write_ram`
/// states it.
pub open spec fn ram_written(before: Cartridge, after: Cartridge, addr: u16, val: u8) -> bool {
    &&& after.inv()
    &&& after.ram_writable() == before.ram_writable()
    &&& forall|a: u16| #[trigger] after.rom_byte(a) == before.rom_byte(a)
    &&& forall|a: u16| #[trigger] after.ram_cell(a) == before.ram_cell(a)
    &&& forall|a: u16|
        #[trigger] after.ram_byte(a) == if before.ram_writable() && before.ram_cell(a)
            == before.ram_cell(addr) {
            val
        } else {
            before.ram_byte(a)
        }
}

impl Components {
    /// Writes the I/O register selected by the low byte of `addr`.
    #[verifier::rlimit(40)]
    fn write_io(&mut self, addr: u16, val: u8)
        requires
            old(self).wf(),
            0xFF00 <= addr < 0xFF80,
        ensures
            final(self).wf(),
            final(self).ram_cells() == old(self).ram_cells(),
            final(self).rom == old(self).rom,
            final(self).bootrom == old(self).bootrom,
            final(self).cycle == old(self).cycle,
            final(self).interrupt_enable == old(self).interrupt_enable,
            final(self).interrupt_flag == if addr == 0xFF0F {
                val
            } else {
                old(self).interrupt_flag
            },
            final(self).bootrom_disabled == (old(self).bootrom_disabled || (addr == 0xFF50 && val
                != 0)),
            final(self).timer == if addr == 0xFF04 {
                Timer { clocks: 0, ..old(self).timer }
            } else if addr == 0xFF05 {
                Timer { counter: val, ..old(self).timer }
            } else if addr == 0xFF06 {
                Timer { modulo: val, ..old(self).timer }
            } else if addr == 0xFF07 {
                Timer { control: val, ..old(self).timer }
            } else {
                old(self).timer
            },
            final(self).serial.output@ == if addr == 0xFF01 {
                old(self).serial.output@.push(val)
            } else {
                old(self).serial.output@
            },
            final(self).ppu.bg_palette == if addr == 0xFF47 {
                val
            } else {
                old(self).ppu.bg_palette
            },
            final(self).ppu.oam_dma_running == (addr == 0xFF46 || old(self).ppu.oam_dma_running),
            final(self).ppu == old(self).ppu.io_written((addr - 0xFF00) as u16, val),
            final(self).joypad == if addr == 0xFF00 {
                Joypad { p1: (old(self).joypad.p1 & 0xCF) | (val & 0x30), ..old(self).joypad }
            } else {
                old(self).joypad
            },
            final(self).apu.regs@ == match sound_reg((addr - 0xFF00) as u16) {
                Some(i) => old(self).apu.regs@.update(i, val),
                None => old(self).apu.regs@,
            },
            final(self).apu.wave_ram@ == if 0xFF30 <= addr < 0xFF40 {
                old(self).apu.wave_ram@.update((addr & 0xF) as int, val)
            } else {
                old(self).apu.wave_ram@
            },
            final(self).apu.enabled == if addr == 0xFF26 {
                bit8(val, 7)
            } else {
                old(self).apu.enabled
            },
    {
        proof {
            lemma_addr_masks(addr);
        }
        let reg = addr & 0xFF;
        assert(reg == addr - 0xFF00) by (bit_vector)
            requires
                0xFF00 <= addr < 0xFF80,
                reg == addr & 0xFF,
        ;
        if reg == 0x00 {
            self.joypad.write_p1(val);
        } else if reg == 0x01 {
            self.serial.write_sb(val);
        } else if reg == 0x02 {
            self.serial.write_sc(val);
        } else if reg == 0x04 {
            self.timer.write_div(val);
        } else if reg == 0x05 {
            self.timer.write_tima(val);
        } else if reg == 0x06 {
            self.timer.write_tma(val);
        } else if reg == 0x07 {
            self.timer.write_tac(val);
        } else if reg == 0x0F {
            self.interrupt_flag = val;
        } else if reg == 0x10 {
            self.apu.write_nr10(val);
        } else if reg == 0x11 {
            self.apu.write_nr11(val);
        } else if reg == 0x12 {
            self.apu.write_nr12(val);
        } else if reg == 0x13 {
            self.apu.write_nr13(val);
        } else if reg == 0x14 {
            self.apu.write_nr14(val);
        } else if reg == 0x16 {
            self.apu.write_nr21(val);
        } else if reg == 0x17 {
            self.apu.write_nr22(val);
        } else if reg == 0x18 {
            self.apu.write_nr23(val);
        } else if reg == 0x19 {
            self.apu.write_nr24(val);
        } else if reg == 0x1A {
            self.apu.write_nr30(val);
        } else if reg == 0x1B {
            self.apu.write_nr31(val);
        } else if reg == 0x1C {
            self.apu.write_nr32(val);
        } else if reg == 0x1D {
            self.apu.write_nr33(val);
        } else if reg == 0x1E {
            self.apu.write_nr34(val);
        } else if reg == 0x20 {
            self.apu.write_nr41(val);
        } else if reg == 0x21 {
            self.apu.write_nr42(val);
        } else if reg == 0x22 {
            self.apu.write_nr43(val);
        } else if reg == 0x23 {
            self.apu.write_nr44(val);
        } else if reg == 0x24 {
            self.apu.write_nr50(val);
        } else if reg == 0x25 {
            self.apu.write_nr51(val);
        } else if reg == 0x26 {
            self.apu.write_nr52(val);
        } else if 0x30 <= reg && reg < 0x40 {
            self.apu.write_wave(addr, val);
        } else if reg == 0x40 {
            self.ppu.write_lcdc(val);
        } else if reg == 0x41 {
            self.ppu.write_stat(val);
        } else if reg == 0x42 {
            self.ppu.write_scy(val);
        } else if reg == 0x43 {
            self.ppu.write_scx(val);
        } else if reg == 0x45 {
            self.ppu.write_lyc(val);
        } else if reg == 0x46 {
            self.ppu.write_dma(val);
        } else if reg == 0x47 {
            self.ppu.write_bgp(val);
        } else if reg == 0x48 {
            self.ppu.write_obp0(val);
        } else if reg == 0x49 {
            self.ppu.write_obp1(val);
        } else if reg == 0x4A {
            self.ppu.write_wy(val);
        } else if reg == 0x4B {
            self.ppu.write_wx(val);
        } else if reg == 0x50 {
            // The boot image stays unmapped once switched off.
            self.bootrom_disabled = self.bootrom_disabled || val != 0;
        }
    }

    /// Writes a byte without ticking.
    #[verifier::rlimit(40)]
    pub fn write_passive(&mut self, addr: u16, val: u8)
        requires
            old(self).wf(),
        ensures
            final(self).wf(),
            final(self).cycle == old(self).cycle,
            final(self).ram_cells() == stored(old(self).ram_cells(), addr, val),
            addr < 0x8000 ==> final(self).rom == old(self).rom.configured(addr, val),
            final(self).bootrom == old(self).bootrom,
            0xA000 <= addr < 0xC000 ==> ram_written(old(self).rom, final(self).rom, addr, val),
            !(addr < 0x8000 || 0xA000 <= addr < 0xC000) ==> final(self).rom == old(self).rom,
            final(self).interrupt_enable == if addr == 0xFFFF {
                val
            } else {
                old(self).interrupt_enable
            },
            final(self).interrupt_flag == if addr == 0xFF0F {
                val
            } else {
                old(self).interrupt_flag
            },
            final(self).bootrom_disabled == (old(self).bootrom_disabled || (addr == 0xFF50 && val
                != 0)),
            final(self).timer == if addr == 0xFF04 {
                Timer { clocks: 0, ..old(self).timer }
            } else if addr == 0xFF05 {
                Timer { counter: val, ..old(self).timer }
            } else if addr == 0xFF06 {
                Timer { modulo: val, ..old(self).timer }
            } else if addr == 0xFF07 {
                Timer { control: val, ..old(self).timer }
            } else {
                old(self).timer
            },
            final(self).serial.output@ == if addr == 0xFF01 {
                old(self).serial.output@.push(val)
            } else {
                old(self).serial.output@
            },
            final(self).ppu.bg_palette == if addr == 0xFF47 {
                val
            } else {
                old(self).ppu.bg_palette
            },
            final(self).ppu.oam_dma_running == (addr == 0xFF46 || old(self).ppu.oam_dma_running),
            // The PPU: VRAM and OAM through their access windows, the LCD
            // registers through `io_written`; nothing else touches it.
            (0x8000 <= addr < 0xA000) ==> final(self).ppu == (PPU {
                vram: final(self).ppu.vram,
                ..old(self).ppu
            }) && final(self).ppu.vram@ == if old(self).ppu.vram_open() {
                old(self).ppu.vram@.update((addr & 0x1FFF) as int, val)
            } else {
                old(self).ppu.vram@
            },
            (0xFE00 <= addr < 0xFF00) ==> final(self).ppu == (PPU {
                oam: final(self).ppu.oam,
                ..old(self).ppu
            }) && final(self).ppu.oam@ == if old(self).ppu.oam_open() && addr & 0xFF < 0xA0 {
                old(self).ppu.oam@.update((addr & 0xFF) as int, val)
            } else {
                old(self).ppu.oam@
            },
            (0xFF00 <= addr < 0xFF80) ==> final(self).ppu == old(self).ppu.io_written(
                (addr - 0xFF00) as u16,
                val,
            ),
            !(0x8000 <= addr < 0xA000 || 0xFE00 <= addr < 0xFF80) ==> final(self).ppu == old(
                self,
            ).ppu,
            final(self).joypad == if addr == 0xFF00 {
                Joypad { p1: (old(self).joypad.p1 & 0xCF) | (val & 0x30), ..old(self).joypad }
            } else {
                old(self).joypad
            },
            final(self).apu.regs@ == if 0xFF00 <= addr < 0xFF80 {
                match sound_reg((addr - 0xFF00) as u16) {
                    Some(i) => old(self).apu.regs@.update(i, val),
                    None => old(self).apu.regs@,
                }
            } else {
                old(self).apu.regs@
            },
            final(self).apu.wave_ram@ == if 0xFF30 <= addr < 0xFF40 {
                old(self).apu.wave_ram@.update((addr & 0xF) as int, val)
            } else {
                old(self).apu.wave_ram@
            },
            final(self).apu.enabled == if addr == 0xFF26 {
                bit8(val, 7)
            } else {
                old(self).apu.enabled
            },
    {
        proof {
            lemma_addr_masks(addr);
        }
        let ghost cells = self.ram_cells();
        if addr < 0x8000 {
            self.rom.write_rom(addr, val);
        } else if addr < 0xA000 {
            self.ppu.write_vram(addr, val);
        } else if addr < 0xC000 {
            self.rom.write_ram(addr, val);
        } else if addr < 0xFE00 {
            self.wram.set((addr & 0x1FFF) as usize, val);
            assert(self.ram_cells() =~= cells.update(ram_cell(addr), val));
        } else if addr < 0xFF00 {
            self.ppu.write_oam(addr, val);
        } else if addr < 0xFF80 {
            self.write_io(addr, val);
        } else if addr < 0xFFFF {
            self.hram.set((addr & 0x7F) as usize, val);
            assert(self.ram_cells() =~= cells.update(ram_cell(addr), val));
        } else {
            self.interrupt_enable = val;
        }
        assert(!is_ram(addr) ==> self.ram_cells() =~= cells);
    }

    /// Ticks one M-cycle, then writes.
    pub fn write(&mut self, addr: u16, val: u8)
        requires
            old(self).wf(),
            old(self).cycle < u64::MAX,
        ensures
            final(self).wf(),
            final(self).cycle == old(self).cycle + 1,
            final(self).ram_cells() == stored(old(self).ram_cells(), addr, val),
            // The cycle's tick: the PPU moves four dots, the APU keeps state.
            old(self).ppu.enabled() ==> final(self).ppu.frame_pos() == (old(self).ppu.frame_pos() + 4)
                % crate::ppu::FRAME_DOTS as int,
            !old(self).ppu.enabled() ==> final(self).ppu.frame_pos() == old(self).ppu.frame_pos(),
            0xA000 <= addr < 0xC000 ==> ram_written(old(self).rom, final(self).rom, addr, val),
            addr < 0x8000 ==> final(self).rom == old(self).rom.configured(addr, val),
            final(self).bootrom == old(self).bootrom,
            !(addr < 0x8000 || 0xA000 <= addr < 0xC000) ==> final(self).rom == old(self).rom,
            final(self).interrupt_enable == if addr == 0xFFFF {
                val
            } else {
                old(self).interrupt_enable
            },
            addr == 0xFF0F ==> final(self).interrupt_flag == val,
            addr != 0xFF0F ==> final(self).interrupt_flag & old(self).interrupt_flag == old(
                self,
            ).interrupt_flag,
            final(self).bootrom_disabled == (old(self).bootrom_disabled || (addr == 0xFF50 && val
                != 0)),
            final(self).serial.output@ == if addr == 0xFF01 {
                old(self).serial.output@.push(val)
            } else {
                old(self).serial.output@
            },
            addr == 0xFF47 ==> final(self).ppu.bg_palette == val,
            (!old(self).ppu.oam_dma_running && addr != 0xFF46) ==> !final(self).ppu.oam_dma_running,
            // LCD registers: the written one takes the value, LY and the rest
            // keep theirs.
            addr == 0xFF40 ==> final(self).ppu.lcd_control == val,
            addr == 0xFF41 ==> final(self).ppu.lcd_status == val & 0x78,
            addr == 0xFF42 ==> final(self).ppu.viewport_y == val,
            addr == 0xFF43 ==> final(self).ppu.viewport_x == val,
            addr == 0xFF45 ==> final(self).ppu.lcd_y_compare == val,
            addr == 0xFF46 ==> final(self).ppu.oam_dma_src == val && final(self).ppu.oam_dma_running
                && final(self).ppu.oam_dma_idx == 0,
            addr == 0xFF48 ==> final(self).ppu.obp0 == val,
            addr == 0xFF49 ==> final(self).ppu.obp1 == val,
            addr == 0xFF4A ==> final(self).ppu.window_y == val,
            addr == 0xFF4B ==> final(self).ppu.window_x == val,
            (addr < 0xFF40 || addr == 0xFF44 || addr >= 0xFF4C) ==> final(self).ppu.same_lcd_registers(
                &old(self).ppu,
            ),
            // Timer registers after the cycle's tick.
            addr == 0xFF04 ==> final(self).timer == (Timer { clocks: 0, ..old(self).timer.ticked().0 }),
            addr == 0xFF05 ==> final(self).timer == (Timer { counter: val, ..old(self).timer.ticked().0 }),
            addr == 0xFF06 ==> final(self).timer == (Timer { modulo: val, ..old(self).timer.ticked().0 }),
            addr == 0xFF07 ==> final(self).timer == (Timer { control: val, ..old(self).timer.ticked().0 }),
            !(0xFF04 <= addr < 0xFF08) ==> final(self).timer == old(self).timer.ticked().0,
            // VRAM and OAM through the access windows of the cycle's end.
            (0x8000 <= addr < 0xA000) ==> final(self).ppu.vram@ == if final(self).ppu.vram_open() {
                old(self).ppu.vram@.update((addr & 0x1FFF) as int, val)
            } else {
                old(self).ppu.vram@
            },
            !(0x8000 <= addr < 0xA000) ==> final(self).ppu.vram@ == old(self).ppu.vram@,
            (!old(self).ppu.oam_dma_running && 0xFE00 <= addr < 0xFF00) ==> final(self).ppu.oam@
                == if final(self).ppu.oam_open() && addr & 0xFF < 0xA0 {
                old(self).ppu.oam@.update((addr & 0xFF) as int, val)
            } else {
                old(self).ppu.oam@
            },
            // P1 selection bits and the sound registers.
            addr == 0xFF00 ==> final(self).joypad.p1 & 0x30 == val & 0x30,
            final(self).apu.regs@ == if 0xFF00 <= addr < 0xFF80 {
                match sound_reg((addr - 0xFF00) as u16) {
                    Some(i) => old(self).apu.regs@.update(i, val),
                    None => old(self).apu.regs@,
                }
            } else {
                old(self).apu.regs@
            },
            final(self).apu.wave_ram@ == if 0xFF30 <= addr < 0xFF40 {
                old(self).apu.wave_ram@.update((addr & 0xF) as int, val)
            } else {
                old(self).apu.wave_ram@
            },
    {
        self.tick();
        proof {
            let o = old(self).interrupt_flag;
            assert(forall|b: u8| (o | b) & o == o) by (bit_vector);
            assert(forall|x: u8| ((x & 0xCF) | (val & 0x30)) & 0x30 == val & 0x30) by (bit_vector);
            lemma_addr_masks(addr);
        }
        self.write_passive(addr, val)
    }
}

} // verus!

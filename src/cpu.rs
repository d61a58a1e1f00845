use vstd::prelude::*;
use crate::alu::{
    add16, add16_spec, add8, add8_spec, add_sp, add_sp_spec, and8, and8_spec, daa, daa_spec, dec8,
    dec8_spec, flags, inc8, inc8_spec, make_flags, or8, or8_spec, shift, shift_spec, sub8, sub8_spec,
    xor8, xor8_spec,
};
use crate::components::{is_ram, lemma_fixed_read, lemma_ram_read, ram_cell, stored, Components};
use crate::util::{bit8, lemma_bit_masks, lemma_keeps_bits, lemma_or_keeps};

verus! {

/// The 8-bit operands of the instruction set, in opcode order; `HLPtr` is
/// the byte at address HL.
#[derive(Clone, Copy, PartialEq, Eq, Structural)]
pub enum Reg8 {
    B,
    C,
    D,
    E,
    H,
    L,
    HLPtr,
    A,
}

#[derive(Clone, Copy, PartialEq, Eq, Structural)]
pub enum Reg16 {
    AF,
    BC,
    DE,
    HL,
    SP,
    PC,
}

/// The operand that bits 0-2 (or 3-5, shifted down) of an opcode name.
pub open spec fn reg8_of(code: u8) -> Reg8 {
    if code == 0 {
        Reg8::B
    } else if code == 1 {
        Reg8::C
    } else if code == 2 {
        Reg8::D
    } else if code == 3 {
        Reg8::E
    } else if code == 4 {
        Reg8::H
    } else if code == 5 {
        Reg8::L
    } else if code == 6 {
        Reg8::HLPtr
    } else {
        Reg8::A
    }
}

pub fn decode_reg8(code: u8) -> (r: Reg8)
    ensures
        r == reg8_of(code),
{
    if code == 0 {
        Reg8::B
    } else if code == 1 {
        Reg8::C
    } else if code == 2 {
        Reg8::D
    } else if code == 3 {
        Reg8::E
    } else if code == 4 {
        Reg8::H
    } else if code == 5 {
        Reg8::L
    } else if code == 6 {
        Reg8::HLPtr
    } else {
        Reg8::A
    }
}

/// M-cycles that an operand access costs.
pub open spec fn access_cost(r: Reg8) -> int {
    if r == Reg8::HLPtr {
        1
    } else {
        0
    }
}

pub open spec fn inc16(x: u16) -> u16 {
    if x == 0xFFFF {
        0
    } else {
        (x + 1) as u16
    }
}

pub open spec fn dec16(x: u16) -> u16 {
    if x == 0 {
        0xFFFF
    } else {
        (x - 1) as u16
    }
}

pub open spec fn join16(hi: u8, lo: u8) -> u16 {
    (hi as int * 256 + lo as int) as u16
}

pub open spec fn hi8(v: u16) -> u8 {
    (v / 256) as u8
}

pub open spec fn lo8(v: u16) -> u8 {
    (v % 256) as u8
}

fn inc16_exec(x: u16) -> (r: u16)
    ensures
        r == inc16(x),
{
    if x == 0xFFFF {
        0
    } else {
        x + 1
    }
}

fn dec16_exec(x: u16) -> (r: u16)
    ensures
        r == dec16(x),
{
    if x == 0 {
        0xFFFF
    } else {
        x - 1
    }
}

/// Whether the bus can take `n` more M-cycles.
pub open spec fn ready(com: &Components, n: int) -> bool {
    com.wf() && com.cycle + n <= u64::MAX
}

/// The SM83 core: register file, interrupt state and the prefetched opcode.
pub struct CPU {
    pub a: u8,
    pub b: u8,
    pub c: u8,
    pub d: u8,
    pub e: u8,
    /// Flags: Z (bit 7), N (6), H (5), C (4); bits 0-3 stay zero.
    pub f: u8,
    pub h: u8,
    pub l: u8,
    pub sp: u16,
    pub pc: u16,
    pub ime: bool,
    /// EI takes effect after the next instruction.
    pub ime_queued: bool,
    pub halted: bool,
    /// Fetched during the last M-cycle of the previous instruction.
    pub opcode: u8,
}

impl CPU {
    pub open spec fn wf(&self) -> bool {
        self.f & 0x0F == 0
    }

    pub open spec fn zf(&self) -> bool {
        bit8(self.f, 7)
    }

    pub open spec fn nf(&self) -> bool {
        bit8(self.f, 6)
    }

    pub open spec fn hf(&self) -> bool {
        bit8(self.f, 5)
    }

    pub open spec fn cf(&self) -> bool {
        bit8(self.f, 4)
    }

    pub open spec fn r16(&self, r: Reg16) -> u16 {
        match r {
            Reg16::AF => join16(self.a, self.f),
            Reg16::BC => join16(self.b, self.c),
            Reg16::DE => join16(self.d, self.e),
            Reg16::HL => join16(self.h, self.l),
            Reg16::SP => self.sp,
            Reg16::PC => self.pc,
        }
    }

    /// The register file with a 16-bit register replaced; F keeps only its
    /// top four bits.
    pub open spec fn with_r16(self, r: Reg16, v: u16) -> CPU {
        match r {
            Reg16::AF => CPU { a: hi8(v), f: lo8(v) & 0xF0, ..self },
            Reg16::BC => CPU { b: hi8(v), c: lo8(v), ..self },
            Reg16::DE => CPU { d: hi8(v), e: lo8(v), ..self },
            Reg16::HL => CPU { h: hi8(v), l: lo8(v), ..self },
            Reg16::SP => CPU { sp: v, ..self },
            Reg16::PC => CPU { pc: v, ..self },
        }
    }

    /// An 8-bit register (`HLPtr` is not one).
    pub open spec fn r8(&self, r: Reg8) -> u8 {
        match r {
            Reg8::A => self.a,
            Reg8::B => self.b,
            Reg8::C => self.c,
            Reg8::D => self.d,
            Reg8::E => self.e,
            Reg8::H => self.h,
            Reg8::L => self.l,
            Reg8::HLPtr => 0,
        }
    }

    pub open spec fn with_r8(self, r: Reg8, v: u8) -> CPU {
        match r {
            Reg8::A => CPU { a: v, ..self },
            Reg8::B => CPU { b: v, ..self },
            Reg8::C => CPU { c: v, ..self },
            Reg8::D => CPU { d: v, ..self },
            Reg8::E => CPU { e: v, ..self },
            Reg8::H => CPU { h: v, ..self },
            Reg8::L => CPU { l: v, ..self },
            Reg8::HLPtr => self,
        }
    }

    /// Power-on state, the boot image to run from 0x0000.
    pub fn new() -> (r: CPU)
        ensures
            r.wf(),
            r.pc == 0,
            r.sp == 0,
            !r.ime,
            !r.halted,
    {
        assert(0u8 & 0x0F == 0) by (bit_vector);
        CPU {
            a: 0,
            b: 0,
            c: 0,
            d: 0,
            e: 0,
            f: 0,
            h: 0,
            l: 0,
            sp: 0,
            pc: 0,
            ime: false,
            ime_queued: false,
            halted: false,
            opcode: 0,
        }
    }

    /// The state the boot image leaves: execution at 0x0100 with the
    /// documented DMG register values, NOP prefetched.
    pub fn post_boot() -> (r: CPU)
        ensures
            r.wf(),
            r.pc == 0x0100,
            r.sp == 0xFFFE,
            r.a == 0x01 && r.f == 0xB0 && r.b == 0x00 && r.c == 0x13,
            r.d == 0x00 && r.e == 0xD8 && r.h == 0x01 && r.l == 0x4D,
            r.opcode == 0,
            !r.ime,
            !r.halted,
    {
        assert(0xB0u8 & 0x0F == 0) by (bit_vector);
        CPU {
            a: 0x01,
            b: 0x00,
            c: 0x13,
            d: 0x00,
            e: 0xD8,
            f: 0xB0,
            h: 0x01,
            l: 0x4D,
            sp: 0xFFFE,
            pc: 0x0100,
            ime: false,
            ime_queued: false,
            halted: false,
            opcode: 0,
        }
    }

    fn get_z(&self) -> (r: bool)
        ensures
            r == self.zf(),
    {
        proof {
            lemma_bit_masks(self.f);
        }
        self.f & 0x80 != 0
    }

    fn get_n(&self) -> (r: bool)
        ensures
            r == self.nf(),
    {
        proof {
            lemma_bit_masks(self.f);
        }
        self.f & 0x40 != 0
    }

    fn get_h(&self) -> (r: bool)
        ensures
            r == self.hf(),
    {
        proof {
            lemma_bit_masks(self.f);
        }
        self.f & 0x20 != 0
    }

    fn get_c(&self) -> (r: bool)
        ensures
            r == self.cf(),
    {
        proof {
            lemma_bit_masks(self.f);
        }
        self.f & 0x10 != 0
    }
}

impl Reg8 {
    /// Reads the operand; (HL) reads the bus.
    pub fn read(&self, cpu: &mut CPU, com: &mut Components) -> (v: u8)
        requires
            ready(old(com), 1),
        ensures
            *final(cpu) == *old(cpu),
            final(com).wf(),
            final(com).cycle == old(com).cycle + access_cost(*self),
            *self != Reg8::HLPtr ==> v == old(cpu).r8(*self) && *final(com) == *old(com),
            *self == Reg8::HLPtr ==> v == final(com).read_value(old(cpu).r16(Reg16::HL)),
    {
        cpu.read_r8(com, *self)
    }

    /// Writes the operand; (HL) writes the bus.
    pub fn write(&self, cpu: &mut CPU, com: &mut Components, v: u8)
        requires
            ready(old(com), 1),
            old(cpu).wf(),
        ensures
            final(cpu).wf(),
            *final(cpu) == old(cpu).with_r8(*self, v),
            final(com).wf(),
            final(com).cycle == old(com).cycle + access_cost(*self),
            *self != Reg8::HLPtr ==> *final(com) == *old(com),
            *self == Reg8::HLPtr ==> final(com).ram_cells() == stored(
                old(com).ram_cells(),
                old(cpu).r16(Reg16::HL),
                v,
            ),
    {
        cpu.write_r8(com, *self, v)
    }
}

impl Reg16 {
    pub fn read(&self, cpu: &CPU) -> (r: u16)
        ensures
            r == cpu.r16(*self),
    {
        match self {
            Reg16::AF => (cpu.a as u16) * 256 + cpu.f as u16,
            Reg16::BC => (cpu.b as u16) * 256 + cpu.c as u16,
            Reg16::DE => (cpu.d as u16) * 256 + cpu.e as u16,
            Reg16::HL => (cpu.h as u16) * 256 + cpu.l as u16,
            Reg16::SP => cpu.sp,
            Reg16::PC => cpu.pc,
        }
    }

    /// Writing AF clears the low four bits of F.
    pub fn write(&self, cpu: &mut CPU, val: u16)
        requires
            old(cpu).wf(),
        ensures
            final(cpu).wf(),
            *final(cpu) == old(cpu).with_r16(*self, val),
    {
        let hi = (val / 256) as u8;
        let lo = (val % 256) as u8;
        match self {
            Reg16::AF => {
                cpu.f = lo & 0xF0;
                cpu.a = hi;
                assert((lo & 0xF0) & 0x0F == 0) by (bit_vector);
            },
            Reg16::BC => {
                cpu.c = lo;
                cpu.b = hi;
            },
            Reg16::DE => {
                cpu.e = lo;
                cpu.d = hi;
            },
            Reg16::HL => {
                cpu.l = lo;
                cpu.h = hi;
            },
            Reg16::SP => cpu.sp = val,
            Reg16::PC => cpu.pc = val,
        }
    }
}

/// RAM after pushing `v` below `sp`: the high byte at SP-1, the low byte at
/// SP-2.
pub open spec fn push_cells(cells: Seq<u8>, sp: u16, v: u16) -> Seq<u8> {
    stored(stored(cells, dec16(sp), hi8(v)), dec16(dec16(sp)), lo8(v))
}

/// The 16-bit value that RAM holds at `sp` (low byte) and SP+1 (high byte).
pub open spec fn popped(cells: Seq<u8>, sp: u16) -> u16 {
    join16(cells[ram_cell(inc16(sp))], cells[ram_cell(sp)])
}

/// Whether both bytes of a stack slot at `sp` are RAM.
pub open spec fn stack_in_ram(sp: u16) -> bool {
    is_ram(sp) && is_ram(inc16(sp))
}

/// Two neighbouring RAM addresses use different cells.
proof fn lemma_adjacent_cells(a: u16)
    requires
        is_ram(a),
        is_ram(dec16(a)),
    ensures
        ram_cell(a) != ram_cell(dec16(a)),
        0 <= ram_cell(a) < 0x2080,
        0 <= ram_cell(dec16(a)) < 0x2080,
{
    let b = dec16(a);
    crate::util::lemma_addr_masks(a);
    crate::util::lemma_addr_masks(b);
    assert(a > 0 ==> (a & 0x1FFF) != ((a - 1) as u16 & 0x1FFF) && (a & 0x7F) != ((a - 1) as u16
        & 0x7F)) by (bit_vector);
}

/// PUSH rr followed by POP rr gives rr back, for AF as well, as long as the
/// two stack bytes are RAM (and OAM DMA is idle, which `pop_r16` asks for
/// the read-back): the pushed bytes are the popped ones, and F has no low
/// bits to lose.
pub proof fn lemma_push_pop_restores(cpu: CPU, cells: Seq<u8>, r: Reg16)
    requires
        cpu.wf(),
        cells.len() == 0x2080,
        r != Reg16::SP,
        r != Reg16::PC,
        is_ram(dec16(cpu.sp)),
        is_ram(dec16(dec16(cpu.sp))),
    ensures
        ({
            let pushed = CPU { sp: dec16(dec16(cpu.sp)), ..cpu };
            let after = push_cells(cells, cpu.sp, cpu.r16(r));
            &&& stack_in_ram(pushed.sp)
            &&& (CPU { sp: inc16(inc16(pushed.sp)), ..pushed }).with_r16(r, popped(after, pushed.sp))
                == cpu
        }),
{
    let sp1 = dec16(cpu.sp);
    let sp2 = dec16(sp1);
    let v = cpu.r16(r);
    lemma_adjacent_cells(sp1);
    let after = push_cells(cells, cpu.sp, v);
    assert(inc16(sp2) == sp1);
    assert(inc16(sp1) == cpu.sp);
    assert(after[ram_cell(sp1)] == hi8(v));
    assert(after[ram_cell(sp2)] == lo8(v));
    let f = cpu.f;
    assert(f & 0x0F == 0 ==> f & 0xF0 == f) by (bit_vector);
    assert(popped(after, sp2) == v);
}

impl CPU {
    /// An idle M-cycle.
    fn run_cycle(&mut self, com: &mut Components)
        requires
            ready(old(com), 1),
        ensures
            *final(self) == *old(self),
            final(com).wf(),
            final(com).cycle == old(com).cycle + 1,
            final(com).ram_cells() == old(com).ram_cells(),
            old(com).same_memory(&*final(com)),
            final(com).interrupt_enable == old(com).interrupt_enable,
            !old(com).ppu.oam_dma_running ==> !final(com).ppu.oam_dma_running,
            final(com).interrupt_flag & old(com).interrupt_flag == old(com).interrupt_flag,
    {
        com.tick();
        proof {
            let f = com.interrupt_flag;
            let o = old(com).interrupt_flag;
            lemma_or_keeps(
                o,
                crate::components::raised(
                    old(com).timer.ticked().1,
                    old(com).ppu.vblank_due(),
                    com.ppu.stat_request,
                    old(com).joypad.last_p1 & !com.joypad.p1 & 0xF != 0,
                ),
            );
        }
    }

    /// Reads the byte at PC and advances PC.
    fn fetch8(&mut self, com: &mut Components) -> (r: u8)
        requires
            ready(old(com), 1),
        ensures
            *final(self) == (CPU { pc: inc16(old(self).pc), ..*old(self) }),
            final(com).wf(),
            final(com).cycle == old(com).cycle + 1,
            final(com).ram_cells() == old(com).ram_cells(),
            old(com).same_memory(&*final(com)),
            final(com).interrupt_enable == old(com).interrupt_enable,
            !old(com).ppu.oam_dma_running ==> !final(com).ppu.oam_dma_running,
            r == final(com).read_value(old(self).pc),
            old(com).fixed(old(self).pc) ==> r == old(com).peek(old(self).pc),
            final(com).interrupt_flag & old(com).interrupt_flag == old(com).interrupt_flag,
    {
        let r = com.read(self.pc);
        proof {
            if old(com).fixed(old(self).pc) {
                lemma_fixed_read(&*old(com), com, old(self).pc);
            }
        }
        self.pc = inc16_exec(self.pc);
        r
    }

    /// Reads a little-endian word at PC and advances PC by two.
    fn fetch16(&mut self, com: &mut Components) -> (r: u16)
        requires
            ready(old(com), 2),
        ensures
            *final(self) == (CPU { pc: inc16(inc16(old(self).pc)), ..*old(self) }),
            (old(com).fixed(old(self).pc) && old(com).fixed(inc16(old(self).pc))) ==> r == join16(
                old(com).peek(inc16(old(self).pc)),
                old(com).peek(old(self).pc),
            ),
            final(com).wf(),
            final(com).cycle == old(com).cycle + 2,
            final(com).ram_cells() == old(com).ram_cells(),
            old(com).same_memory(&*final(com)),
            final(com).interrupt_enable == old(com).interrupt_enable,
            !old(com).ppu.oam_dma_running ==> !final(com).ppu.oam_dma_running,
    {
        let ghost c0 = *com;
        let lo = self.fetch8(com);
        let ghost c1 = *com;
        let hi = self.fetch8(com);
        proof {
            let p1 = inc16(old(self).pc);
            if c0.fixed(old(self).pc) && c0.fixed(p1) {
                lemma_fixed_read(&c0, &c1, p1);
            }
        }
        (hi as u16) * 256 + lo as u16
    }

    /// Reads an operand; (HL) costs a bus read.
    fn read_r8(&mut self, com: &mut Components, r: Reg8) -> (v: u8)
        requires
            ready(old(com), 1),
        ensures
            *final(self) == *old(self),
            final(com).wf(),
            final(com).cycle == old(com).cycle + access_cost(r),
            final(com).ram_cells() == old(com).ram_cells(),
            old(com).same_memory(&*final(com)),
            final(com).interrupt_enable == old(com).interrupt_enable,
            !old(com).ppu.oam_dma_running ==> !final(com).ppu.oam_dma_running,
            r != Reg8::HLPtr ==> v == old(self).r8(r) && *final(com) == *old(com),
            r == Reg8::HLPtr ==> v == final(com).read_value(old(self).r16(Reg16::HL)),
            (r == Reg8::HLPtr && old(com).fixed(old(self).r16(Reg16::HL))) ==> v == old(com).peek(
                old(self).r16(Reg16::HL),
            ),
    {
        match r {
            Reg8::A => self.a,
            Reg8::B => self.b,
            Reg8::C => self.c,
            Reg8::D => self.d,
            Reg8::E => self.e,
            Reg8::H => self.h,
            Reg8::L => self.l,
            Reg8::HLPtr => {
                let hl = Reg16::HL.read(self);
                let v = com.read(hl);
                proof {
                    if old(com).fixed(hl) {
                        lemma_fixed_read(&*old(com), com, hl);
                    }
                }
                v
            },
        }
    }

    /// Writes an operand; (HL) costs a bus write.
    fn write_r8(&mut self, com: &mut Components, r: Reg8, v: u8)
        requires
            ready(old(com), 1),
            old(self).wf(),
        ensures
            final(self).wf(),
            *final(self) == old(self).with_r8(r, v),
            final(com).wf(),
            final(com).cycle == old(com).cycle + access_cost(r),
            r != Reg8::HLPtr ==> *final(com) == *old(com),
            r == Reg8::HLPtr ==> final(com).ram_cells() == stored(
                old(com).ram_cells(),
                old(self).r16(Reg16::HL),
                v,
            ),
    {
        match r {
            Reg8::A => self.a = v,
            Reg8::B => self.b = v,
            Reg8::C => self.c = v,
            Reg8::D => self.d = v,
            Reg8::E => self.e = v,
            Reg8::H => self.h = v,
            Reg8::L => self.l = v,
            Reg8::HLPtr => {
                let hl = Reg16::HL.read(self);
                com.write(hl, v);
            },
        }
    }

    /// Pushes a word: an idle cycle, then the high and the low byte.
    fn push_val(&mut self, com: &mut Components, val: u16)
        requires
            ready(old(com), 3),
        ensures
            *final(self) == (CPU { sp: dec16(dec16(old(self).sp)), ..*old(self) }),
            final(com).wf(),
            final(com).cycle == old(com).cycle + 3,
            final(com).ram_cells() == push_cells(old(com).ram_cells(), old(self).sp, val),
            (dec16(old(self).sp) != 0xFF0F && dec16(dec16(old(self).sp)) != 0xFF0F) ==> final(com).interrupt_flag & old(com).interrupt_flag == old(com).interrupt_flag,
    {
        let ghost f0 = com.interrupt_flag;
        self.run_cycle(com);
        let ghost f1 = com.interrupt_flag;
        let sp1 = dec16_exec(self.sp);
        com.write(sp1, (val / 256) as u8);
        let ghost f2 = com.interrupt_flag;
        let sp2 = dec16_exec(sp1);
        com.write(sp2, (val % 256) as u8);
        self.sp = sp2;
        proof {
            if sp1 != 0xFF0F && sp2 != 0xFF0F {
                lemma_keeps_bits(f0, f1, f2);
                lemma_keeps_bits(f0, f2, com.interrupt_flag);
            }
        }
    }

    /// Reads a little-endian word: the low byte at `addr`, then the high
    /// byte after it.
    pub fn read16(&mut self, com: &mut Components, addr: u16) -> (r: u16)
        requires
            ready(old(com), 2),
        ensures
            *final(self) == *old(self),
            final(com).wf(),
            final(com).cycle == old(com).cycle + 2,
            final(com).ram_cells() == old(com).ram_cells(),
            old(com).same_memory(&*final(com)),
            final(com).interrupt_enable == old(com).interrupt_enable,
            !old(com).ppu.oam_dma_running ==> !final(com).ppu.oam_dma_running,
            (!old(com).ppu.oam_dma_running && stack_in_ram(addr)) ==> r == popped(
                old(com).ram_cells(),
                addr,
            ),
    {
        let lo = com.read(addr);
        proof {
            if !old(com).ppu.oam_dma_running && stack_in_ram(addr) {
                lemma_ram_read(com, addr);
            }
        }
        let next = inc16_exec(addr);
        let hi = com.read(next);
        proof {
            if !old(com).ppu.oam_dma_running && stack_in_ram(addr) {
                lemma_ram_read(com, next);
            }
        }
        (hi as u16) * 256 + lo as u16
    }

    /// Pops a word: the low byte at SP, then the high byte.
    fn pop_val(&mut self, com: &mut Components) -> (v: u16)
        requires
            ready(old(com), 2),
        ensures
            *final(self) == (CPU { sp: inc16(inc16(old(self).sp)), ..*old(self) }),
            final(com).wf(),
            final(com).cycle == old(com).cycle + 2,
            final(com).ram_cells() == old(com).ram_cells(),
            old(com).same_memory(&*final(com)),
            final(com).interrupt_enable == old(com).interrupt_enable,
            !old(com).ppu.oam_dma_running ==> !final(com).ppu.oam_dma_running,
            (!old(com).ppu.oam_dma_running && stack_in_ram(old(self).sp)) ==> v == popped(
                old(com).ram_cells(),
                old(self).sp,
            ),
    {
        let v = self.read16(com, self.sp);
        self.sp = inc16_exec(inc16_exec(self.sp));
        v
    }
}

/// The eight accumulator operations, by bits 3-5 of the opcode: ADD, ADC,
/// SUB, SBC, AND, XOR, OR, CP (CP keeps A). Gives the new A and F.
pub open spec fn alu_spec(kind: u8, a: u8, v: u8, c: bool) -> (u8, u8) {
    if kind == 0 {
        add8_spec(a, v, false)
    } else if kind == 1 {
        add8_spec(a, v, c)
    } else if kind == 2 {
        sub8_spec(a, v, false)
    } else if kind == 3 {
        sub8_spec(a, v, c)
    } else if kind == 4 {
        and8_spec(a, v)
    } else if kind == 5 {
        xor8_spec(a, v)
    } else if kind == 6 {
        or8_spec(a, v)
    } else {
        (a, sub8_spec(a, v, false).1)
    }
}

/// The branch condition by bits 3-4 of the opcode: NZ, Z, NC, C.
pub open spec fn cond_spec(cpu: &CPU, cc: u8) -> bool {
    if cc == 0 {
        !cpu.zf()
    } else if cc == 1 {
        cpu.zf()
    } else if cc == 2 {
        !cpu.cf()
    } else {
        cpu.cf()
    }
}

/// PC plus a signed displacement byte.
pub open spec fn jump_rel(pc: u16, e: u8) -> u16 {
    let offset = if e < 128 { e as int } else { e as int - 256 };
    ((pc as int + offset + 65536) % 65536) as u16
}

/// The register pair named by bits 4-5 of the opcode; `af` tells whether
/// the fourth is AF (PUSH, POP) or SP.
pub open spec fn reg16_of(code: u8, af: bool) -> Reg16 {
    if code == 0 {
        Reg16::BC
    } else if code == 1 {
        Reg16::DE
    } else if code == 2 {
        Reg16::HL
    } else if af {
        Reg16::AF
    } else {
        Reg16::SP
    }
}

pub fn decode_reg16(code: u8, af: bool) -> (r: Reg16)
    ensures
        r == reg16_of(code, af),
{
    if code == 0 {
        Reg16::BC
    } else if code == 1 {
        Reg16::DE
    } else if code == 2 {
        Reg16::HL
    } else if af {
        Reg16::AF
    } else {
        Reg16::SP
    }
}

impl CPU {
    fn cond(&self, cc: u8) -> (r: bool)
        ensures
            r == cond_spec(self, cc),
    {
        if cc == 0 {
            !self.get_z()
        } else if cc == 1 {
            self.get_z()
        } else if cc == 2 {
            !self.get_c()
        } else {
            self.get_c()
        }
    }

    /// Applies an accumulator operation to A and F.
    fn alu_a(&mut self, kind: u8, v: u8)
        requires
            old(self).wf(),
        ensures
            final(self).wf(),
            *final(self) == (CPU {
                a: alu_spec(kind, old(self).a, v, old(self).cf()).0,
                f: alu_spec(kind, old(self).a, v, old(self).cf()).1,
                ..*old(self)
            }),
    {
        let c = self.get_c();
        let (r, f) = if kind == 0 {
            add8(self.a, v, false)
        } else if kind == 1 {
            add8(self.a, v, c)
        } else if kind == 2 {
            sub8(self.a, v, false)
        } else if kind == 3 {
            sub8(self.a, v, c)
        } else if kind == 4 {
            and8(self.a, v)
        } else if kind == 5 {
            xor8(self.a, v)
        } else if kind == 6 {
            or8(self.a, v)
        } else {
            let (_, f) = sub8(self.a, v, false);
            (self.a, f)
        };
        self.a = r;
        self.f = f;
    }

    /// LD r, r'.
    fn ld_r8_r8(&mut self, com: &mut Components, dst: Reg8, src: Reg8)
        requires
            old(self).wf(),
            ready(old(com), 2),
            !(dst == Reg8::HLPtr && src == Reg8::HLPtr),
        ensures
            final(self).wf(),
            final(com).wf(),
            final(com).cycle == old(com).cycle + access_cost(dst) + access_cost(src),
            dst == Reg8::HLPtr ==> *final(self) == *old(self) && final(com).ram_cells() == stored(
                old(com).ram_cells(),
                old(self).r16(Reg16::HL),
                old(self).r8(src),
            ),
            (src == Reg8::HLPtr && dst != Reg8::HLPtr) ==> *final(self) == old(self).with_r8(
                dst,
                final(self).r8(dst),
            ) && final(com).ram_cells() == old(com).ram_cells(),
            (src == Reg8::HLPtr && old(com).fixed(old(self).r16(Reg16::HL))) ==> *final(self)
                == old(self).with_r8(dst, old(com).peek(old(self).r16(Reg16::HL)))
                && final(com).ram_cells() == old(com).ram_cells(),
            (dst != Reg8::HLPtr && src != Reg8::HLPtr) ==> *final(self) == old(self).with_r8(
                dst,
                old(self).r8(src),
            ) && *final(com) == *old(com),
    {
        let v = self.read_r8(com, src);
        self.write_r8(com, dst, v);
    }

    /// INC r / DEC r.
    fn inc_dec_r8(&mut self, com: &mut Components, r: Reg8, dec: bool)
        requires
            old(self).wf(),
            ready(old(com), 2),
        ensures
            final(self).wf(),
            final(com).wf(),
            final(com).cycle == old(com).cycle + 2 * access_cost(r),
            r != Reg8::HLPtr ==> *final(com) == *old(com),
            (r == Reg8::HLPtr && old(com).fixed(old(self).r16(Reg16::HL))) ==> ({
                let hl = old(self).r16(Reg16::HL);
                let (v, f) = if dec {
                    dec8_spec(old(com).peek(hl), old(self).cf())
                } else {
                    inc8_spec(old(com).peek(hl), old(self).cf())
                };
                &&& *final(self) == (CPU { f, ..*old(self) })
                &&& final(com).ram_cells() == stored(old(com).ram_cells(), hl, v)
            }),
            r != Reg8::HLPtr ==> {
                let (v, f) = if dec {
                    dec8_spec(old(self).r8(r), old(self).cf())
                } else {
                    inc8_spec(old(self).r8(r), old(self).cf())
                };
                *final(self) == (CPU { f, ..old(self).with_r8(r, v) })
            },
    {
        let v = self.read_r8(com, r);
        let c = self.get_c();
        let (res, f) = if dec {
            dec8(v, c)
        } else {
            inc8(v, c)
        };
        self.write_r8(com, r, res);
        self.f = f;
    }

    /// INC rr / DEC rr: one idle cycle, no flags.
    fn inc_dec_r16(&mut self, com: &mut Components, r: Reg16, dec: bool)
        requires
            old(self).wf(),
            ready(old(com), 1),
            r != Reg16::AF,
        ensures
            final(self).wf(),
            final(com).wf(),
            final(com).cycle == old(com).cycle + 1,
            final(com).ram_cells() == old(com).ram_cells(),
            *final(self) == old(self).with_r16(
                r,
                if dec {
                    dec16(old(self).r16(r))
                } else {
                    inc16(old(self).r16(r))
                },
            ),
    {
        self.run_cycle(com);
        let v = r.read(self);
        let n = if dec {
            dec16_exec(v)
        } else {
            inc16_exec(v)
        };
        r.write(self, n);
    }

    /// ADD HL, rr: one idle cycle.
    fn add_hl_r16(&mut self, com: &mut Components, r: Reg16)
        requires
            old(self).wf(),
            ready(old(com), 1),
        ensures
            final(self).wf(),
            final(com).wf(),
            final(com).cycle == old(com).cycle + 1,
            final(com).ram_cells() == old(com).ram_cells(),
            ({
                let (v, f) = add16_spec(
                    old(self).r16(Reg16::HL),
                    old(self).r16(r),
                    old(self).zf(),
                );
                *final(self) == (CPU { f, ..old(self).with_r16(Reg16::HL, v) })
            }),
    {
        self.run_cycle(com);
        let v = r.read(self);
        let hl = Reg16::HL.read(self);
        let z = self.get_z();
        let (res, f) = add16(hl, v, z);
        Reg16::HL.write(self, res);
        self.f = f;
    }

    /// PUSH rr: an idle cycle and two writes below SP.
    fn push_r16(&mut self, com: &mut Components, r: Reg16)
        requires
            old(self).wf(),
            ready(old(com), 3),
        ensures
            final(self).wf(),
            final(com).wf(),
            final(com).cycle == old(com).cycle + 3,
            *final(self) == (CPU { sp: dec16(dec16(old(self).sp)), ..*old(self) }),
            final(com).ram_cells() == push_cells(old(com).ram_cells(), old(self).sp, old(self).r16(r)),
    {
        let v = r.read(self);
        self.push_val(com, v);
    }

    /// POP rr: two reads at SP; POP AF keeps only the top four bits of F.
    fn pop_r16(&mut self, com: &mut Components, r: Reg16)
        requires
            old(self).wf(),
            ready(old(com), 2),
            r != Reg16::SP,
        ensures
            final(self).wf(),
            final(com).wf(),
            final(com).cycle == old(com).cycle + 2,
            final(com).ram_cells() == old(com).ram_cells(),
            old(com).same_memory(&*final(com)),
            final(com).interrupt_enable == old(com).interrupt_enable,
            !old(com).ppu.oam_dma_running ==> !final(com).ppu.oam_dma_running,
            final(self).sp == inc16(inc16(old(self).sp)),
            (!old(com).ppu.oam_dma_running && stack_in_ram(old(self).sp)) ==> *final(self) == (CPU {
                sp: inc16(inc16(old(self).sp)),
                ..*old(self)
            }).with_r16(r, popped(old(com).ram_cells(), old(self).sp)),
    {
        let v = self.pop_val(com);
        r.write(self, v);
    }

    /// JR cc, e: the displacement is always read; a taken jump costs one
    /// more M-cycle.
    fn jr_cc(&mut self, com: &mut Components, cc: u8)
        requires
            old(self).wf(),
            ready(old(com), 2),
        ensures
            final(self).wf(),
            final(com).wf(),
            final(com).cycle == old(com).cycle + if cond_spec(old(self), cc) { 2int } else { 1int },
            final(com).ram_cells() == old(com).ram_cells(),
            !cond_spec(old(self), cc) ==> *final(self) == (CPU { pc: inc16(old(self).pc), ..*old(self) }),
            (cond_spec(old(self), cc) && old(com).fixed(old(self).pc)) ==> *final(self) == (CPU {
                pc: jump_rel(inc16(old(self).pc), old(com).peek(old(self).pc)),
                ..*old(self)
            }),
    {
        let taken = self.cond(cc);
        let e = self.fetch8(com);
        if taken {
            self.run_cycle(com);
            self.pc = self.rel(e);
        }
    }

    fn rel(&self, e: u8) -> (r: u16)
        ensures
            r == jump_rel(self.pc, e),
    {
        let offset: i32 = if e < 128 { e as i32 } else { e as i32 - 256 };
        ((self.pc as i32 + offset + 65536) % 65536) as u16
    }

    /// JP cc, nn: the address is always read; a taken jump costs one more
    /// M-cycle.
    fn jp_cc(&mut self, com: &mut Components, cc: u8)
        requires
            old(self).wf(),
            ready(old(com), 3),
        ensures
            final(self).wf(),
            final(com).wf(),
            final(com).cycle == old(com).cycle + if cond_spec(old(self), cc) { 3int } else { 2int },
            final(com).ram_cells() == old(com).ram_cells(),
            !cond_spec(old(self), cc) ==> *final(self) == (CPU {
                pc: inc16(inc16(old(self).pc)),
                ..*old(self)
            }),
            (cond_spec(old(self), cc) && old(com).fixed(old(self).pc) && old(com).fixed(
                inc16(old(self).pc),
            )) ==> *final(self) == (CPU {
                pc: join16(old(com).peek(inc16(old(self).pc)), old(com).peek(old(self).pc)),
                ..*old(self)
            }),
    {
        let taken = self.cond(cc);
        let nn = self.fetch16(com);
        if taken {
            self.run_cycle(com);
            self.pc = nn;
        }
    }

    /// CALL cc, nn: the address is always read; a taken call pushes PC, three
    /// more M-cycles.
    fn call_cc(&mut self, com: &mut Components, cc: u8)
        requires
            old(self).wf(),
            ready(old(com), 5),
        ensures
            final(self).wf(),
            final(com).wf(),
            final(com).cycle == old(com).cycle + if cond_spec(old(self), cc) { 5int } else { 2int },
            !cond_spec(old(self), cc) ==> *final(self) == (CPU {
                pc: inc16(inc16(old(self).pc)),
                ..*old(self)
            }) && final(com).ram_cells() == old(com).ram_cells(),
            cond_spec(old(self), cc) ==> final(com).ram_cells() == push_cells(
                old(com).ram_cells(),
                old(self).sp,
                inc16(inc16(old(self).pc)),
            ),
            (cond_spec(old(self), cc) && old(com).fixed(old(self).pc) && old(com).fixed(
                inc16(old(self).pc),
            )) ==> *final(self) == (CPU {
                pc: join16(old(com).peek(inc16(old(self).pc)), old(com).peek(old(self).pc)),
                sp: dec16(dec16(old(self).sp)),
                ..*old(self)
            }),
    {
        let taken = self.cond(cc);
        let nn = self.fetch16(com);
        if taken {
            let pc = self.pc;
            self.push_val(com, pc);
            self.pc = nn;
        }
    }

    /// RET cc: one idle cycle to test the condition; a taken return pops PC,
    /// three more M-cycles.
    fn ret_cc(&mut self, com: &mut Components, cc: u8)
        requires
            old(self).wf(),
            ready(old(com), 4),
        ensures
            final(self).wf(),
            final(com).wf(),
            final(com).cycle == old(com).cycle + if cond_spec(old(self), cc) { 4int } else { 1int },
            final(com).ram_cells() == old(com).ram_cells(),
            !cond_spec(old(self), cc) ==> *final(self) == *old(self),
            (cond_spec(old(self), cc) && !old(com).ppu.oam_dma_running && stack_in_ram(old(self).sp))
                ==> *final(self) == (CPU {
                pc: popped(old(com).ram_cells(), old(self).sp),
                sp: inc16(inc16(old(self).sp)),
                ..*old(self)
            }),
    {
        let taken = self.cond(cc);
        self.run_cycle(com);
        if taken {
            self.ret(com);
        }
    }

    /// RET: pops PC, then an idle cycle.
    fn ret(&mut self, com: &mut Components)
        requires
            old(self).wf(),
            ready(old(com), 3),
        ensures
            final(self).wf(),
            final(com).wf(),
            final(com).cycle == old(com).cycle + 3,
            final(com).ram_cells() == old(com).ram_cells(),
            old(com).same_memory(&*final(com)),
            !old(com).ppu.oam_dma_running ==> !final(com).ppu.oam_dma_running,
            (!old(com).ppu.oam_dma_running && stack_in_ram(old(self).sp)) ==> *final(self) == (CPU {
                pc: popped(old(com).ram_cells(), old(self).sp),
                sp: inc16(inc16(old(self).sp)),
                ..*old(self)
            }),
    {
        self.pop_r16(com, Reg16::PC);
        self.run_cycle(com);
    }

    /// RST n / CALL: pushes PC and jumps.
    fn call_to(&mut self, com: &mut Components, addr: u16)
        requires
            old(self).wf(),
            ready(old(com), 3),
        ensures
            final(self).wf(),
            final(com).wf(),
            final(com).cycle == old(com).cycle + 3,
            *final(self) == (CPU { sp: dec16(dec16(old(self).sp)), pc: addr, ..*old(self) }),
            final(com).ram_cells() == push_cells(old(com).ram_cells(), old(self).sp, old(self).pc),
    {
        let pc = self.pc;
        self.push_val(com, pc);
        self.pc = addr;
    }
}

/// What a CB-prefixed opcode does to its operand value and F: shifts and
/// rotates (0x00-0x3F), BIT (0x40-0x7F, operand unchanged), RES (0x80-0xBF)
/// and SET (0xC0-0xFF). Bits 3-5 give the kind or the bit number.
pub open spec fn cb_spec(op: u8, v: u8, f: u8) -> (u8, u8) {
    let n = (op / 8) % 8;
    let c = bit8(f, 4);
    if op < 0x40 {
        let (r, out) = shift_spec(n, v, c);
        (r, flags(r == 0, false, false, out))
    } else if op < 0x80 {
        (v, flags(!bit8(v, n), false, true, c))
    } else if op < 0xC0 {
        (v & !((1u8 << n) as u8), f)
    } else {
        (v | ((1u8 << n) as u8), f)
    }
}

impl CPU {
    /// Runs the CB-prefixed opcode that follows the prefix.
    fn handle_cb(&mut self, com: &mut Components)
        requires
            old(self).wf(),
            ready(old(com), 3),
        ensures
            final(self).wf(),
            final(com).wf(),
            old(com).cycle + 1 <= final(com).cycle <= old(com).cycle + 3,
            final(self).pc == inc16(old(self).pc),
            // The opcode byte after the prefix, when bus cycles cannot change it.
            old(com).fixed(old(self).pc) ==> ({
                let op = old(com).peek(old(self).pc);
                let r = reg8_of(op % 8);
                let hl = old(self).r16(Reg16::HL);
                &&& op % 8 != 6 ==> ({
                    let (v, f) = cb_spec(op, old(self).r8(r), old(self).f);
                    &&& *final(self) == (CPU { f, pc: inc16(old(self).pc), ..old(self).with_r8(r, v) })
                    &&& final(com).ram_cells() == old(com).ram_cells()
                    &&& final(com).cycle == old(com).cycle + 1
                })
                &&& (op % 8 == 6 && 0x40 <= op < 0x80) ==> {
                    &&& *final(self) == (CPU {
                        f: cb_spec(op, final(com).read_value(hl), old(self).f).1,
                        pc: inc16(old(self).pc),
                        ..*old(self)
                    })
                    &&& final(com).ram_cells() == old(com).ram_cells()
                    &&& final(com).cycle == old(com).cycle + 2
                }
                &&& (op % 8 == 6 && old(com).fixed(hl)) ==> ({
                    let (v, f) = cb_spec(op, old(com).peek(hl), old(self).f);
                    &&& *final(self) == (CPU { f, pc: inc16(old(self).pc), ..*old(self) })
                    &&& final(com).ram_cells() == if 0x40 <= op < 0x80 {
                        old(com).ram_cells()
                    } else {
                        stored(old(com).ram_cells(), hl, v)
                    }
                    &&& final(com).cycle == old(com).cycle + if 0x40 <= op < 0x80 { 2int } else { 3int }
                })
            }),
    {
        let op = self.fetch8(com);
        proof {
            let hl = old(self).r16(Reg16::HL);
            if old(com).fixed(hl) {
                lemma_fixed_read(&*old(com), com, hl);
            }
        }
        self.cb_op(com, op);
    }

    /// A CB-prefixed opcode on its operand (bits 0-2): a register operand
    /// costs nothing, (HL) a read, and a write unless the opcode is BIT.
    #[verifier::rlimit(40)]
    fn cb_op(&mut self, com: &mut Components, op: u8)
        requires
            old(self).wf(),
            ready(old(com), 2),
        ensures
            final(self).wf(),
            final(com).wf(),
            old(com).cycle <= final(com).cycle <= old(com).cycle + 2,
            op % 8 != 6 ==> *final(com) == *old(com) && ({
                let r = reg8_of(op % 8);
                let (v, f) = cb_spec(op, old(self).r8(r), old(self).f);
                *final(self) == (CPU { f, ..old(self).with_r8(r, v) })
            }),
            final(self).pc == old(self).pc,
            // BIT n, (HL) reads whatever the bus holds there.
            (op % 8 == 6 && 0x40 <= op < 0x80) ==> *final(self) == (CPU {
                f: cb_spec(op, final(com).read_value(old(self).r16(Reg16::HL)), old(self).f).1,
                ..*old(self)
            }) && final(com).ram_cells() == old(com).ram_cells() && final(com).cycle == old(com).cycle
                + 1,
            // On (HL): BIT only reads; the others read and write back.
            (op % 8 == 6 && old(com).fixed(old(self).r16(Reg16::HL))) ==> ({
                let hl = old(self).r16(Reg16::HL);
                let (v, f) = cb_spec(op, old(com).peek(hl), old(self).f);
                &&& *final(self) == (CPU { f, ..*old(self) })
                &&& final(com).ram_cells() == if 0x40 <= op < 0x80 {
                    old(com).ram_cells()
                } else {
                    stored(old(com).ram_cells(), hl, v)
                }
                &&& final(com).cycle == old(com).cycle + if 0x40 <= op < 0x80 { 1int } else { 2int }
            }),
    {
        let r = decode_reg8(op % 8);
        let n = (op / 8) % 8;
        let v = self.read_r8(com, r);
        let c = self.get_c();
        if op < 0x40 {
            let (res, out) = shift(n, v, c);
            self.write_r8(com, r, res);
            self.f = make_flags(res == 0, false, false, out);
        } else if op < 0x80 {
            proof {
                lemma_bit_masks(v);
                assert(n < 8);
            }
            let bit = v & (1u8 << n) != 0;
            assert(bit == bit8(v, n)) by (bit_vector)
                requires
                    n < 8,
                    bit == (v & (1u8 << n) != 0),
            ;
            self.f = make_flags(!bit, false, true, c);
        } else if op < 0xC0 {
            self.write_r8(com, r, v & !(1u8 << n));
        } else {
            self.write_r8(com, r, v | (1u8 << n));
        }
    }

    /// One of the rotates of A (RLCA, RRCA, RLA, RRA): Z is cleared.
    fn rotate_a(&mut self, kind: u8)
        requires
            old(self).wf(),
            kind < 4,
        ensures
            final(self).wf(),
            *final(self) == (CPU {
                a: shift_spec(kind, old(self).a, old(self).cf()).0,
                f: flags(false, false, false, shift_spec(kind, old(self).a, old(self).cf()).1),
                ..*old(self)
            }),
    {
        let c = self.get_c();
        let (r, out) = shift(kind, self.a, c);
        self.a = r;
        self.f = make_flags(false, false, false, out);
    }

    /// Reads a byte; a fixed byte reads as it was before the cycle.
    fn read8(&mut self, com: &mut Components, addr: u16) -> (r: u8)
        requires
            ready(old(com), 1),
        ensures
            *final(self) == *old(self),
            final(com).wf(),
            final(com).cycle == old(com).cycle + 1,
            final(com).ram_cells() == old(com).ram_cells(),
            old(com).same_memory(&*final(com)),
            final(com).interrupt_enable == old(com).interrupt_enable,
            !old(com).ppu.oam_dma_running ==> !final(com).ppu.oam_dma_running,
            r == final(com).read_value(addr),
            old(com).fixed(addr) ==> r == old(com).peek(addr),
    {
        let r = com.read(addr);
        proof {
            if old(com).fixed(addr) {
                lemma_fixed_read(&*old(com), com, addr);
            }
        }
        r
    }

    /// Opcodes 0x00-0x3F in column 0: NOP, LD (nn), SP, STOP, JR and JR cc.
    #[verifier::rlimit(100)]
    fn low_col0(&mut self, com: &mut Components, op: u8)
        requires
            old(self).wf(),
            ready(old(com), 5),
            op == old(self).opcode,
            op < 0x40 && op % 8 == 0,
        ensures
            final(self).wf(),
            final(com).wf(),
            old(com).cycle <= final(com).cycle <= old(com).cycle + 5,
            matches_exec(
                low_col0_spec(*old(self), &*old(com)),
                *final(self),
                final(com).ram_cells(),
                final(com).cycle - old(com).cycle,
            ),
    {
        let row = op / 8;
        if op == 0x00 {
        } else if op == 0x08 {
            let nn = self.fetch16(com);
            com.write(nn, (self.sp % 256) as u8);
            com.write(inc16_exec(nn), (self.sp / 256) as u8);
        } else if op == 0x10 {
            // STOP: the byte after it is skipped.
            self.fetch8(com);
        } else if op == 0x18 {
            let e = self.fetch8(com);
            self.run_cycle(com);
            self.pc = self.rel(e);
        } else {
            self.jr_cc(com, row - 4);
        }
    }

    /// LD rr, nn.
    #[verifier::rlimit(100)]
    fn ld_rr_nn(&mut self, com: &mut Components, op: u8)
        requires
            old(self).wf(),
            ready(old(com), 5),
            op == old(self).opcode,
            op < 0x40 && op % 8 == 1 && (op / 8) % 2 == 0,
        ensures
            final(self).wf(),
            final(com).wf(),
            old(com).cycle <= final(com).cycle <= old(com).cycle + 5,
            matches_exec(
                low_col1_spec(*old(self), &*old(com)),
                *final(self),
                final(com).ram_cells(),
                final(com).cycle - old(com).cycle,
            ),
    {
        let pair = decode_reg16(op / 16, false);
        let nn = self.fetch16(com);
        pair.write(self, nn);
    }

    /// ADD HL, rr.
    #[verifier::rlimit(100)]
    fn add_hl(&mut self, com: &mut Components, op: u8)
        requires
            old(self).wf(),
            ready(old(com), 5),
            op == old(self).opcode,
            op < 0x40 && op % 8 == 1 && (op / 8) % 2 == 1,
        ensures
            final(self).wf(),
            final(com).wf(),
            old(com).cycle <= final(com).cycle <= old(com).cycle + 5,
            matches_exec(
                low_col1_spec(*old(self), &*old(com)),
                *final(self),
                final(com).ram_cells(),
                final(com).cycle - old(com).cycle,
            ),
    {
        let pair = decode_reg16(op / 16, false);
        self.add_hl_r16(com, pair);
    }

    /// Opcodes 0x00-0x3F in column 2: the loads and stores of A through BC, DE, HL+ and HL-.
    #[verifier::rlimit(100)]
    fn low_col2(&mut self, com: &mut Components, op: u8)
        requires
            old(self).wf(),
            ready(old(com), 5),
            op == old(self).opcode,
            op < 0x40 && op % 8 == 2,
        ensures
            final(self).wf(),
            final(com).wf(),
            old(com).cycle <= final(com).cycle <= old(com).cycle + 5,
            matches_exec(
                low_col2_spec(*old(self), &*old(com)),
                *final(self),
                final(com).ram_cells(),
                final(com).cycle - old(com).cycle,
            ),
            is_bus_load(*old(self), &*old(com)) ==> bus_load_spec(
                *old(self),
                &*old(com),
                *final(self),
                final(com).cycle - old(com).cycle,
            ) && final(com).ram_cells() == old(com).ram_cells(),
    {
        let addr = if op / 16 == 0 {
            Reg16::BC.read(self)
        } else if op / 16 == 1 {
            Reg16::DE.read(self)
        } else {
            Reg16::HL.read(self)
        };
        if (op / 8) % 2 == 0 {
            com.write(addr, self.a);
        } else {
            self.a = self.read8(com, addr);
        }
        if op / 16 == 2 {
            Reg16::HL.write(self, inc16_exec(addr));
        } else if op / 16 == 3 {
            Reg16::HL.write(self, dec16_exec(addr));
        }
    }

    /// INC rr and DEC rr.
    #[verifier::rlimit(100)]
    fn inc_dec_rr(&mut self, com: &mut Components, op: u8)
        requires
            old(self).wf(),
            ready(old(com), 5),
            op == old(self).opcode,
            op < 0x40 && op % 8 == 3,
        ensures
            final(self).wf(),
            final(com).wf(),
            old(com).cycle <= final(com).cycle <= old(com).cycle + 5,
            matches_exec(
                low_col36_spec(*old(self), &*old(com)),
                *final(self),
                final(com).ram_cells(),
                final(com).cycle - old(com).cycle,
            ),
    {
        let pair = decode_reg16(op / 16, false);
        self.inc_dec_r16(com, pair, (op / 8) % 2 == 1);
    }

    /// INC r and DEC r.
    #[verifier::rlimit(100)]
    fn inc_dec_r(&mut self, com: &mut Components, op: u8)
        requires
            old(self).wf(),
            ready(old(com), 5),
            op == old(self).opcode,
            op < 0x40 && (op % 8 == 4 || op % 8 == 5),
        ensures
            final(self).wf(),
            final(com).wf(),
            old(com).cycle <= final(com).cycle <= old(com).cycle + 5,
            matches_exec(
                low_col36_spec(*old(self), &*old(com)),
                *final(self),
                final(com).ram_cells(),
                final(com).cycle - old(com).cycle,
            ),
    {
        self.inc_dec_r8(com, decode_reg8(op / 8), op % 8 == 5);
    }

    /// LD r, n.
    #[verifier::rlimit(100)]
    fn ld_r_n(&mut self, com: &mut Components, op: u8)
        requires
            old(self).wf(),
            ready(old(com), 5),
            op == old(self).opcode,
            op < 0x40 && op % 8 == 6,
        ensures
            final(self).wf(),
            final(com).wf(),
            old(com).cycle <= final(com).cycle <= old(com).cycle + 5,
            matches_exec(
                low_col36_spec(*old(self), &*old(com)),
                *final(self),
                final(com).ram_cells(),
                final(com).cycle - old(com).cycle,
            ),
    {
        let n = self.fetch8(com);
        self.write_r8(com, decode_reg8(op / 8), n);
    }

    /// Opcodes 0x00-0x3F in column 7: the rotates of A, DAA, CPL, SCF and CCF.
    #[verifier::rlimit(100)]
    fn low_col7(&mut self, com: &mut Components, op: u8)
        requires
            old(self).wf(),
            ready(old(com), 5),
            op == old(self).opcode,
            op < 0x40 && op % 8 == 7,
        ensures
            final(self).wf(),
            final(com).wf(),
            old(com).cycle <= final(com).cycle <= old(com).cycle + 5,
            matches_exec(
                low_col7_spec(*old(self), &*old(com)),
                *final(self),
                final(com).ram_cells(),
                final(com).cycle - old(com).cycle,
            ),
    {
        let row = op / 8;
        if row < 4 {
            self.rotate_a(row);
        } else if row == 4 {
            let (r, f) = daa(self.a, self.f);
            self.a = r;
            self.f = f;
        } else if row == 5 {
            self.a = !self.a;
            let z = self.get_z();
            let c = self.get_c();
            self.f = make_flags(z, true, true, c);
        } else if row == 6 {
            let z = self.get_z();
            self.f = make_flags(z, false, false, true);
        } else {
            let z = self.get_z();
            let c = self.get_c();
            self.f = make_flags(z, false, false, !c);
        }
    }

    /// LD r, r' (0x40-0x7F but HALT).
    #[verifier::rlimit(100)]
    fn ld_r_r(&mut self, com: &mut Components, op: u8)
        requires
            old(self).wf(),
            ready(old(com), 5),
            op == old(self).opcode,
            0x40 <= op < 0x80 && op != 0x76,
        ensures
            final(self).wf(),
            final(com).wf(),
            old(com).cycle <= final(com).cycle <= old(com).cycle + 5,
            matches_exec(
                mid_spec(*old(self), &*old(com)),
                *final(self),
                final(com).ram_cells(),
                final(com).cycle - old(com).cycle,
            ),
            is_bus_load(*old(self), &*old(com)) ==> bus_load_spec(
                *old(self),
                &*old(com),
                *final(self),
                final(com).cycle - old(com).cycle,
            ) && final(com).ram_cells() == old(com).ram_cells(),
    {
        self.ld_r8_r8(com, decode_reg8((op / 8) % 8), decode_reg8(op % 8));
    }

    /// The accumulator operations on an operand (0x80-0xBF).
    #[verifier::rlimit(100)]
    fn alu_r(&mut self, com: &mut Components, op: u8)
        requires
            old(self).wf(),
            ready(old(com), 5),
            op == old(self).opcode,
            0x80 <= op < 0xC0,
        ensures
            final(self).wf(),
            final(com).wf(),
            old(com).cycle <= final(com).cycle <= old(com).cycle + 5,
            matches_exec(
                mid_spec(*old(self), &*old(com)),
                *final(self),
                final(com).ram_cells(),
                final(com).cycle - old(com).cycle,
            ),
            is_bus_load(*old(self), &*old(com)) ==> bus_load_spec(
                *old(self),
                &*old(com),
                *final(self),
                final(com).cycle - old(com).cycle,
            ) && final(com).ram_cells() == old(com).ram_cells(),
    {
        let v = self.read_r8(com, decode_reg8(op % 8));
        self.alu_a((op / 8) % 8, v);
        proof {
            assert((self.a, self.f) == alu_spec((op / 8) % 8, old(self).a, v, old(self).cf()));
        }
    }

    /// RET cc.
    #[verifier::rlimit(100)]
    fn ret_cc_op(&mut self, com: &mut Components, op: u8)
        requires
            old(self).wf(),
            ready(old(com), 5),
            op == old(self).opcode,
            op >= 0xC0 && op % 8 == 0 && (op / 8) % 8 < 4,
        ensures
            final(self).wf(),
            final(com).wf(),
            old(com).cycle <= final(com).cycle <= old(com).cycle + 5,
            matches_exec(
                high_col0_spec(*old(self), &*old(com)),
                *final(self),
                final(com).ram_cells(),
                final(com).cycle - old(com).cycle,
            ),
    {
        self.ret_cc(com, (op / 8) % 8);
    }

    /// LDH (n), A.
    #[verifier::rlimit(100)]
    fn ldh_n_a(&mut self, com: &mut Components, op: u8)
        requires
            old(self).wf(),
            ready(old(com), 5),
            op == old(self).opcode,
            op >= 0xC0 && op % 8 == 0 && (op / 8) % 8 == 4,
        ensures
            final(self).wf(),
            final(com).wf(),
            old(com).cycle <= final(com).cycle <= old(com).cycle + 5,
            matches_exec(
                high_col0_spec(*old(self), &*old(com)),
                *final(self),
                final(com).ram_cells(),
                final(com).cycle - old(com).cycle,
            ),
    {
        let n = self.fetch8(com);
        com.write(0xFF00 + n as u16, self.a);
    }

    /// ADD SP, e.
    #[verifier::rlimit(100)]
    fn add_sp_e(&mut self, com: &mut Components, op: u8)
        requires
            old(self).wf(),
            ready(old(com), 5),
            op == old(self).opcode,
            op >= 0xC0 && op % 8 == 0 && (op / 8) % 8 == 5,
        ensures
            final(self).wf(),
            final(com).wf(),
            old(com).cycle <= final(com).cycle <= old(com).cycle + 5,
            matches_exec(
                high_col0_spec(*old(self), &*old(com)),
                *final(self),
                final(com).ram_cells(),
                final(com).cycle - old(com).cycle,
            ),
    {
        let e = self.fetch8(com);
        let (r, f) = add_sp(self.sp, e);
        self.sp = r;
        self.f = f;
        self.run_cycle(com);
        self.run_cycle(com);
    }

    /// LDH A, (n).
    #[verifier::rlimit(100)]
    fn ldh_a_n(&mut self, com: &mut Components, op: u8)
        requires
            old(self).wf(),
            ready(old(com), 5),
            op == old(self).opcode,
            op >= 0xC0 && op % 8 == 0 && (op / 8) % 8 == 6,
        ensures
            final(self).wf(),
            final(com).wf(),
            old(com).cycle <= final(com).cycle <= old(com).cycle + 5,
            matches_exec(
                high_col0_spec(*old(self), &*old(com)),
                *final(self),
                final(com).ram_cells(),
                final(com).cycle - old(com).cycle,
            ),
            is_bus_load(*old(self), &*old(com)) ==> bus_load_spec(
                *old(self),
                &*old(com),
                *final(self),
                final(com).cycle - old(com).cycle,
            ) && final(com).ram_cells() == old(com).ram_cells(),
    {
        let n = self.fetch8(com);
        proof {
            let a = (0xFF00 + n) as u16;
            if old(com).fixed(a) {
                lemma_fixed_read(&*old(com), com, a);
            }
        }
        self.a = self.read8(com, 0xFF00 + n as u16);
    }

    /// LD HL, SP+e.
    #[verifier::rlimit(100)]
    fn ld_hl_sp_e(&mut self, com: &mut Components, op: u8)
        requires
            old(self).wf(),
            ready(old(com), 5),
            op == old(self).opcode,
            op >= 0xC0 && op % 8 == 0 && (op / 8) % 8 == 7,
        ensures
            final(self).wf(),
            final(com).wf(),
            old(com).cycle <= final(com).cycle <= old(com).cycle + 5,
            matches_exec(
                high_col0_spec(*old(self), &*old(com)),
                *final(self),
                final(com).ram_cells(),
                final(com).cycle - old(com).cycle,
            ),
    {
        let e = self.fetch8(com);
        let (r, f) = add_sp(self.sp, e);
        Reg16::HL.write(self, r);
        self.f = f;
        self.run_cycle(com);
    }

    /// Opcodes 0xC0-0xFF in column 1: POP, RET, RETI, JP HL and LD SP, HL.
    #[verifier::rlimit(100)]
    fn high_col1(&mut self, com: &mut Components, op: u8)
        requires
            old(self).wf(),
            ready(old(com), 5),
            op == old(self).opcode,
            op >= 0xC0 && op % 8 == 1,
        ensures
            final(self).wf(),
            final(com).wf(),
            old(com).cycle <= final(com).cycle <= old(com).cycle + 5,
            matches_exec(
                high_col1_spec(*old(self), &*old(com)),
                *final(self),
                final(com).ram_cells(),
                final(com).cycle - old(com).cycle,
            ),
    {
        let row = (op / 8) % 8;
        if row % 2 == 0 {
            self.pop_r16(com, decode_reg16(row / 2, true));
        } else if row == 1 {
            self.ret(com);
        } else if row == 3 {
            // RETI
            self.ret(com);
            self.ime = true;
        } else if row == 5 {
            self.pc = Reg16::HL.read(self);
        } else {
            self.run_cycle(com);
            self.sp = Reg16::HL.read(self);
        }
    }

    /// Opcodes 0xC0-0xFF in column 2: JP cc and the loads and stores of A through (C) and (nn).
    #[verifier::rlimit(100)]
    fn high_col2(&mut self, com: &mut Components, op: u8)
        requires
            old(self).wf(),
            ready(old(com), 5),
            op == old(self).opcode,
            op >= 0xC0 && op % 8 == 2,
        ensures
            final(self).wf(),
            final(com).wf(),
            old(com).cycle <= final(com).cycle <= old(com).cycle + 5,
            matches_exec(
                high_col2_spec(*old(self), &*old(com)),
                *final(self),
                final(com).ram_cells(),
                final(com).cycle - old(com).cycle,
            ),
            is_bus_load(*old(self), &*old(com)) ==> bus_load_spec(
                *old(self),
                &*old(com),
                *final(self),
                final(com).cycle - old(com).cycle,
            ) && final(com).ram_cells() == old(com).ram_cells(),
    {
        let row = (op / 8) % 8;
        if row < 4 {
            self.jp_cc(com, row);
        } else if row == 4 {
            com.write(0xFF00 + self.c as u16, self.a);
        } else if row == 5 {
            let nn = self.fetch16(com);
            com.write(nn, self.a);
        } else if row == 6 {
            self.a = self.read8(com, 0xFF00 + self.c as u16);
        } else {
            let nn = self.fetch16(com);
            proof {
                if old(com).fixed(nn) {
                    lemma_fixed_read(&*old(com), com, nn);
                }
            }
            self.a = self.read8(com, nn);
        }
    }

    /// Opcodes 0xC0-0xFF in column 3: JP, the CB prefix, DI, EI; the other four are unused and do nothing.
    #[verifier::rlimit(100)]
    fn high_col3(&mut self, com: &mut Components, op: u8)
        requires
            old(self).wf(),
            ready(old(com), 5),
            op == old(self).opcode,
            op >= 0xC0 && op % 8 == 3,
        ensures
            final(self).wf(),
            final(com).wf(),
            old(com).cycle <= final(com).cycle <= old(com).cycle + 5,
            matches_exec(
                high_col3_spec(*old(self), &*old(com)),
                *final(self),
                final(com).ram_cells(),
                final(com).cycle - old(com).cycle,
            ),
            is_bus_load(*old(self), &*old(com)) ==> bus_load_spec(
                *old(self),
                &*old(com),
                *final(self),
                final(com).cycle - old(com).cycle,
            ) && final(com).ram_cells() == old(com).ram_cells(),
    {
        if op == 0xC3 {
            let nn = self.fetch16(com);
            self.run_cycle(com);
            self.pc = nn;
        } else if op == 0xCB {
            self.handle_cb(com);
        } else if op == 0xF3 {
            self.ime_queued = false;
            self.ime = false;
        } else if op == 0xFB {
            // EI takes effect after the next instruction.
            self.ime_queued = true;
        }
    }

    /// CALL cc, nn, and the unused opcodes of column 4.
    #[verifier::rlimit(100)]
    fn call_cc_op(&mut self, com: &mut Components, op: u8)
        requires
            old(self).wf(),
            ready(old(com), 5),
            op == old(self).opcode,
            op >= 0xC0 && op % 8 == 4,
        ensures
            final(self).wf(),
            final(com).wf(),
            old(com).cycle <= final(com).cycle <= old(com).cycle + 5,
            matches_exec(
                high_b_spec(*old(self), &*old(com)),
                *final(self),
                final(com).ram_cells(),
                final(com).cycle - old(com).cycle,
            ),
    {
        let row = (op / 8) % 8;
        if row < 4 {
            self.call_cc(com, row);
        }
    }

    /// PUSH rr, CALL nn, and the unused opcodes of column 5.
    #[verifier::rlimit(100)]
    fn push_call(&mut self, com: &mut Components, op: u8)
        requires
            old(self).wf(),
            ready(old(com), 5),
            op == old(self).opcode,
            op >= 0xC0 && op % 8 == 5,
        ensures
            final(self).wf(),
            final(com).wf(),
            old(com).cycle <= final(com).cycle <= old(com).cycle + 5,
            matches_exec(
                high_b_spec(*old(self), &*old(com)),
                *final(self),
                final(com).ram_cells(),
                final(com).cycle - old(com).cycle,
            ),
    {
        let row = (op / 8) % 8;
        if row % 2 == 0 {
            self.push_r16(com, decode_reg16(row / 2, true));
        } else if op == 0xCD {
            let nn = self.fetch16(com);
            self.call_to(com, nn);
        }
    }

    /// The accumulator operations on an immediate.
    #[verifier::rlimit(100)]
    fn alu_n(&mut self, com: &mut Components, op: u8)
        requires
            old(self).wf(),
            ready(old(com), 5),
            op == old(self).opcode,
            op >= 0xC0 && op % 8 == 6,
        ensures
            final(self).wf(),
            final(com).wf(),
            old(com).cycle <= final(com).cycle <= old(com).cycle + 5,
            matches_exec(
                high_b_spec(*old(self), &*old(com)),
                *final(self),
                final(com).ram_cells(),
                final(com).cycle - old(com).cycle,
            ),
    {
        let n = self.fetch8(com);
        self.alu_a((op / 8) % 8, n);
    }

    /// RST n.
    #[verifier::rlimit(100)]
    fn rst(&mut self, com: &mut Components, op: u8)
        requires
            old(self).wf(),
            ready(old(com), 5),
            op == old(self).opcode,
            op >= 0xC0 && op % 8 == 7,
        ensures
            final(self).wf(),
            final(com).wf(),
            old(com).cycle <= final(com).cycle <= old(com).cycle + 5,
            matches_exec(
                high_b_spec(*old(self), &*old(com)),
                *final(self),
                final(com).ram_cells(),
                final(com).cycle - old(com).cycle,
            ),
    {
        self.call_to(com, (op - 0xC7) as u16);
    }

    /// Executes the prefetched opcode, HALT aside (not its successor's prefetch).
    #[verifier::rlimit(100)]
    fn execute(&mut self, com: &mut Components)
        requires
            old(self).wf(),
            ready(old(com), 5),
            old(self).opcode != 0x76,
        ensures
            final(self).wf(),
            final(com).wf(),
            old(com).cycle <= final(com).cycle <= old(com).cycle + 5,
            executed_as(
                *old(self),
                &*old(com),
                *final(self),
                final(com).ram_cells(),
                final(com).cycle - old(com).cycle,
            ),
            is_bus_load(*old(self), &*old(com)) ==> bus_load_spec(
                *old(self),
                &*old(com),
                *final(self),
                final(com).cycle - old(com).cycle,
            ) && final(com).ram_cells() == old(com).ram_cells(),
    {
        let op = self.opcode;
        if op < 0x40 {
            let col = op % 8;
            if col == 0 {
                self.low_col0(com, op);
            } else if col == 1 && (op / 8) % 2 == 0 {
                self.ld_rr_nn(com, op);
            } else if col == 1 {
                self.add_hl(com, op);
            } else if col == 2 {
                self.low_col2(com, op);
            } else if col == 3 {
                self.inc_dec_rr(com, op);
            } else if col <= 5 {
                self.inc_dec_r(com, op);
            } else if col == 6 {
                self.ld_r_n(com, op);
            } else {
                self.low_col7(com, op);
            }
        } else if op < 0x80 {
            self.ld_r_r(com, op);
        } else if op < 0xC0 {
            self.alu_r(com, op);
        } else {
            let col = op % 8;
            if col == 0 && (op / 8) % 8 < 4 {
                self.ret_cc_op(com, op);
            } else if col == 0 {
                let row = (op / 8) % 8;
                if row == 4 {
                    self.ldh_n_a(com, op);
                } else if row == 5 {
                    self.add_sp_e(com, op);
                } else if row == 6 {
                    self.ldh_a_n(com, op);
                } else {
                    self.ld_hl_sp_e(com, op);
                }
            } else if col == 1 {
                self.high_col1(com, op);
            } else if col == 2 {
                self.high_col2(com, op);
            } else if col == 3 {
                self.high_col3(com, op);
            } else if col == 4 {
                self.call_cc_op(com, op);
            } else if col == 5 {
                self.push_call(com, op);
            } else if col == 6 {
                self.alu_n(com, op);
            } else {
                self.rst(com, op);
            }
        }
    }
}

/// The lowest requested interrupt among the five sources.
pub open spec fn lowest_interrupt(pending: u8) -> u8 {
    if pending & 1 != 0 {
        0
    } else if pending & 2 != 0 {
        1
    } else if pending & 4 != 0 {
        2
    } else if pending & 8 != 0 {
        3
    } else {
        4
    }
}

/// Whether `op` is LD r, r' or an accumulator operation between registers.
pub open spec fn is_register_op(op: u8) -> bool {
    &&& 0x40 <= op < 0xC0
    &&& op != 0x76
    &&& op % 8 != 6
    &&& op < 0x80 ==> (op / 8) % 8 != 6
}

/// The register file after LD r, r' (0x40-0x7F) or an accumulator
/// operation (0x80-0xBF) between registers.
pub open spec fn register_op(s: CPU, op: u8) -> CPU {
    if op < 0x80 {
        s.with_r8(reg8_of((op / 8) % 8), s.r8(reg8_of(op % 8)))
    } else {
        let (a, f) = alu_spec((op / 8) % 8, s.a, s.r8(reg8_of(op % 8)), s.cf());
        CPU { a, f, ..s }
    }
}


/// The byte and the little-endian word that follow the opcode.
pub open spec fn operand8(s: CPU, c: &Components) -> u8 {
    c.peek(s.pc)
}

pub open spec fn operand16(s: CPU, c: &Components) -> u16 {
    join16(c.peek(inc16(s.pc)), c.peek(s.pc))
}

/// Whether the one or two operand bytes are fixed.
pub open spec fn fixed8(s: CPU, c: &Components) -> bool {
    c.fixed(s.pc)
}

pub open spec fn fixed16(s: CPU, c: &Components) -> bool {
    c.fixed(s.pc) && c.fixed(inc16(s.pc))
}

/// Whether a result of the opcode specifications below, if there is one, is
/// the register file, RAM cells and M-cycles given.
pub open spec fn matches_exec(
    spec: Option<(CPU, Seq<u8>, int)>,
    post: CPU,
    post_cells: Seq<u8>,
    cycles: int,
) -> bool {
    spec matches Some((t, cells, k)) ==> post == t && post_cells == cells && cycles == k
}

// Each of the functions below gives what a group of opcodes does where the
// result is determined by the register file and RAM: the register file
// before the next prefetch, the RAM cells, and the M-cycles taken; `None`
// where an operand sits where bus cycles may change it (I/O, VRAM, OAM, or
// anything while OAM DMA runs), or where a stack slot is not RAM.

/// Column 0 of 0x00-0x3F: NOP, LD (nn), SP, STOP, JR, JR cc.
pub open spec fn low_col0_spec(s: CPU, c: &Components) -> Option<(CPU, Seq<u8>, int)> {
    let op = s.opcode;
    let cells = c.ram_cells();
    let n = operand8(s, c);
    let nn = operand16(s, c);
    let pc1 = inc16(s.pc);
    let pc2 = inc16(pc1);
    if op == 0x00 {
        Some((s, cells, 0))
    } else if op == 0x08 {
        if fixed16(s, c) {
            Some((CPU { pc: pc2, ..s }, stored(stored(cells, nn, lo8(s.sp)), inc16(nn), hi8(s.sp)), 4))
        } else {
            None
        }
    } else if op == 0x10 {
        Some((CPU { pc: pc1, ..s }, cells, 1))
    } else if !fixed8(s, c) {
        None
    } else if op == 0x18 || cond_spec(&s, (op / 8 - 4) as u8) {
        Some((CPU { pc: jump_rel(pc1, n), ..s }, cells, 2))
    } else {
        Some((CPU { pc: pc1, ..s }, cells, 1))
    }
}

/// Column 1 of 0x00-0x3F: LD rr, nn and ADD HL, rr.
pub open spec fn low_col1_spec(s: CPU, c: &Components) -> Option<(CPU, Seq<u8>, int)> {
    let op = s.opcode;
    let cells = c.ram_cells();
    let pair = reg16_of(op / 16, false);
    if (op / 8) % 2 == 0 {
        if fixed16(s, c) {
            Some((CPU { pc: inc16(inc16(s.pc)), ..s }.with_r16(pair, operand16(s, c)), cells, 2))
        } else {
            None
        }
    } else {
        let (v, f) = add16_spec(s.r16(Reg16::HL), s.r16(pair), s.zf());
        Some((CPU { f, ..s.with_r16(Reg16::HL, v) }, cells, 1))
    }
}

/// Column 2 of 0x00-0x3F: LD (rr), A and LD A, (rr) through BC, DE, HL+, HL-.
pub open spec fn low_col2_spec(s: CPU, c: &Components) -> Option<(CPU, Seq<u8>, int)> {
    let op = s.opcode;
    let cells = c.ram_cells();
    let addr = if op / 16 == 0 {
        s.r16(Reg16::BC)
    } else if op / 16 == 1 {
        s.r16(Reg16::DE)
    } else {
        s.r16(Reg16::HL)
    };
    let s1 = if op / 16 == 2 {
        s.with_r16(Reg16::HL, inc16(addr))
    } else if op / 16 == 3 {
        s.with_r16(Reg16::HL, dec16(addr))
    } else {
        s
    };
    if (op / 8) % 2 == 0 {
        Some((s1, stored(cells, addr, s.a), 1))
    } else if c.fixed(addr) {
        Some((CPU { a: c.peek(addr), ..s1 }, cells, 1))
    } else {
        None
    }
}

/// Columns 3-6 of 0x00-0x3F: INC/DEC rr, INC/DEC r, LD r, n.
pub open spec fn low_col36_spec(s: CPU, c: &Components) -> Option<(CPU, Seq<u8>, int)> {
    let op = s.opcode;
    let cells = c.ram_cells();
    let col = op % 8;
    let row = op / 8;
    let pair = reg16_of(op / 16, false);
    let n = operand8(s, c);
    if col == 3 {
        Some((s.with_r16(pair, if row % 2 == 1 { dec16(s.r16(pair)) } else { inc16(s.r16(pair)) }), cells, 1))
    } else if col == 4 || col == 5 {
        if row == 6 {
            let hl = s.r16(Reg16::HL);
            let (v, f) = if col == 5 { dec8_spec(c.peek(hl), s.cf()) } else { inc8_spec(c.peek(hl), s.cf()) };
            if c.fixed(hl) {
                Some((CPU { f, ..s }, stored(cells, hl, v), 2))
            } else {
                None
            }
        } else {
            let r = reg8_of(row);
            let (v, f) = if col == 5 { dec8_spec(s.r8(r), s.cf()) } else { inc8_spec(s.r8(r), s.cf()) };
            Some((CPU { f, ..s.with_r8(r, v) }, cells, 0))
        }
    } else if !fixed8(s, c) {
        None
    } else if row == 6 {
        Some((CPU { pc: inc16(s.pc), ..s }, stored(cells, s.r16(Reg16::HL), n), 2))
    } else {
        Some((CPU { pc: inc16(s.pc), ..s }.with_r8(reg8_of(row), n), cells, 1))
    }
}

/// Column 7 of 0x00-0x3F: RLCA, RRCA, RLA, RRA, DAA, CPL, SCF, CCF.
pub open spec fn low_col7_spec(s: CPU, c: &Components) -> Option<(CPU, Seq<u8>, int)> {
    let op = s.opcode;
    let cells = c.ram_cells();
    let row = op / 8;
    if row < 4 {
        let (v, out) = shift_spec(row, s.a, s.cf());
        Some((CPU { a: v, f: flags(false, false, false, out), ..s }, cells, 0))
    } else if row == 4 {
        let (v, f) = daa_spec(s.a, s.f);
        Some((CPU { a: v, f, ..s }, cells, 0))
    } else if row == 5 {
        Some((CPU { a: !s.a, f: flags(s.zf(), true, true, s.cf()), ..s }, cells, 0))
    } else if row == 6 {
        Some((CPU { f: flags(s.zf(), false, false, true), ..s }, cells, 0))
    } else {
        Some((CPU { f: flags(s.zf(), false, false, !s.cf()), ..s }, cells, 0))
    }
}

/// 0x40-0xBF but HALT: LD r, r' and the accumulator operations, with (HL)
/// as a destination or as a fixed source.
pub open spec fn mid_spec(s: CPU, c: &Components) -> Option<(CPU, Seq<u8>, int)> {
    let op = s.opcode;
    let cells = c.ram_cells();
    let hl = s.r16(Reg16::HL);
    let src = reg8_of(op % 8);
    let dst = reg8_of((op / 8) % 8);
    if is_register_op(op) {
        Some((register_op(s, op), cells, 0))
    } else if op < 0x80 && dst == Reg8::HLPtr {
        Some((s, stored(cells, hl, s.r8(src)), 1))
    } else if !c.fixed(hl) {
        None
    } else if op < 0x80 {
        Some((s.with_r8(dst, c.peek(hl)), cells, 1))
    } else {
        let (a, f) = alu_spec((op / 8) % 8, s.a, c.peek(hl), s.cf());
        Some((CPU { a, f, ..s }, cells, 1))
    }
}

/// Column 0 of 0xC0-0xFF: RET cc, LDH (n), A, ADD SP, e, LDH A, (n),
/// LD HL, SP+e.
pub open spec fn high_col0_spec(s: CPU, c: &Components) -> Option<(CPU, Seq<u8>, int)> {
    let op = s.opcode;
    let cells = c.ram_cells();
    let row = (op / 8) % 8;
    let n = operand8(s, c);
    let pc1 = inc16(s.pc);
    if row < 4 {
        if !cond_spec(&s, row) {
            Some((s, cells, 1))
        } else if !c.ppu.oam_dma_running && stack_in_ram(s.sp) {
            Some((CPU { pc: popped(cells, s.sp), sp: inc16(inc16(s.sp)), ..s }, cells, 4))
        } else {
            None
        }
    } else if !fixed8(s, c) {
        None
    } else if row == 4 {
        Some((CPU { pc: pc1, ..s }, stored(cells, (0xFF00 + n) as u16, s.a), 2))
    } else if row == 5 {
        let (v, f) = add_sp_spec(s.sp, n);
        Some((CPU { sp: v, f, pc: pc1, ..s }, cells, 3))
    } else if row == 6 {
        let a = (0xFF00 + n) as u16;
        if c.fixed(a) {
            Some((CPU { a: c.peek(a), pc: pc1, ..s }, cells, 2))
        } else {
            None
        }
    } else {
        let (v, f) = add_sp_spec(s.sp, n);
        Some((CPU { f, ..CPU { pc: pc1, ..s }.with_r16(Reg16::HL, v) }, cells, 2))
    }
}

/// Column 1 of 0xC0-0xFF: POP, RET, RETI, JP HL, LD SP, HL.
pub open spec fn high_col1_spec(s: CPU, c: &Components) -> Option<(CPU, Seq<u8>, int)> {
    let op = s.opcode;
    let cells = c.ram_cells();
    let row = (op / 8) % 8;
    let stack = !c.ppu.oam_dma_running && stack_in_ram(s.sp);
    let popped_pc = CPU { pc: popped(cells, s.sp), sp: inc16(inc16(s.sp)), ..s };
    if row % 2 == 0 {
        if stack {
            Some((CPU { sp: inc16(inc16(s.sp)), ..s }.with_r16(reg16_of(row / 2, true), popped(cells, s.sp)), cells, 2))
        } else {
            None
        }
    } else if row == 1 || row == 3 {
        if stack {
            Some((CPU { ime: if row == 3 { true } else { s.ime }, ..popped_pc }, cells, 3))
        } else {
            None
        }
    } else if row == 5 {
        Some((CPU { pc: s.r16(Reg16::HL), ..s }, cells, 0))
    } else {
        Some((CPU { sp: s.r16(Reg16::HL), ..s }, cells, 1))
    }
}

/// Column 2 of 0xC0-0xFF: JP cc, LD (C), A, LD (nn), A, LD A, (C), LD A, (nn).
pub open spec fn high_col2_spec(s: CPU, c: &Components) -> Option<(CPU, Seq<u8>, int)> {
    let op = s.opcode;
    let cells = c.ram_cells();
    let row = (op / 8) % 8;
    let nn = operand16(s, c);
    let pc2 = inc16(inc16(s.pc));
    if row == 4 {
        Some((s, stored(cells, (0xFF00 + s.c) as u16, s.a), 1))
    } else if row == 6 {
        let a = (0xFF00 + s.c) as u16;
        if c.fixed(a) {
            Some((CPU { a: c.peek(a), ..s }, cells, 1))
        } else {
            None
        }
    } else if !fixed16(s, c) {
        None
    } else if row < 4 {
        if cond_spec(&s, row) {
            Some((CPU { pc: nn, ..s }, cells, 3))
        } else {
            Some((CPU { pc: pc2, ..s }, cells, 2))
        }
    } else if row == 5 {
        Some((CPU { pc: pc2, ..s }, stored(cells, nn, s.a), 3))
    } else if c.fixed(nn) {
        Some((CPU { a: c.peek(nn), pc: pc2, ..s }, cells, 3))
    } else {
        None
    }
}

/// Column 3 of 0xC0-0xFF: JP nn, CB-prefixed opcodes, DI, EI;
/// the four unused opcodes do nothing.
pub open spec fn high_col3_spec(s: CPU, c: &Components) -> Option<(CPU, Seq<u8>, int)> {
    let op = s.opcode;
    let cells = c.ram_cells();
    let n = operand8(s, c);
    if op == 0xC3 {
        if fixed16(s, c) {
            Some((CPU { pc: operand16(s, c), ..s }, cells, 3))
        } else {
            None
        }
    } else if op == 0xCB {
        let hl = s.r16(Reg16::HL);
        if fixed8(s, c) && n % 8 != 6 {
            let r = reg8_of(n % 8);
            let (v, f) = cb_spec(n, s.r8(r), s.f);
            Some((CPU { f, pc: inc16(s.pc), ..s.with_r8(r, v) }, cells, 1))
        } else if fixed8(s, c) && c.fixed(hl) {
            let (v, f) = cb_spec(n, c.peek(hl), s.f);
            if 0x40 <= n < 0x80 {
                Some((CPU { f, pc: inc16(s.pc), ..s }, cells, 2))
            } else {
                Some((CPU { f, pc: inc16(s.pc), ..s }, stored(cells, hl, v), 3))
            }
        } else {
            None
        }
    } else if op == 0xF3 {
        Some((CPU { ime: false, ime_queued: false, ..s }, cells, 0))
    } else if op == 0xFB {
        Some((CPU { ime_queued: true, ..s }, cells, 0))
    } else {
        Some((s, cells, 0))
    }
}

/// Columns 4-7 of 0xC0-0xFF: CALL cc, PUSH, CALL, the accumulator operations
/// on an immediate, RST; the unused opcodes do nothing.
pub open spec fn high_b_spec(s: CPU, c: &Components) -> Option<(CPU, Seq<u8>, int)> {
    let op = s.opcode;
    let cells = c.ram_cells();
    let col = op % 8;
    let row = (op / 8) % 8;
    let nn = operand16(s, c);
    let pc2 = inc16(inc16(s.pc));
    let dd = dec16(dec16(s.sp));
    if col == 4 && row < 4 {
        if !fixed16(s, c) {
            None
        } else if cond_spec(&s, row) {
            Some((CPU { pc: nn, sp: dd, ..s }, push_cells(cells, s.sp, pc2), 5))
        } else {
            Some((CPU { pc: pc2, ..s }, cells, 2))
        }
    } else if col == 5 && row % 2 == 0 {
        Some((CPU { sp: dd, ..s }, push_cells(cells, s.sp, s.r16(reg16_of(row / 2, true))), 3))
    } else if op == 0xCD {
        if fixed16(s, c) {
            Some((CPU { pc: nn, sp: dd, ..s }, push_cells(cells, s.sp, pc2), 5))
        } else {
            None
        }
    } else if col == 6 {
        if fixed8(s, c) {
            let (a, f) = alu_spec(row, s.a, operand8(s, c), s.cf());
            Some((CPU { a, f, pc: inc16(s.pc), ..s }, cells, 1))
        } else {
            None
        }
    } else if col == 7 {
        Some((CPU { pc: (op - 0xC7) as u16, sp: dd, ..s }, push_cells(cells, s.sp, s.pc), 3))
    } else {
        Some((s, cells, 0))
    }
}

/// The effect of executing the prefetched opcode `s.opcode` with the bus in
/// state `c`, where it is determined.
pub open spec fn exec_spec(s: CPU, c: &Components) -> Option<(CPU, Seq<u8>, int)> {
    let op = s.opcode;
    let col = op % 8;
    if op == 0x76 {
        None
    } else if op < 0x40 {
        if col == 0 {
            low_col0_spec(s, c)
        } else if col == 1 {
            low_col1_spec(s, c)
        } else if col == 2 {
            low_col2_spec(s, c)
        } else if col <= 6 {
            low_col36_spec(s, c)
        } else {
            low_col7_spec(s, c)
        }
    } else if op < 0xC0 {
        mid_spec(s, c)
    } else if col == 0 {
        high_col0_spec(s, c)
    } else if col == 1 {
        high_col1_spec(s, c)
    } else if col == 2 {
        high_col2_spec(s, c)
    } else if col == 3 {
        high_col3_spec(s, c)
    } else {
        high_b_spec(s, c)
    }
}

/// Whether `post` is what `exec_spec` gives for `(s, c)`.
pub open spec fn executed_as(s: CPU, c: &Components, post: CPU, post_cells: Seq<u8>, cycles: int) -> bool {
    matches_exec(exec_spec(s, c), post, post_cells, cycles)
}

/// Loads from the bus whose operands are fixed: LD A, (rr), LD r, (HL),
/// the accumulator operations on (HL), LDH A, (n), LD A, (C), LD A, (nn) and
/// BIT n, (HL). Whatever the byte read, only the destination (and F) can
/// change, as `bus_load_spec` states.
pub open spec fn is_bus_load(s: CPU, c: &Components) -> bool {
    let op = s.opcode;
    ||| (op < 0x40 && op % 8 == 2 && (op / 8) % 2 == 1)
    ||| (0x40 <= op < 0x80 && op != 0x76 && op % 8 == 6)
    ||| (0x80 <= op < 0xC0 && op % 8 == 6)
    ||| (op == 0xF0 && fixed8(s, c))
    ||| op == 0xF2
    ||| (op == 0xFA && fixed16(s, c))
    ||| (op == 0xCB && fixed8(s, c) && operand8(s, c) % 8 == 6 && 0x40 <= operand8(s, c) < 0x80)
}

/// What such a load leaves: the register file before the next prefetch is
/// `post`, taken in `cycles` M-cycles; the loaded byte is some `v`.
pub open spec fn bus_load_spec(s: CPU, c: &Components, post: CPU, cycles: int) -> bool {
    let op = s.opcode;
    let pc1 = inc16(s.pc);
    if op < 0x40 {
        let s1 = if op / 16 == 2 {
            s.with_r16(Reg16::HL, inc16(s.r16(Reg16::HL)))
        } else if op / 16 == 3 {
            s.with_r16(Reg16::HL, dec16(s.r16(Reg16::HL)))
        } else {
            s
        };
        post == CPU { a: post.a, ..s1 } && cycles == 1
    } else if op < 0x80 {
        let dst = reg8_of((op / 8) % 8);
        post == s.with_r8(dst, post.r8(dst)) && cycles == 1
    } else if op < 0xC0 {
        &&& exists|v: u8| (post.a, post.f) == #[trigger] alu_spec((op / 8) % 8, s.a, v, s.cf())
        &&& post == CPU { a: post.a, f: post.f, ..s }
        &&& cycles == 1
    } else if op == 0xF0 {
        post == CPU { a: post.a, pc: pc1, ..s } && cycles == 2
    } else if op == 0xF2 {
        post == CPU { a: post.a, ..s } && cycles == 1
    } else if op == 0xFA {
        post == CPU { a: post.a, pc: inc16(pc1), ..s } && cycles == 3
    } else {
        &&& exists|v: u8| post.f == #[trigger] cb_spec(operand8(s, c), v, s.f).1
        &&& post == CPU { f: post.f, pc: pc1, ..s }
        &&& cycles == 2
    }
}

/// What one `CPU::step` does, from register file `c0` and bus `m0` to `c1`
/// and `m1`, in `cycles` M-cycles.
pub open spec fn stepped(c0: CPU, m0: Components, c1: CPU, m1: Components, cycles: int) -> bool {
    &&& c1.wf()
    &&& m1.wf()
    &&& 1 <= cycles <= 11
    &&& m1.cycle == m0.cycle + cycles
    // Halted with nothing to service: one idle cycle.
    &&& (c0.halted && m0.pending() == 0) ==> cycles == 1 && c1 == c0
    // The HALT bug: with IME off and an interrupt pending, HALT does not
    // halt and the PC is not advanced past the next opcode, so that byte is
    // fetched again; memory is left as it was.
    &&& (c0.opcode == 0x76 && !c0.halted && !c0.ime && !c0.ime_queued && m0.pending() != 0) ==> {
        &&& c1.pc == c0.pc
        &&& !c1.halted
        &&& c1.opcode == m1.read_value(c0.pc)
        &&& cycles == 1
        &&& m0.same_memory(&m1)
        &&& !m0.ppu.oam_dma_running ==> !m1.ppu.oam_dma_running
        &&& m0.fixed(c0.pc) ==> c1.opcode == m0.peek(c0.pc)
    }
    // Interrupt service: five M-cycles that push the address of the
    // prefetched opcode and prefetch at the vector; the handler runs from the
    // next step on.
    &&& (c0.ime && m0.pending() != 0) ==> {
        let n = lowest_interrupt(m0.pending());
        let vector = (0x40 + 8 * n) as u16;
        &&& cycles == 5
        &&& c1 == (CPU {
            ime: false,
            halted: false,
            sp: dec16(dec16(c0.sp)),
            pc: inc16(vector),
            opcode: m1.read_value(vector),
            ..c0
        })
        &&& m1.ram_cells() == push_cells(m0.ram_cells(), c0.sp, dec16(c0.pc))
        &&& (is_ram(dec16(c0.sp)) && is_ram(dec16(dec16(c0.sp)))) ==> m1.interrupt_flag & (
        m0.interrupt_flag & !((1u8 << n) as u8)) == (m0.interrupt_flag & !((1u8 << n) as u8))
    }
    // An instruction: a pending EI takes effect, the opcode does what
    // `exec_spec` says, and the next opcode is prefetched (one more M-cycle).
    &&& (!c0.halted && !(c0.ime && m0.pending() != 0)) ==> (exec_spec(c0.after_ei(), &m0) matches Some(
        (t, cells, k),
    ) ==> {
        &&& cycles == k + 1
        &&& m1.ram_cells() == cells
        &&& c1 == (CPU { pc: inc16(t.pc), opcode: m1.read_value(t.pc), ..t })
    })
    // A load from the bus: whatever byte came back, the rest is fixed.
    &&& (!c0.halted && !(c0.ime && m0.pending() != 0) && is_bus_load(c0.after_ei(), &m0)) ==> (
    exists|t: CPU|
        #[trigger] bus_load_spec(c0.after_ei(), &m0, t, cycles - 1) && c1 == (CPU {
            pc: inc16(t.pc),
            opcode: m1.read_value(t.pc),
            ..t
        }) && m1.ram_cells() == m0.ram_cells())
    // HALT with nothing pending halts after the prefetch.
    &&& (c0.opcode == 0x76 && !c0.halted && !c0.ime_queued && m0.pending() == 0) ==> c1.halted
        && c1.pc == inc16(c0.pc)
}

impl CPU {
    /// The state once a pending EI takes effect.
    pub open spec fn after_ei(self) -> CPU {
        if self.ime_queued {
            CPU { ime: true, ime_queued: false, ..self }
        } else {
            self
        }
    }

    /// Services interrupt `n`: clears its request, disables interrupts,
    /// wakes the CPU, pushes the address of the prefetched opcode and
    /// jumps to 0x40 + 8n, prefetching there (five M-cycles in all).
    fn dispatch(&mut self, com: &mut Components, n: u8)
        requires
            old(self).wf(),
            ready(old(com), 5),
            n < 5,
        ensures
            final(self).wf(),
            final(com).wf(),
            final(com).cycle == old(com).cycle + 5,
            !final(self).ime,
            !final(self).halted,
            *final(self) == (CPU {
                ime: false,
                halted: false,
                sp: dec16(dec16(old(self).sp)),
                pc: inc16((0x40 + 8 * n) as u16),
                opcode: final(com).read_value((0x40 + 8 * n) as u16),
                ..*old(self)
            }),
            final(com).ram_cells() == push_cells(old(com).ram_cells(), old(self).sp, dec16(old(self).pc)),
            // The request is cleared before the five cycles; the others stay.
            (is_ram(dec16(old(self).sp)) && is_ram(dec16(dec16(old(self).sp)))) ==> final(com).interrupt_flag & (old(com).interrupt_flag & !((1u8 << n) as u8)) == (old(com).interrupt_flag & !((1u8 << n) as u8)),
    {
        let mask: u8 = 1u8 << n;
        com.interrupt_flag = com.interrupt_flag & !mask;
        let ghost f0 = com.interrupt_flag;
        self.ime = false;
        self.halted = false;
        self.run_cycle(com);
        let ghost f1 = com.interrupt_flag;
        let ret = dec16_exec(self.pc);
        self.push_val(com, ret);
        let ghost f2 = com.interrupt_flag;
        self.pc = 0x40 + 8 * n as u16;
        self.opcode = self.fetch8(com);
        proof {
            if is_ram(dec16(old(self).sp)) && is_ram(dec16(dec16(old(self).sp))) {
                lemma_keeps_bits(f0, f1, f2);
                lemma_keeps_bits(f0, f2, com.interrupt_flag);
            }
        }
    }

    /// Steps one instruction, ticking the bus once per M-cycle, and returns
    /// the M-cycles taken: interrupt service, a halted idle cycle, or the
    /// prefetched opcode followed by the prefetch of the next one.
    #[verifier::rlimit(100)]
    pub fn step(&mut self, com: &mut Components) -> (cycles: u64)
        requires
            old(self).wf(),
            ready(old(com), 11),
        ensures
            final(self).wf(),
            final(com).wf(),
            1 <= cycles <= 11,
            final(com).cycle == old(com).cycle + cycles,
            stepped(*old(self), *old(com), *final(self), *final(com), cycles as int),
    {
        let start = com.cycle;
        let pending = com.interrupt_enable & com.interrupt_flag & 0x1F;
        if self.ime && pending != 0 {
            let n: u8 = if pending & 1 != 0 {
                0
            } else if pending & 2 != 0 {
                1
            } else if pending & 4 != 0 {
                2
            } else if pending & 8 != 0 {
                3
            } else {
                4
            };
            self.dispatch(com, n);
            proof {
                crate::util::lemma_bit_masks(pending);
            }
            return com.cycle - start;
        }
        if self.halted {
            if pending == 0 {
                self.run_cycle(com);
                return 1;
            }
            self.halted = false;
        }
        if self.ime_queued {
            self.ime = true;
            self.ime_queued = false;
        }
        self.instruction(com);
        com.cycle - start
    }

    /// Executes the prefetched opcode and prefetches the next one; after
    /// HALT with IME off and an interrupt pending, the next byte is read
    /// without advancing PC.
    #[verifier::rlimit(100)]
    fn instruction(&mut self, com: &mut Components)
        requires
            old(self).wf(),
            ready(old(com), 6),
            !old(self).halted,
        ensures
            final(self).wf(),
            final(com).wf(),
            old(com).cycle + 1 <= final(com).cycle <= old(com).cycle + 6,
            exec_spec(*old(self), &*old(com)) matches Some((t, cells, k)) ==> {
                &&& final(com).cycle == old(com).cycle + k + 1
                &&& final(com).ram_cells() == cells
                &&& *final(self) == (CPU { pc: inc16(t.pc), opcode: final(com).read_value(t.pc), ..t })
            },
            is_bus_load(*old(self), &*old(com)) ==> exists|t: CPU|
                #[trigger] bus_load_spec(*old(self), &*old(com), t, final(com).cycle - old(com).cycle - 1)
                    && *final(self) == (CPU { pc: inc16(t.pc), opcode: final(com).read_value(t.pc), ..t })
                    && final(com).ram_cells() == old(com).ram_cells(),
            (old(self).opcode == 0x76 && !old(self).ime && old(com).pending() != 0) ==> {
                &&& final(self).pc == old(self).pc
                &&& !final(self).halted
                &&& final(self).opcode == final(com).read_value(old(self).pc)
                &&& final(com).cycle == old(com).cycle + 1
                &&& old(com).same_memory(&*final(com))
                &&& !old(com).ppu.oam_dma_running ==> !final(com).ppu.oam_dma_running
                &&& old(com).fixed(old(self).pc) ==> final(self).opcode == old(com).peek(old(self).pc)
            },
            (old(self).opcode == 0x76 && old(com).pending() == 0) ==> final(self).halted
                && final(self).pc == inc16(old(self).pc),
    {
        if self.opcode == 0x76 {
            proof {
                assert(exec_spec(*old(self), &*old(com)) is None);
                assert(!is_bus_load(*old(self), &*old(com)));
            }
            self.halt(com);
        } else {
            self.execute_and_fetch(com);
        }
    }

    /// HALT: halts, then prefetches; with IME off and an interrupt pending
    /// it does not halt and the next byte is read without advancing PC.
    fn halt(&mut self, com: &mut Components)
        requires
            old(self).wf(),
            ready(old(com), 1),
            old(self).opcode == 0x76,
            !old(self).halted,
        ensures
            final(self).wf(),
            final(com).wf(),
            final(com).cycle == old(com).cycle + 1,
            (!old(self).ime && old(com).pending() != 0) ==> {
                &&& final(self).pc == old(self).pc
                &&& !final(self).halted
                &&& final(self).opcode == final(com).read_value(old(self).pc)
                &&& old(com).same_memory(&*final(com))
                &&& !old(com).ppu.oam_dma_running ==> !final(com).ppu.oam_dma_running
                &&& old(com).fixed(old(self).pc) ==> final(self).opcode == old(com).peek(old(self).pc)
            },
            old(com).pending() == 0 ==> final(self).halted && final(self).pc == inc16(old(self).pc),
    {
        let pending = com.interrupt_enable & com.interrupt_flag & 0x1F;
        if !self.ime && pending != 0 {
            let pc = self.pc;
            self.opcode = self.read8(com, pc);
        } else {
            self.halted = true;
            self.opcode = self.fetch8(com);
        }
    }

    /// Any opcode but HALT, then the prefetch of the next one.
    #[verifier::rlimit(100)]
    fn execute_and_fetch(&mut self, com: &mut Components)
        requires
            old(self).wf(),
            ready(old(com), 6),
            old(self).opcode != 0x76,
        ensures
            final(self).wf(),
            final(com).wf(),
            old(com).cycle + 1 <= final(com).cycle <= old(com).cycle + 6,
            exec_spec(*old(self), &*old(com)) matches Some((t, cells, k)) ==> {
                &&& final(com).cycle == old(com).cycle + k + 1
                &&& final(com).ram_cells() == cells
                &&& *final(self) == (CPU { pc: inc16(t.pc), opcode: final(com).read_value(t.pc), ..t })
            },
            is_bus_load(*old(self), &*old(com)) ==> exists|t: CPU|
                #[trigger] bus_load_spec(*old(self), &*old(com), t, final(com).cycle - old(com).cycle - 1)
                    && *final(self) == (CPU { pc: inc16(t.pc), opcode: final(com).read_value(t.pc), ..t })
                    && final(com).ram_cells() == old(com).ram_cells(),
    {
        self.execute(com);
        let ghost t = *self;
        let ghost c1 = com.cycle;
        self.opcode = self.fetch8(com);
        proof {
            if is_bus_load(*old(self), &*old(com)) {
                assert(bus_load_spec(*old(self), &*old(com), t, com.cycle - old(com).cycle - 1));
            }
        }
    }
}

} // verus!

use vstd::prelude::*;
use crate::components::{Bootrom, Components};
use crate::cpu::{ready, stepped, CPU};
use crate::ppu::FRAME_BYTES;
use crate::rom::{load_error, loaded_from, rom_from_bytes, Cartridge, LoadError, ROM};

verus! {

/// Most M-cycles one `CPU::step` takes.
pub const MAX_STEP_CYCLES: u64 = 11;

/// Pacing for a host that runs the machine in slices: with `due` M-cycles
/// owed by the wall clock and `executed` already run, the next slice is the
/// whole backlog once it reaches `slice`, and nothing before.
pub fn cycles_to_run(due: u64, executed: u64, slice: u64) -> (r: Option<u64>)
    ensures
        r == if due >= executed && due - executed >= slice {
            Some((due - executed) as u64)
        } else {
            None::<u64>
        },
{
    if due >= executed && due - executed >= slice {
        Some(due - executed)
    } else {
        None
    }
}

/// The sum of a sequence of cycle counts.
pub open spec fn total(s: Seq<int>) -> int
    decreases s.len(),
{
    if s.len() == 0 {
        0
    } else {
        total(s.drop_last()) + s.last()
    }
}

/// Register files and bus states where each follows the one before by one
/// `CPU::step` of the given number of M-cycles.
pub open spec fn step_trace(cpus: Seq<CPU>, coms: Seq<Components>, cycles: Seq<int>) -> bool {
    &&& cpus.len() == cycles.len() + 1
    &&& coms.len() == cycles.len() + 1
    &&& forall|i: int|
        0 <= i < cycles.len() ==> #[trigger] stepped(cpus[i], coms[i], cpus[i + 1], coms[i + 1], cycles[i])
}

/// The registers a debugger shows.
#[derive(Clone, Copy, Debug, PartialEq, Eq, Structural)]
pub struct CpuSnapshot {
    pub a: u8,
    pub b: u8,
    pub c: u8,
    pub d: u8,
    pub e: u8,
    pub f: u8,
    pub h: u8,
    pub l: u8,
    pub sp: u16,
    pub pc: u16,
}

/// The whole machine: the CPU and everything on its bus.
pub struct Gameboy {
    pub cpu: CPU,
    pub components: Components,
}

impl Gameboy {
    pub open spec fn wf(&self) -> bool {
        self.cpu.wf() && self.components.wf()
    }

    /// Powers on with the boot image mapped at 0x0000.
    pub fn new(rom: Cartridge, bootrom: Bootrom) -> (r: Gameboy)
        requires
            rom.inv(),
            bootrom.wf(),
        ensures
            r.wf(),
            r.cpu.pc == 0,
            !r.components.bootrom_disabled,
            r.components.cycle == 0,
            r.components.rom == rom,
            r.components.bootrom == bootrom,
    {
        Gameboy { cpu: CPU::new(), components: Components::new(rom, Some(bootrom)) }
    }

    /// Starts where the boot image would leave off: boot image unmapped,
    /// registers at their documented post-boot values, LCD on (LCDC 0x91).
    pub fn without_bootrom(rom: Cartridge) -> (r: Gameboy)
        requires
            rom.inv(),
        ensures
            r.wf(),
            r.cpu.pc == 0x0100,
            r.components.bootrom_disabled,
            r.components.ppu.lcd_control == 0x91,
            r.components.cycle == 0,
            r.components.rom == rom,
    {
        let mut components = Components::new(rom, None);
        components.ppu.write_lcdc(0x91);
        Gameboy { cpu: CPU::post_boot(), components }
    }

    /// Builds the cartridge from an image and starts without a boot image.
    pub fn from_rom_bytes(bytes: &[u8]) -> (r: Result<Gameboy, LoadError>)
        ensures
            match load_error(bytes@) {
                Some(e) => r == Err::<Gameboy, LoadError>(e),
                None => r is Ok,
            },
            r matches Ok(g) ==> g.wf() && g.cpu.pc == 0x0100 && loaded_from(g.components.rom, bytes@)
                && g.components.bootrom_disabled,
    {
        match rom_from_bytes(bytes) {
            Ok(rom) => Ok(Gameboy::without_bootrom(rom)),
            Err(e) => Err(e),
        }
    }

    /// Runs whole instructions until at least `cycles` M-cycles have passed;
    /// returns how many did.
    pub fn run(&mut self, cycles: u64) -> (executed: u64)
        requires
            old(self).wf(),
            old(self).components.cycle + cycles + MAX_STEP_CYCLES <= u64::MAX,
        ensures
            final(self).wf(),
            cycles <= executed < cycles + MAX_STEP_CYCLES,
            final(self).components.cycle == old(self).components.cycle + executed,
            // The machine gets there by whole steps.
            exists|cpus: Seq<CPU>, coms: Seq<Components>, steps: Seq<int>|
                #[trigger] step_trace(cpus, coms, steps) && cpus[0] == old(self).cpu && coms[0]
                    == old(self).components && cpus.last() == final(self).cpu && coms.last()
                    == final(self).components && total(steps) == executed,
    {
        let mut executed: u64 = 0;
        let ghost mut cpus = seq![self.cpu];
        let ghost mut coms = seq![self.components];
        let ghost mut steps = Seq::<int>::empty();
        while executed < cycles
            invariant
                self.wf(),
                executed < cycles + MAX_STEP_CYCLES,
                self.components.cycle == old(self).components.cycle + executed,
                old(self).components.cycle + cycles + MAX_STEP_CYCLES <= u64::MAX,
                step_trace(cpus, coms, steps),
                cpus[0] == old(self).cpu,
                coms[0] == old(self).components,
                cpus.last() == self.cpu,
                coms.last() == self.components,
                total(steps) == executed,
            decreases cycles + MAX_STEP_CYCLES - executed,
        {
            assert(ready(&self.components, 11));
            let ghost c0 = self.cpu;
            let ghost m0 = self.components;
            let n = self.cpu.step(&mut self.components);
            proof {
                let old_steps = steps;
                cpus = cpus.push(self.cpu);
                coms = coms.push(self.components);
                steps = steps.push(n as int);
                assert(steps.drop_last() =~= old_steps);
                assert forall|i: int| 0 <= i < steps.len() implies #[trigger] stepped(
                    cpus[i],
                    coms[i],
                    cpus[i + 1],
                    coms[i + 1],
                    steps[i],
                ) by {
                    if i < old_steps.len() {
                        assert(stepped(cpus[i], coms[i], cpus[i + 1], coms[i + 1], old_steps[i]));
                    }
                }
            }
            executed = executed + n;
        }
        executed
    }

    /// Sets the held buttons: bits 0-3 A, B, Select, Start; bits 4-7 Right,
    /// Left, Up, Down; 1 = pressed.
    pub fn set_joypad(&mut self, bits: u8)
        requires
            old(self).wf(),
        ensures
            final(self).wf(),
            final(self).components.joypad.cur_input == bits,
            final(self).cpu == old(self).cpu,
    {
        self.components.joypad.cur_input = bits;
    }

    /// What the LCD shows: the last complete frame (160x144 shades 0-3,
    /// row-major), or a blank one while the LCD is off (LCDC bit 7 clear).
    pub fn framebuffer(&self) -> (r: Vec<u8>)
        requires
            self.wf(),
        ensures
            r@.len() == FRAME_BYTES,
            self.components.ppu.enabled() ==> r@ == self.components.ppu.framebuffer@,
            !self.components.ppu.enabled() ==> r@ == Seq::new(FRAME_BYTES as nat, |i: int| 0u8),
    {
        let ppu = &self.components.ppu;
        proof {
            crate::util::lemma_bit_masks(ppu.lcd_control);
        }
        if ppu.lcd_control & 0x80 == 0 {
            let r = vec![0u8; FRAME_BYTES];
            assert(r@ =~= Seq::new(FRAME_BYTES as nat, |i: int| 0u8));
            return r;
        }
        let mut out: Vec<u8> = Vec::new();
        let mut i: usize = 0;
        while i < FRAME_BYTES
            invariant
                i <= FRAME_BYTES,
                ppu.framebuffer@.len() == FRAME_BYTES,
                out@ == ppu.framebuffer@.subrange(0, i as int),
            decreases FRAME_BYTES - i,
        {
            out.push(ppu.framebuffer[i]);
            i = i + 1;
            assert(out@ =~= ppu.framebuffer@.subrange(0, i as int));
        }
        assert(out@ =~= ppu.framebuffer@);
        out
    }

    pub fn cpu_snapshot(&self) -> (r: CpuSnapshot)
        ensures
            r == (CpuSnapshot {
                a: self.cpu.a,
                b: self.cpu.b,
                c: self.cpu.c,
                d: self.cpu.d,
                e: self.cpu.e,
                f: self.cpu.f,
                h: self.cpu.h,
                l: self.cpu.l,
                sp: self.cpu.sp,
                pc: self.cpu.pc,
            }),
    {
        CpuSnapshot {
            a: self.cpu.a,
            b: self.cpu.b,
            c: self.cpu.c,
            d: self.cpu.d,
            e: self.cpu.e,
            f: self.cpu.f,
            h: self.cpu.h,
            l: self.cpu.l,
            sp: self.cpu.sp,
            pc: self.cpu.pc,
        }
    }

    /// The tile data region of VRAM, 0x8000-0x97FF.
    pub fn vram_tile_data(&self) -> (r: Vec<u8>)
        requires
            self.wf(),
        ensures
            r@ == self.components.ppu.vram@.subrange(0, 0x1800),
    {
        let mut out: Vec<u8> = Vec::new();
        let mut i: usize = 0;
        while i < 0x1800
            invariant
                i <= 0x1800,
                self.components.ppu.vram@.len() == 0x2000,
                out@ == self.components.ppu.vram@.subrange(0, i as int),
            decreases 0x1800 - i,
        {
            out.push(self.components.ppu.vram[i]);
            i = i + 1;
            assert(out@ =~= self.components.ppu.vram@.subrange(0, i as int));
        }
        out
    }

    /// Hands over the bytes sent on the serial port since the last call.
    pub fn take_serial_output(&mut self) -> (r: Vec<u8>)
        requires
            old(self).wf(),
        ensures
            final(self).wf(),
            r@ == old(self).components.serial.output@,
            final(self).components.serial.output@ == Seq::<u8>::empty(),
    {
        self.components.serial.take_output()
    }
}

} // verus!

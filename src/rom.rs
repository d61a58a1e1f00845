use vstd::prelude::*;

verus! {

/// Size of a switchable ROM bank.
pub const ROM_BANK: usize = 0x4000;

/// Size of an external RAM bank.
pub const RAM_BANK: usize = 0x2000;

/// Why a cartridge image was refused.
#[derive(Clone, Copy, Debug, PartialEq, Eq, Structural)]
pub enum LoadError {
    /// Under 32 KiB.
    TooSmall,
    /// The header's cartridge type (0x0147) names a mapper that is not
    /// supported.
    UnsupportedMapper(u8),
    /// The header's RAM size code (0x0149) is not a known one.
    UnknownRamSize(u8),
}

/// A cartridge as the bus sees it. Writes to ROM space configure the
/// mapper; they never change ROM.
pub trait ROM: Sized {
    spec fn inv(&self) -> bool;

    /// What a read at `addr` (0x0000-0x7FFF) returns.
    spec fn rom_byte(&self, addr: u16) -> u8;

    /// What a read at `addr` (0xA000-0xBFFF) returns.
    spec fn ram_byte(&self, addr: u16) -> u8;

    /// Whether RAM writes currently land anywhere.
    spec fn ram_writable(&self) -> bool;

    /// The RAM cell that `addr` currently selects.
    spec fn ram_cell(&self, addr: u16) -> int;

    /// The mapper after a write to ROM space.
    spec fn configured(&self, addr: u16, val: u8) -> Self;

    fn read_rom(&self, addr: u16) -> (r: u8)
        requires
            self.inv(),
        ensures
            r == self.rom_byte(addr),
    ;

    fn write_rom(&mut self, addr: u16, val: u8)
        requires
            old(self).inv(),
        ensures
            final(self).inv(),
            *final(self) == old(self).configured(addr, val),
    ;

    fn read_ram(&self, addr: u16) -> (r: u8)
        requires
            self.inv(),
        ensures
            r == self.ram_byte(addr),
    ;

    fn write_ram(&mut self, addr: u16, val: u8)
        requires
            old(self).inv(),
        ensures
            final(self).inv(),
            final(self).ram_writable() == old(self).ram_writable(),
            forall|a: u16| #[trigger] final(self).rom_byte(a) == old(self).rom_byte(a),
            forall|a: u16| #[trigger] final(self).ram_cell(a) == old(self).ram_cell(a),
            forall|a: u16|
                #[trigger] final(self).ram_byte(a) == if old(self).ram_writable() && old(
                    self,
                ).ram_cell(a) == old(self).ram_cell(addr) {
                    val
                } else {
                    old(self).ram_byte(a)
                },
    ;
}

/// A plain 32 KiB ROM with no RAM.
pub struct NoMapper {
    pub rom: Vec<u8>,
}

impl ROM for NoMapper {
    open spec fn inv(&self) -> bool {
        self.rom@.len() == 0x8000
    }

    open spec fn rom_byte(&self, addr: u16) -> u8 {
        self.rom@[(addr & 0x7FFF) as int]
    }

    open spec fn ram_byte(&self, addr: u16) -> u8 {
        0xFF
    }

    open spec fn ram_writable(&self) -> bool {
        false
    }

    open spec fn ram_cell(&self, addr: u16) -> int {
        0
    }

    open spec fn configured(&self, addr: u16, val: u8) -> Self {
        *self
    }

    fn read_rom(&self, addr: u16) -> (r: u8) {
        assert(addr & 0x7FFF < 0x8000) by (bit_vector);
        self.rom[(addr & 0x7FFF) as usize]
    }

    fn write_rom(&mut self, _addr: u16, _val: u8) {
    }

    fn read_ram(&self, _addr: u16) -> (r: u8) {
        0xFF
    }

    fn write_ram(&mut self, _addr: u16, _val: u8) {
    }
}

/// MBC1: up to 2 MiB of ROM in 16 KiB banks and up to four 8 KiB RAM banks.
pub struct MBC1 {
    /// The whole ROM, a whole number of banks.
    pub rom: Vec<u8>,
    /// All RAM banks back to back.
    pub ram: Vec<u8>,
    pub ram_enabled: bool,
    /// Low five bits of the ROM bank number.
    pub rom_bank_idx: u8,
    /// Two bits: RAM bank, or ROM bank bits 5-6 on carts of 32 banks or more.
    pub ram_bank_idx: u8,
    /// Banking mode: false = simple, true = advanced.
    pub banking_mode: bool,
}

impl MBC1 {
    pub open spec fn rom_banks(&self) -> int {
        self.rom@.len() as int / (ROM_BANK as int)
    }

    pub open spec fn ram_banks(&self) -> int {
        self.ram@.len() as int / (RAM_BANK as int)
    }

    /// Whether the two-bit register extends the ROM bank number.
    pub open spec fn large(&self) -> bool {
        self.rom_banks() >= 32
    }

    /// Bank seen at 0x0000-0x3FFF.
    pub open spec fn low_bank(&self) -> int {
        if self.banking_mode && self.large() {
            ((self.ram_bank_idx as int) * 32) % self.rom_banks()
        } else {
            0
        }
    }

    /// Bank seen at 0x4000-0x7FFF: the full bank number, with bank 0
    /// replaced by bank 1.
    pub open spec fn high_bank(&self) -> int {
        let high = if self.large() { (self.ram_bank_idx as int) * 32 } else { 0 };
        let bank = high + self.rom_bank_idx as int;
        (if bank == 0 { 1 } else { bank }) % self.rom_banks()
    }

    /// RAM bank seen at 0xA000-0xBFFF: the two-bit register on carts of
    /// fewer than 32 ROM banks, else bank 0.
    pub open spec fn ram_bank(&self) -> int {
        if !self.large() {
            (self.ram_bank_idx as int) % self.ram_banks()
        } else {
            0
        }
    }
}

proof fn lemma_bank_index(bank: int, banks: int, size: int, off: int)
    requires
        0 <= bank < banks,
        0 <= off < size,
    ensures
        0 <= bank * size + off < banks * size,
        banks * size >= size,
{
    assert(0 <= bank * size + off < banks * size) by (nonlinear_arith)
        requires
            0 <= bank < banks,
            0 <= off < size,
    ;
    assert(banks * size >= size) by (nonlinear_arith)
        requires
            1 <= banks,
            0 < size,
    ;
}

proof fn lemma_bank_count(len: int, size: int)
    requires
        0 < size,
        0 <= len,
    ensures
        (len / size) * size <= len,
{
    assert((len / size) * size <= len) by (nonlinear_arith)
        requires
            0 < size,
            0 <= len,
    ;
}

impl ROM for MBC1 {
    open spec fn inv(&self) -> bool {
        &&& self.rom_banks() >= 2
        &&& self.ram@.len() as int % (RAM_BANK as int) == 0
        &&& self.rom_bank_idx < 32
        &&& self.ram_bank_idx < 4
    }

    open spec fn rom_byte(&self, addr: u16) -> u8 {
        let bank = if addr < 0x4000 { self.low_bank() } else { self.high_bank() };
        self.rom@[bank * (ROM_BANK as int) + (addr & 0x3FFF) as int]
    }

    open spec fn ram_byte(&self, addr: u16) -> u8 {
        if self.ram_enabled && self.ram_banks() > 0 {
            self.ram@[self.ram_cell(addr)]
        } else {
            0xFF
        }
    }

    open spec fn ram_writable(&self) -> bool {
        self.ram_enabled && self.ram_banks() > 0
    }

    open spec fn ram_cell(&self, addr: u16) -> int {
        self.ram_bank() * (RAM_BANK as int) + (addr & 0x1FFF) as int
    }

    open spec fn configured(&self, addr: u16, val: u8) -> Self {
        let a = addr & 0x7FFF;
        if a < 0x2000 {
            MBC1 { ram_enabled: val & 0xF == 0xA, ..*self }
        } else if a < 0x4000 {
            MBC1 { rom_bank_idx: val & 0x1F, ..*self }
        } else if a < 0x6000 {
            MBC1 { ram_bank_idx: val & 3, ..*self }
        } else {
            MBC1 { banking_mode: val & 1 == 1, ..*self }
        }
    }

    fn read_rom(&self, addr: u16) -> (r: u8) {
        let banks = self.rom.len() / ROM_BANK;
        let bank: usize = if addr < 0x4000 {
            if self.banking_mode && banks >= 32 {
                (self.ram_bank_idx as usize * 32) % banks
            } else {
                0
            }
        } else {
            let high: usize = if banks >= 32 { self.ram_bank_idx as usize * 32 } else { 0 };
            let bank = high + self.rom_bank_idx as usize;
            (if bank == 0 { 1 } else { bank }) % banks
        };
        let off = (addr & 0x3FFF) as usize;
        assert(addr & 0x3FFF < 0x4000) by (bit_vector);
        proof {
            lemma_bank_index(bank as int, banks as int, ROM_BANK as int, off as int);
            lemma_bank_count(self.rom@.len() as int, ROM_BANK as int);
        }
        self.rom[bank * ROM_BANK + off]
    }

    fn write_rom(&mut self, addr: u16, val: u8) {
        let a = addr & 0x7FFF;
        if a < 0x2000 {
            self.ram_enabled = val & 0xF == 0xA;
        } else if a < 0x4000 {
            self.rom_bank_idx = val & 0x1F;
            assert(val & 0x1F < 32) by (bit_vector);
        } else if a < 0x6000 {
            self.ram_bank_idx = val & 3;
            assert(val & 3 < 4) by (bit_vector);
        } else {
            self.banking_mode = val & 1 == 1;
        }
    }

    fn read_ram(&self, addr: u16) -> (r: u8) {
        if self.ram_enabled && self.ram.len() >= RAM_BANK {
            let idx = self.ram_index(addr);
            self.ram[idx]
        } else {
            0xFF
        }
    }

    fn write_ram(&mut self, addr: u16, val: u8) {
        if self.ram_enabled && self.ram.len() >= RAM_BANK {
            let idx = self.ram_index(addr);
            proof {
                assert forall|a: u16| 0 <= #[trigger] self.ram_cell(a) < self.ram@.len() by {
                    self.lemma_ram_cell(a);
                }
            }
            self.ram.set(idx, val);
        }
    }
}

impl MBC1 {
    proof fn lemma_ram_cell(&self, a: u16)
        requires
            self.inv(),
            self.ram_banks() > 0,
        ensures
            0 <= self.ram_cell(a) < self.ram@.len(),
    {
        assert(a & 0x1FFF < 0x2000) by (bit_vector);
        lemma_bank_index(self.ram_bank(), self.ram_banks(), RAM_BANK as int, (a & 0x1FFF) as int);
        lemma_bank_count(self.ram@.len() as int, RAM_BANK as int);
    }

    fn ram_index(&self, addr: u16) -> (r: usize)
        requires
            self.inv(),
            self.ram_banks() > 0,
        ensures
            r == self.ram_cell(addr),
            r < self.ram@.len(),
    {
        let banks = self.ram.len() / RAM_BANK;
        let bank: usize = if self.rom.len() / ROM_BANK < 32 {
            self.ram_bank_idx as usize % banks
        } else {
            0
        };
        let off = (addr & 0x1FFF) as usize;
        assert(addr & 0x1FFF < 0x2000) by (bit_vector);
        proof {
            lemma_bank_index(bank as int, banks as int, RAM_BANK as int, off as int);
            lemma_bank_count(self.ram@.len() as int, RAM_BANK as int);
        }
        bank * RAM_BANK + off
    }
}

/// The mapper a cartridge image asks for.
pub enum Cartridge {
    NoMapper(NoMapper),
    MBC1(MBC1),
}

impl ROM for Cartridge {
    open spec fn inv(&self) -> bool {
        match self {
            Cartridge::NoMapper(m) => m.inv(),
            Cartridge::MBC1(m) => m.inv(),
        }
    }

    open spec fn rom_byte(&self, addr: u16) -> u8 {
        match self {
            Cartridge::NoMapper(m) => m.rom_byte(addr),
            Cartridge::MBC1(m) => m.rom_byte(addr),
        }
    }

    open spec fn ram_byte(&self, addr: u16) -> u8 {
        match self {
            Cartridge::NoMapper(m) => m.ram_byte(addr),
            Cartridge::MBC1(m) => m.ram_byte(addr),
        }
    }

    open spec fn ram_writable(&self) -> bool {
        match self {
            Cartridge::NoMapper(m) => m.ram_writable(),
            Cartridge::MBC1(m) => m.ram_writable(),
        }
    }

    open spec fn ram_cell(&self, addr: u16) -> int {
        match self {
            Cartridge::NoMapper(m) => m.ram_cell(addr),
            Cartridge::MBC1(m) => m.ram_cell(addr),
        }
    }

    open spec fn configured(&self, addr: u16, val: u8) -> Self {
        match self {
            Cartridge::NoMapper(m) => Cartridge::NoMapper(m.configured(addr, val)),
            Cartridge::MBC1(m) => Cartridge::MBC1(m.configured(addr, val)),
        }
    }

    fn read_rom(&self, addr: u16) -> (r: u8) {
        match self {
            Cartridge::NoMapper(m) => m.read_rom(addr),
            Cartridge::MBC1(m) => m.read_rom(addr),
        }
    }

    fn write_rom(&mut self, addr: u16, val: u8) {
        match self {
            Cartridge::NoMapper(m) => m.write_rom(addr, val),
            Cartridge::MBC1(m) => m.write_rom(addr, val),
        }
    }

    fn read_ram(&self, addr: u16) -> (r: u8) {
        match self {
            Cartridge::NoMapper(m) => m.read_ram(addr),
            Cartridge::MBC1(m) => m.read_ram(addr),
        }
    }

    fn write_ram(&mut self, addr: u16, val: u8) {
        match self {
            Cartridge::NoMapper(m) => m.write_ram(addr, val),
            Cartridge::MBC1(m) => m.write_ram(addr, val),
        }
    }
}

/// Number of 8 KiB RAM banks for a header RAM size code, if it is a known one.
pub open spec fn ram_banks_for(code: u8) -> Option<int> {
    if code == 0 {
        Some(0)
    } else if code == 2 {
        Some(1)
    } else if code == 3 {
        Some(4)
    } else if code == 4 {
        Some(16)
    } else if code == 5 {
        Some(8)
    } else {
        None
    }
}

/// Why an image is refused, if it is.
pub open spec fn load_error(rom: Seq<u8>) -> Option<LoadError> {
    if rom.len() < 0x8000 {
        Some(LoadError::TooSmall)
    } else if rom[0x147] == 0 {
        None
    } else if rom[0x147] > 3 {
        Some(LoadError::UnsupportedMapper(rom[0x147]))
    } else if rom[0x147] != 1 && ram_banks_for(rom[0x149]) is None {
        Some(LoadError::UnknownRamSize(rom[0x149]))
    } else {
        None
    }
}

/// Whether `c` is the mapper that image `rom` loads as: type 0x00 holds the
/// first 32 KiB; MBC1 holds every whole 16 KiB bank, zeroed RAM of the
/// header's size (none for type 0x01) and its registers cleared.
pub open spec fn loaded_from(c: Cartridge, rom: Seq<u8>) -> bool {
    let kind = rom[0x147];
    let banks = if kind == 1 { Some(0int) } else { ram_banks_for(rom[0x149]) };
    match c {
        Cartridge::NoMapper(m) => kind == 0 && m.rom@ == rom.subrange(0, 0x8000),
        Cartridge::MBC1(m) => {
            &&& 1 <= kind <= 3
            &&& banks is Some
            &&& m.rom@ == rom.subrange(0, (rom.len() as int / 0x4000) * 0x4000)
            &&& m.ram@ == Seq::new((banks->0 * 0x2000) as nat, |i: int| 0u8)
            &&& !m.ram_enabled && m.rom_bank_idx == 0 && m.ram_bank_idx == 0 && !m.banking_mode
        },
    }
}

fn copy_prefix(bytes: &[u8], n: usize) -> (r: Vec<u8>)
    requires
        n <= bytes@.len(),
    ensures
        r@ == bytes@.subrange(0, n as int),
{
    let mut out: Vec<u8> = Vec::new();
    let mut i: usize = 0;
    while i < n
        invariant
            i <= n,
            n <= bytes@.len(),
            out@ == bytes@.subrange(0, i as int),
        decreases n - i,
    {
        out.push(bytes[i]);
        i = i + 1;
        assert(out@ =~= bytes@.subrange(0, i as int));
    }
    out
}

/// Builds the mapper that the header of a cartridge image asks for: type
/// 0x00 is a plain 32 KiB ROM, 0x01-0x03 are MBC1 (0x01 without RAM).
pub fn rom_from_bytes(rom: &[u8]) -> (r: Result<Cartridge, LoadError>)
    ensures
        rom@.len() < 0x8000 ==> r == Err::<Cartridge, LoadError>(LoadError::TooSmall),
        rom@.len() >= 0x8000 ==> {
            let kind = rom@[0x147];
            let code = rom@[0x149];
            let banks = if kind == 1 { Some(0int) } else { ram_banks_for(code) };
            &&& kind == 0 ==> (r matches Ok(Cartridge::NoMapper(m)) && m.rom@ == rom@.subrange(0, 0x8000))
            &&& (1 <= kind <= 3 && banks is None) ==> r == Err::<Cartridge, LoadError>(
                LoadError::UnknownRamSize(code),
            )
            &&& (1 <= kind <= 3 && banks is Some) ==> (r matches Ok(Cartridge::MBC1(m))
                && m.rom@ == rom@.subrange(0, (rom@.len() as int / 0x4000) * 0x4000)
                && m.ram@ == Seq::new((banks->0 * 0x2000) as nat, |i: int| 0u8)
                && !m.ram_enabled && m.rom_bank_idx == 0 && m.ram_bank_idx == 0 && !m.banking_mode)
            &&& kind > 3 ==> r == Err::<Cartridge, LoadError>(LoadError::UnsupportedMapper(kind))
        },
        r matches Ok(c) ==> c.inv() && loaded_from(c, rom@),
        match load_error(rom@) {
            Some(e) => r == Err::<Cartridge, LoadError>(e),
            None => r is Ok,
        },
{
    if rom.len() < 0x8000 {
        return Err(LoadError::TooSmall);
    }
    let kind = rom[0x147];
    if kind == 0 {
        let bytes = copy_prefix(rom, 0x8000);
        return Ok(Cartridge::NoMapper(NoMapper { rom: bytes }));
    }
    if kind > 3 {
        return Err(LoadError::UnsupportedMapper(kind));
    }
    let code = rom[0x149];
    let ram_banks: usize = if kind == 1 {
        0
    } else {
        match code {
            0 => 0,
            2 => 1,
            3 => 4,
            4 => 16,
            5 => 8,
            _ => {
                return Err(LoadError::UnknownRamSize(code));
            },
        }
    };
    let n = (rom.len() / ROM_BANK) * ROM_BANK;
    proof {
        lemma_bank_count(rom@.len() as int, ROM_BANK as int);
    }
    let bytes = copy_prefix(rom, n);
    let ram = vec![0u8; ram_banks * RAM_BANK];
    let m = MBC1 {
        rom: bytes,
        ram,
        ram_enabled: false,
        rom_bank_idx: 0,
        ram_bank_idx: 0,
        banking_mode: false,
    };
    proof {
        assert(m.ram@ =~= Seq::new((ram_banks * RAM_BANK) as nat, |i: int| 0u8));
        assert((n as int) / 0x4000 == rom@.len() as int / 0x4000) by (nonlinear_arith)
            requires
                n as int == (rom@.len() as int / 0x4000) * 0x4000,
        ;
        assert(((ram_banks * RAM_BANK) as int) / 0x2000 == ram_banks as int);
        assert(((ram_banks * RAM_BANK) as int) % 0x2000 == 0);
    }
    Ok(Cartridge::MBC1(m))
}

} // verus!

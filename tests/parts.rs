use khangboy::apu::APU;
use khangboy::components::{Bootrom, Components};
use khangboy::fifo::PixelFIFO;
use khangboy::joypad::Joypad;
use khangboy::ppu::{DrawMode, PPU};
use khangboy::rom::{rom_from_bytes, Cartridge, LoadError, ROM};
use khangboy::timer::Timer;
use khangboy::util::BitIndex;

fn plain_rom() -> Cartridge {
    rom_from_bytes(&vec![0u8; 0x8000]).unwrap()
}

fn bus() -> Components {
    Components::new(plain_rom(), None)
}

#[test]
fn bit_index_test_and_set() {
    assert!(0x80u8.test(7));
    assert!(!0x80u8.test(6));
    assert_eq!(0x00u8.set(3, true), 0x08);
    assert_eq!(0xFFu8.set(0, false), 0xFE);
    assert!(0x0200u16.test(9));
    assert_eq!(0x0000u16.set(15, true), 0x8000);
}

#[test]
fn timer_div_write_falling_edge_increments_tima() {
    let mut t = Timer::new();
    t.write_tac(0x05);
    t.write_tima(0x10);
    // Run until the selected bit (bit 1) is high at a tick.
    t.tick();
    t.tick();
    assert!(t.edge_delay);
    let before = t.read_tima();
    t.write_div(0);
    assert!(!t.tick());
    assert_eq!(t.read_tima(), before + 1);
}

#[test]
fn timer_overflow_reloads_modulo() {
    let mut t = Timer::new();
    t.write_tac(0x05);
    t.write_tma(0xAB);
    t.write_tima(0xFF);
    let mut fired = false;
    for _ in 0..4 {
        fired |= t.tick();
    }
    assert!(fired);
    assert_eq!(t.read_tima(), 0xAB);
}

#[test]
fn timer_registers_read_back() {
    let mut t = Timer::new();
    t.write_tac(0x02);
    assert_eq!(t.read_tac(), 0xFA);
    for _ in 0..64 {
        t.tick();
    }
    assert_eq!(t.read_div(), 1);
    t.write_div(0x77);
    assert_eq!(t.read_div(), 0);
}

#[test]
fn joypad_reports_selected_buttons_and_interrupts() {
    let mut j = Joypad::new();
    j.write_p1(0x10); // select buttons
    j.tick();
    assert_eq!(j.read_p1() & 0x0F, 0x0F);
    j.cur_input = 0x01; // A pressed
    assert!(j.tick());
    assert_eq!(j.read_p1() & 0x0F, 0x0E);
    assert!(!j.tick());
    j.write_p1(0x20); // select directions
    j.cur_input = 0x40; // Up
    j.tick();
    assert_eq!(j.read_p1(), 0xC0 | 0x20 | 0x0B);
}

#[test]
fn apu_registers_keep_writes() {
    let mut a = APU::new();
    a.write_nr51(0xF3);
    assert_eq!(a.read_nr51(), 0xF3);
    a.write_nr52(0x80);
    assert_eq!(a.read_nr52(), 0x80);
    a.write_nr52(0x00);
    assert_eq!(a.read_nr52(), 0x00);
    a.write_wave(0xFF35, 0x9C);
    assert_eq!(a.wave_ram[5], 0x9C);
    a.write_nr10(0x12);
    assert_eq!(a.regs[0], 0x12);
}

#[test]
fn fifo_is_first_in_first_out() {
    let mut f = PixelFIFO::new();
    for i in 0..16u8 {
        f.push(i);
    }
    assert_eq!(f.len(), 16);
    for i in 0..16u8 {
        assert_eq!(f.pop(), i);
    }
    f.push(7);
    f.replace(0, 9);
    assert_eq!(f.get(0), 9);
}

#[test]
fn rom_too_small() {
    assert!(matches!(rom_from_bytes(&vec![0u8; 0x7FFF]), Err(LoadError::TooSmall)));
}

#[test]
fn rom_unsupported_mapper() {
    let mut rom = vec![0u8; 0x8000];
    rom[0x147] = 0x05;
    assert!(matches!(rom_from_bytes(&rom), Err(LoadError::UnsupportedMapper(0x05))));
}

#[test]
fn rom_unknown_ram_size() {
    let mut rom = vec![0u8; 0x8000];
    rom[0x147] = 0x02;
    rom[0x149] = 0x07;
    assert!(matches!(rom_from_bytes(&rom), Err(LoadError::UnknownRamSize(0x07))));
}

fn mbc1_image(banks: usize, kind: u8, ram: u8) -> Vec<u8> {
    let mut rom = vec![0u8; banks * 0x4000];
    for b in 0..banks {
        rom[b * 0x4000] = b as u8;
        rom[b * 0x4000 + 1] = 0xEE;
    }
    rom[0x147] = kind;
    rom[0x149] = ram;
    rom
}

#[test]
fn mbc1_switches_rom_banks() {
    let mut c = rom_from_bytes(&mbc1_image(8, 0x01, 0)).unwrap();
    assert_eq!(c.read_rom(0x4000), 1);
    c.write_rom(0x2000, 0x05);
    assert_eq!(c.read_rom(0x4000), 5);
    c.write_rom(0x2000, 0x00);
    assert_eq!(c.read_rom(0x4000), 1);
    c.write_rom(0x2000, 0x0B);
    assert_eq!(c.read_rom(0x4000), 3);
    assert_eq!(c.read_rom(0x0000), 0);
    assert_eq!(c.read_ram(0xA000), 0xFF);
}

#[test]
fn mbc1_upper_bits_on_large_roms() {
    let mut c = rom_from_bytes(&mbc1_image(64, 0x01, 0)).unwrap();
    c.write_rom(0x2000, 0x02);
    c.write_rom(0x4000, 0x01);
    assert_eq!(c.read_rom(0x4000), 34);
    assert_eq!(c.read_rom(0x0000), 0);
    c.write_rom(0x6000, 0x01);
    assert_eq!(c.read_rom(0x0000), 32);
}

#[test]
fn mbc1_ram_enable_and_banks() {
    let mut c = rom_from_bytes(&mbc1_image(4, 0x03, 0x03)).unwrap();
    c.write_ram(0xA000, 0x11);
    assert_eq!(c.read_ram(0xA000), 0xFF);
    c.write_rom(0x0000, 0x0A);
    c.write_ram(0xA000, 0x11);
    assert_eq!(c.read_ram(0xA000), 0x11);
    c.write_rom(0x6000, 0x01);
    c.write_rom(0x4000, 0x02);
    assert_eq!(c.read_ram(0xA000), 0x00);
    c.write_ram(0xA000, 0x22);
    c.write_rom(0x4000, 0x00);
    assert_eq!(c.read_ram(0xA000), 0x11);
    c.write_rom(0x0000, 0x00);
    assert_eq!(c.read_ram(0xA000), 0xFF);
    match c {
        Cartridge::MBC1(m) => assert_eq!(m.ram.len(), 4 * 0x2000),
        _ => panic!("expected MBC1"),
    }
}

#[test]
fn no_mapper_ignores_writes() {
    let mut rom = vec![0u8; 0x8000];
    rom[0x1234] = 0x56;
    let mut c = rom_from_bytes(&rom).unwrap();
    c.write_rom(0x1234, 0x00);
    assert_eq!(c.read_rom(0x1234), 0x56);
    assert_eq!(c.read_ram(0xA000), 0xFF);
}

#[test]
fn bootrom_needs_256_bytes() {
    assert!(Bootrom::new(&[0u8; 255]).is_none());
    let b = Bootrom::new(&[7u8; 256]).unwrap();
    assert_eq!(b.read(0xFF), 7);
}

#[test]
fn bgp_write_then_read() {
    let mut p = PPU::new();
    p.write_bgp(0x1B);
    assert_eq!(p.read_bgp(), 0x1B);
    let mut c = bus();
    c.write(0xFF47, 0xE4);
    assert_eq!(c.read(0xFF47), 0xE4);
}

#[test]
fn stat_reads_mode_and_coincidence() {
    let mut p = PPU::new();
    p.write_stat(0xFF);
    // LCD off: the mode reads as 0.
    assert_eq!(p.read_stat(), 0x80 | 0x78 | 0x04);
    p.write_lcdc(0x80);
    assert_eq!(p.read_stat(), 0x80 | 0x78 | 0x04 | 0x02);
    p.write_lyc(5);
    assert_eq!(p.read_stat() & 0x04, 0);
}

#[test]
fn ppu_off_does_nothing() {
    let mut p = PPU::new();
    assert_eq!(p.tick(), (false, false));
    assert_eq!(p.read_ly(), 0);
    assert_eq!(p.scanline_dot, 0);
}

#[test]
fn ppu_line_and_frame_timing() {
    let mut p = PPU::new();
    p.write_lcdc(0x91);
    for _ in 0..114 {
        p.tick();
    }
    assert_eq!(p.read_ly(), 1);
    assert_eq!(p.scanline_dot, 0);
    let mut vblanks = 0;
    for _ in 0..(154 * 114) {
        let (v, _) = p.tick();
        if v {
            vblanks += 1;
            assert_eq!(p.read_ly(), 144);
            assert!(p.draw_mode == DrawMode::VBlank);
        }
        assert!(p.scanline_dot < 456 && p.read_ly() < 154);
    }
    assert_eq!(vblanks, 1);
    assert_eq!(p.read_ly(), 1);
}

#[test]
fn lyc_stat_interrupt_once_per_frame() {
    let mut c = bus();
    c.write_passive(0xFF40, 0x91);
    c.write_passive(0xFF45, 64);
    c.write_passive(0xFF41, 0x40);
    let mut rises = Vec::new();
    for _ in 0..(3 * 154 * 114) {
        c.tick();
        if c.interrupt_flag & 2 != 0 {
            rises.push((c.ppu.lcd_y, c.ppu.scanline_dot));
            c.interrupt_flag &= !2;
        }
    }
    assert_eq!(rises.len(), 3);
    for (ly, dot) in rises {
        assert_eq!(ly, 64);
        assert!(dot < 4);
    }
}

#[test]
fn at_most_ten_objects_per_line() {
    let mut p = PPU::new();
    for i in 0..12usize {
        p.write_oam(0xFE00 + (i * 4) as u16, 16);
        p.write_oam(0xFE01 + (i * 4) as u16, (100 - i * 5) as u8);
    }
    p.write_lcdc(0x82);
    for _ in 0..20 {
        p.tick();
    }
    assert!(p.draw_mode == DrawMode::Drawing);
    assert_eq!(p.scanline_objs.len(), 10);
    for w in p.scanline_objs.windows(2) {
        assert!(w[0].x <= w[1].x);
    }
}

#[test]
fn background_tile_reaches_framebuffer() {
    let mut c = bus();
    // Tile 1: every row 0xFF low / 0x00 high -> colour index 1.
    for row in 0..8u16 {
        c.write_passive(0x8010 + row * 2, 0xFF);
    }
    c.write_passive(0x9800, 0x01);
    c.write_passive(0xFF47, 0xE4);
    c.write_passive(0xFF40, 0x91);
    for _ in 0..(154 * 114) {
        c.tick();
    }
    let fb = &c.ppu.framebuffer;
    assert_eq!(fb[0], 1);
    assert_eq!(fb[7], 1);
    assert_eq!(fb[8], 0);
    assert_eq!(fb[7 * 160], 1);
    assert!(fb.iter().all(|&p| p < 4));
}

#[test]
fn every_tick_advances_each_part_once() {
    let mut c = bus();
    c.write_passive(0xFF40, 0x91);
    let clocks = c.timer.clocks;
    let dot = c.ppu.scanline_dot;
    c.tick();
    assert_eq!(c.timer.clocks, clocks + 1);
    assert_eq!(c.ppu.scanline_dot, dot + 4);
    assert_eq!(c.cycle, 1);
}

#[test]
fn bus_accesses_cost_one_cycle() {
    let mut c = bus();
    c.write(0xC000, 0x12);
    assert_eq!(c.cycle, 1);
    assert_eq!(c.read(0xC000), 0x12);
    assert_eq!(c.cycle, 2);
    assert_eq!(c.read_passive(0xE000), 0x12);
    c.write(0xFF80, 0x34);
    assert_eq!(c.read_passive(0xFF80), 0x34);
    c.write(0xFFFF, 0x1F);
    assert_eq!(c.read_passive(0xFFFF), 0x1F);
    assert_eq!(c.cycle, 4);
}

#[test]
fn oam_dma_copies_and_blocks() {
    let mut c = bus();
    for i in 0..0xA0u16 {
        c.write_passive(0xC100 + i, i as u8);
    }
    c.write_passive(0xFF80, 0x99);
    c.write_passive(0xFF46, 0xC1);
    c.tick();
    assert_eq!(c.read_passive(0xC100), 0xFF);
    assert_eq!(c.read_passive(0xFF80), 0x99);
    for _ in 0..159 {
        c.tick();
    }
    assert!(!c.ppu.oam_dma_running);
    assert_eq!(c.read_passive(0xFE00), 0x00);
    assert_eq!(c.read_passive(0xFE9F), 0x9F);
    assert_eq!(c.read_passive(0xC105), 0x05);
}

#[test]
fn unusable_oam_range_reads_zero_in_blanking() {
    let mut c = bus();
    assert_eq!(c.read_passive(0xFEA0), 0x00);
    c.write_passive(0xFEA0, 0x12);
    assert_eq!(c.read_passive(0xFEA0), 0x00);
}

#[test]
fn object_pixels_flip_and_use_their_palette() {
    let mut c = bus();
    // Tile 2, row 0: only the leftmost pixel, colour index 1.
    c.write_passive(0x8020, 0x80);
    // Object 0 at the top-left corner, flipped horizontally, OBP1.
    c.write_passive(0xFE00, 16);
    c.write_passive(0xFE01, 8);
    c.write_passive(0xFE02, 2);
    c.write_passive(0xFE03, 0x30);
    c.write_passive(0xFF47, 0xE4);
    c.write_passive(0xFF48, 0xE4);
    c.write_passive(0xFF49, 0x1C);
    c.write_passive(0xFF40, 0x93);
    for _ in 0..(154 * 114) {
        c.tick();
    }
    let fb = &c.ppu.framebuffer;
    assert_eq!(fb[0], 0);
    assert_eq!(fb[7], 3);
    assert_eq!(fb[160 + 7], 0);
}

#[test]
fn background_priority_hides_object_over_colour() {
    let mut c = bus();
    // Background tile 0 row 0: colour 1 everywhere; object tile 1 row 0: colour 3.
    c.write_passive(0x8000, 0xFF);
    c.write_passive(0x8010, 0xFF);
    c.write_passive(0x8011, 0xFF);
    c.write_passive(0xFE00, 16);
    c.write_passive(0xFE01, 8);
    c.write_passive(0xFE02, 1);
    c.write_passive(0xFE03, 0x80);
    c.write_passive(0xFF47, 0xE4);
    c.write_passive(0xFF48, 0xE4);
    c.write_passive(0xFF40, 0x93);
    for _ in 0..(154 * 114) {
        c.tick();
    }
    assert_eq!(c.ppu.framebuffer[0], 1);
    c.write_passive(0xFF40, 0x13);
    c.write_passive(0xFE03, 0x00);
    c.write_passive(0xFF40, 0x93);
    for _ in 0..(154 * 114) {
        c.tick();
    }
    assert_eq!(c.ppu.framebuffer[0], 3);
}

#[test]
fn mbc1_zero_low_bits_with_upper_bits_select_bank_0x20() {
    let mut c = rom_from_bytes(&mbc1_image(64, 0x01, 0)).unwrap();
    c.write_rom(0x4000, 0x01);
    c.write_rom(0x2000, 0x00);
    assert_eq!(c.read_rom(0x4000), 0x20);
    c.write_rom(0x4000, 0x00);
    assert_eq!(c.read_rom(0x4000), 1);
}

#[test]
fn mbc1_ram_bank_selected_in_simple_mode() {
    let mut c = rom_from_bytes(&mbc1_image(4, 0x03, 0x03)).unwrap();
    c.write_rom(0x0000, 0x0A);
    c.write_ram(0xA000, 0x11);
    c.write_rom(0x4000, 0x01);
    assert_eq!(c.read_ram(0xA000), 0x00);
    c.write_ram(0xA000, 0x22);
    c.write_rom(0x4000, 0x00);
    assert_eq!(c.read_ram(0xA000), 0x11);
    c.write_rom(0x4000, 0x01);
    assert_eq!(c.read_ram(0xA000), 0x22);
}

#[test]
fn oam_dma_copies_from_vram() {
    let mut c = bus();
    c.write_passive(0x8000, 0x5A);
    c.write_passive(0x809F, 0xA5);
    c.write_passive(0xFF40, 0x91);
    c.write_passive(0xFF46, 0x80);
    for _ in 0..160 {
        c.tick();
    }
    assert!(!c.ppu.oam_dma_running);
    assert_eq!(c.ppu.oam[0], 0x5A);
    assert_eq!(c.ppu.oam[0x9F], 0xA5);
}

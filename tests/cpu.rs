use khangboy::gb::{cycles_to_run, Gameboy};

fn image(program: &[u8], at: usize) -> Vec<u8> {
    let mut rom = vec![0u8; 0x8000];
    rom[at..at + program.len()].copy_from_slice(program);
    rom
}

fn machine(program: &[u8]) -> Gameboy {
    Gameboy::from_rom_bytes(&image(program, 0x100)).unwrap()
}

fn steps(gb: &mut Gameboy, n: usize) -> Vec<u64> {
    (0..n).map(|_| gb.cpu.step(&mut gb.components)).collect()
}

#[test]
fn daa_after_add() {
    // LD A,0x15; ADD A,0x27; DAA
    let mut gb = machine(&[0x3E, 0x15, 0xC6, 0x27, 0x27, 0x76]);
    steps(&mut gb, 4);
    let s = gb.cpu_snapshot();
    assert_eq!(s.a, 0x42);
    assert_eq!(s.f, 0x00);
}

#[test]
fn daa_after_sub() {
    // LD A,0x42; SUB 0x15; DAA -> 0x27 with N set
    let mut gb = machine(&[0x3E, 0x42, 0xD6, 0x15, 0x27, 0x76]);
    steps(&mut gb, 4);
    let s = gb.cpu_snapshot();
    assert_eq!(s.a, 0x27);
    assert_eq!(s.f, 0x40);
}

#[test]
fn add_sets_half_carry_and_carry() {
    // LD A,0xF8; ADD A,0x08 -> 0x00, Z H C
    let mut gb = machine(&[0x3E, 0xF8, 0xC6, 0x08, 0x76]);
    steps(&mut gb, 3);
    let s = gb.cpu_snapshot();
    assert_eq!(s.a, 0x00);
    assert_eq!(s.f, 0xB0);
}

#[test]
fn adc_folds_carry_into_half_carry() {
    // SCF; LD A,0x0F; ADC A,0x00 -> 0x10, H set
    let mut gb = machine(&[0x37, 0x3E, 0x0F, 0xCE, 0x00, 0x76]);
    steps(&mut gb, 4);
    let s = gb.cpu_snapshot();
    assert_eq!(s.a, 0x10);
    assert_eq!(s.f, 0x20);
}

#[test]
fn sbc_borrows() {
    // SCF; LD A,0x10; SBC A,0x00 -> 0x0F, N H
    let mut gb = machine(&[0x37, 0x3E, 0x10, 0xDE, 0x00, 0x76]);
    steps(&mut gb, 4);
    let s = gb.cpu_snapshot();
    assert_eq!(s.a, 0x0F);
    assert_eq!(s.f, 0x60);
}

#[test]
fn push_pop_restores_bc() {
    // LD BC,0x1234; PUSH BC; LD BC,0; POP BC
    let mut gb = machine(&[0x01, 0x34, 0x12, 0xC5, 0x01, 0x00, 0x00, 0xC1, 0x76]);
    steps(&mut gb, 5);
    let s = gb.cpu_snapshot();
    assert_eq!((s.b, s.c), (0x12, 0x34));
    assert_eq!(s.sp, 0xFFFE);
}

#[test]
fn pop_af_masks_low_flag_bits() {
    // LD BC,0x12FF; PUSH BC; POP AF
    let mut gb = machine(&[0x01, 0xFF, 0x12, 0xC5, 0xF1, 0x76]);
    steps(&mut gb, 4);
    let s = gb.cpu_snapshot();
    assert_eq!(s.a, 0x12);
    assert_eq!(s.f, 0xF0);
}

#[test]
fn push_af_pop_af_round_trip() {
    // SCF; LD A,0x9A; PUSH AF; XOR A; POP AF
    let mut gb = machine(&[0x37, 0x3E, 0x9A, 0xF5, 0xAF, 0xF1, 0x76]);
    steps(&mut gb, 4);
    let before = gb.cpu_snapshot();
    steps(&mut gb, 2);
    let after = gb.cpu_snapshot();
    assert_eq!((after.a, after.f), (before.a, before.f));
    assert_eq!((after.a, after.f), (0x9A, 0x90));
}

#[test]
fn load_store_keeps_memory() {
    // LD A,0x5C; LD (C123),A; LD A,0; LD A,(C123); LD (C123),A
    let mut gb = machine(&[0x3E, 0x5C, 0xEA, 0x23, 0xC1, 0x3E, 0x00, 0xFA, 0x23, 0xC1, 0xEA, 0x23, 0xC1, 0x76]);
    steps(&mut gb, 6);
    assert_eq!(gb.cpu_snapshot().a, 0x5C);
    assert_eq!(gb.components.read_passive(0xC123), 0x5C);
    assert_eq!(gb.components.read_passive(0xE123), 0x5C);
}

#[test]
fn halt_bug_runs_next_byte_twice() {
    // LD A,1; LD (FFFF),A; LD (FF0F),A; HALT; INC B; JR -2
    let mut gb = machine(&[0x3E, 0x01, 0xEA, 0xFF, 0xFF, 0xEA, 0x0F, 0xFF, 0x76, 0x04, 0x18, 0xFE]);
    steps(&mut gb, 5);
    assert_eq!(gb.cpu.pc, 0x109);
    assert!(!gb.cpu.halted);
    steps(&mut gb, 2);
    assert_eq!(gb.cpu_snapshot().b, 0x02);
}

#[test]
fn halt_waits_for_interrupt() {
    // HALT with nothing pending: idle single cycles
    let mut gb = machine(&[0x76, 0x04]);
    steps(&mut gb, 2);
    assert!(gb.cpu.halted);
    assert_eq!(steps(&mut gb, 3), vec![1, 1, 1]);
    assert_eq!(gb.cpu_snapshot().b, 0x00);
}

#[test]
fn conditional_jumps_cost_extra_only_when_taken() {
    // XOR A (Z set); JP NZ,0x0200 (not taken); JP Z,0x0108 (taken)
    let mut gb = machine(&[0xAF, 0xC2, 0x00, 0x02, 0xCA, 0x08, 0x01, 0x00, 0x76]);
    let c = steps(&mut gb, 4);
    assert_eq!(&c[2..4], &[3, 4]);
    assert_eq!(gb.cpu.pc, 0x109);
}

#[test]
fn conditional_relative_jumps_cost_extra_only_when_taken() {
    // XOR A; JR NZ,+0 (not taken); JR Z,+0 (taken)
    let mut gb = machine(&[0xAF, 0x20, 0x00, 0x28, 0x00, 0x76]);
    let c = steps(&mut gb, 4);
    assert_eq!(&c[2..4], &[2, 3]);
}

#[test]
fn conditional_calls_and_returns_cost_extra_only_when_taken() {
    // XOR A; CALL NZ,0x0120 (not taken); CALL Z,0x0120 (taken) ... at 0x120: RET NZ (not); RET Z (taken)
    let mut program = vec![0xAF, 0xC4, 0x20, 0x01, 0xCC, 0x20, 0x01, 0x76];
    program.resize(0x20, 0);
    program.extend_from_slice(&[0xC0, 0xC8]);
    let mut gb = machine(&program);
    let c = steps(&mut gb, 6);
    assert_eq!(&c[2..6], &[3, 6, 2, 5]);
    assert_eq!(gb.cpu.pc, 0x108);
}

#[test]
fn flags_low_nibble_stays_clear() {
    // A run of ALU, rotate and CB operations.
    let mut gb = machine(&[
        0x3E, 0x9F, 0xC6, 0x71, 0x27, 0x1F, 0x17, 0x2F, 0x3F, 0x37, 0xCB, 0x37, 0xCB, 0x7F, 0xD6, 0x33,
        0xE6, 0x0F, 0xEE, 0xFF, 0xF6, 0x01, 0xFE, 0x02, 0x3C, 0x3D, 0xE8, 0xFF, 0xF8, 0x01, 0x09, 0x76,
    ]);
    for _ in 0..30 {
        gb.cpu.step(&mut gb.components);
        assert_eq!(gb.cpu.f & 0x0F, 0);
    }
}

#[test]
fn cb_bit_sets_zero_from_tested_bit() {
    // LD A,0x80; BIT 7,A; BIT 0,A
    let mut gb = machine(&[0x3E, 0x80, 0xCB, 0x7F, 0xCB, 0x47, 0x76]);
    steps(&mut gb, 3);
    assert_eq!(gb.cpu.f & 0xE0, 0x20);
    steps(&mut gb, 1);
    assert_eq!(gb.cpu.f & 0xE0, 0xA0);
}

#[test]
fn cb_swap_and_set_on_memory() {
    // LD HL,0xC000; LD (HL),0x1F; SWAP (HL); SET 0,(HL); LD A,(HL)
    let mut gb = machine(&[0x21, 0x00, 0xC0, 0x36, 0x1F, 0xCB, 0x36, 0xCB, 0xC6, 0x7E, 0x76]);
    let c = steps(&mut gb, 6);
    assert_eq!(&c[3..5], &[4, 4]);
    assert_eq!(gb.cpu_snapshot().a, 0xF1);
}

#[test]
fn add_sp_signed_and_flags() {
    // LD SP,0x00FF; ADD SP,1 -> 0x0100, H and C
    let mut gb = machine(&[0x31, 0xFF, 0x00, 0xE8, 0x01, 0x76]);
    let c = steps(&mut gb, 3);
    assert_eq!(c[2], 4);
    let s = gb.cpu_snapshot();
    assert_eq!(s.sp, 0x0100);
    assert_eq!(s.f, 0x30);
}

#[test]
fn ld_hl_sp_negative_offset() {
    // LD SP,0x1000; LD HL,SP-1
    let mut gb = machine(&[0x31, 0x00, 0x10, 0xF8, 0xFF, 0x76]);
    steps(&mut gb, 3);
    let s = gb.cpu_snapshot();
    assert_eq!((s.h, s.l), (0x0F, 0xFF));
    assert_eq!(s.f, 0x00);
}

#[test]
fn add_hl_half_carry_from_bit_eleven() {
    // LD HL,0x0FFF; LD BC,0x0001; ADD HL,BC
    let mut gb = machine(&[0x21, 0xFF, 0x0F, 0x01, 0x01, 0x00, 0x09, 0x76]);
    steps(&mut gb, 4);
    let s = gb.cpu_snapshot();
    assert_eq!((s.h, s.l), (0x10, 0x00));
    assert_eq!(s.f & 0x70, 0x20);
}

#[test]
fn timer_overflow_interrupt_fires() {
    // LD A,0xFF; LD (FF05),A; LD A,0x05; LD (FF07),A; EI; LD A,0x04; LD (FFFF),A; HALT; JR -3
    let mut program = vec![
        0x3E, 0xFF, 0xEA, 0x05, 0xFF, 0x3E, 0x05, 0xEA, 0x07, 0xFF, 0xFB, 0x3E, 0x04, 0xEA, 0xFF, 0xFF,
        0x76, 0x18, 0xFD,
    ];
    program.resize(0x100, 0);
    let mut rom = image(&program, 0x100);
    // Timer handler: LD A,0x42; LD (C000),A; RETI
    rom[0x50..0x56].copy_from_slice(&[0x3E, 0x42, 0xEA, 0x00, 0xC0, 0xD9]);
    let mut gb = Gameboy::from_rom_bytes(&rom).unwrap();
    gb.run(256);
    assert_eq!(gb.components.read_passive(0xC000), 0x42);
}

#[test]
fn interrupt_dispatch_takes_five_cycles() {
    // EI; NOP; then IE/IF set by hand: vblank
    let mut gb = machine(&[0xFB, 0x00, 0x00, 0x00]);
    steps(&mut gb, 3);
    gb.components.interrupt_enable = 0x01;
    gb.components.interrupt_flag = 0x01;
    let sp = gb.cpu.sp;
    let c = gb.cpu.step(&mut gb.components);
    // five cycles: two idle, two pushes, the prefetch at the vector
    assert_eq!(c, 5);
    assert_eq!(gb.cpu.pc, 0x41);
    assert_eq!(gb.components.read_passive(gb.cpu.sp), 0x02);
    assert_eq!(gb.cpu.sp, sp - 2);
    assert_eq!(gb.components.interrupt_flag & 1, 0);
    assert!(!gb.cpu.ime);
}

#[test]
fn boot_image_hands_over_to_cartridge() {
    // A tiny boot image: LD A,1; LDH (50),A; then the cartridge runs from 0x0004 on.
    let mut boot = vec![0u8; 256];
    boot[..4].copy_from_slice(&[0x3E, 0x01, 0xE0, 0x50]);
    let mut rom = image(&[], 0x100);
    rom[0] = 0xAB;
    let cart = khangboy::rom::rom_from_bytes(&rom).unwrap();
    let bootrom = khangboy::components::Bootrom::new(&boot).unwrap();
    let mut gb = Gameboy::new(cart, bootrom);
    assert_eq!(gb.components.read_passive(0x0000), 0x3E);
    steps(&mut gb, 3);
    assert!(gb.components.bootrom_disabled);
    assert_eq!(gb.components.read_passive(0x0000), 0xAB);
    assert_eq!(gb.components.read(0x0000), rom[0]);
}

#[test]
fn bootrom_disable_is_sticky() {
    let mut gb = machine(&[]);
    gb.components.bootrom_disabled = false;
    gb.components.write_passive(0xFF50, 0x00);
    assert!(!gb.components.bootrom_disabled);
    gb.components.write_passive(0xFF50, 0x01);
    gb.components.write_passive(0xFF50, 0x00);
    assert!(gb.components.bootrom_disabled);
}

#[test]
fn serial_bytes_reach_the_sink() {
    // LD A,'O'; LDH (01),A; LD A,'K'; LDH (01),A
    let mut gb = machine(&[0x3E, b'O', 0xE0, 0x01, 0x3E, b'K', 0xE0, 0x01, 0x76]);
    steps(&mut gb, 5);
    assert_eq!(gb.take_serial_output(), b"OK".to_vec());
    assert!(gb.take_serial_output().is_empty());
}

#[test]
fn run_reaches_requested_cycles() {
    let mut gb = machine(&[0x00, 0x18, 0xFD]);
    let n = gb.run(1000);
    assert!(n >= 1000 && n < 1011);
    assert_eq!(gb.components.cycle, n);
}

#[test]
fn lcd_off_shows_blank_frame() {
    let mut gb = machine(&[0x18, 0xFE]);
    gb.run(154 * 114);
    gb.components.ppu.framebuffer[0] = 3;
    assert_eq!(gb.framebuffer()[0], 3);
    gb.components.write_passive(0xFF40, 0x11);
    let fb = gb.framebuffer();
    assert_eq!(fb.len(), 160 * 144);
    assert!(fb.iter().all(|&p| p == 0));
}

#[test]
fn writes_to_ly_and_unlisted_registers_change_nothing() {
    let mut gb = machine(&[]);
    let ly = gb.components.ppu.lcd_y;
    gb.components.write_passive(0xFF44, 0x77);
    gb.components.write_passive(0xFF4C, 0x77);
    gb.components.write_passive(0xFF03, 0x77);
    assert_eq!(gb.components.ppu.lcd_y, ly);
    assert_eq!(gb.components.read_passive(0xFF4C), 0xFF);
    assert_eq!(gb.components.interrupt_flag, 0);
}

#[test]
fn pacing_waits_for_a_full_slice() {
    assert_eq!(cycles_to_run(100, 90, 20), None);
    assert_eq!(cycles_to_run(100, 80, 20), Some(20));
    assert_eq!(cycles_to_run(50, 80, 20), None);
    assert_eq!(cycles_to_run(5000, 0, 2048), Some(5000));
}

use vstd::prelude::*;
use crate::util::bit8;

verus! {

/// The flag byte F: Z (bit 7), N (6), H (5), C (4); bits 0-3 are zero.
pub open spec fn flags(z: bool, n: bool, h: bool, c: bool) -> u8 {
    (if z { 0x80u8 } else { 0u8 }) | (if n { 0x40u8 } else { 0u8 }) | (if h { 0x20u8 } else { 0u8 })
        | (if c { 0x10u8 } else { 0u8 })
}

pub proof fn lemma_flags(z: bool, n: bool, h: bool, c: bool)
    by (bit_vector)
    ensures
        flags(z, n, h, c) & 0x0F == 0,
        bit8(flags(z, n, h, c), 7) == z,
        bit8(flags(z, n, h, c), 6) == n,
        bit8(flags(z, n, h, c), 5) == h,
        bit8(flags(z, n, h, c), 4) == c,
{
}

/// Packs the four flags into F.
pub fn make_flags(z: bool, n: bool, h: bool, c: bool) -> (r: u8)
    ensures
        r == flags(z, n, h, c),
        r & 0x0F == 0,
        bit8(r, 7) == z,
        bit8(r, 6) == n,
        bit8(r, 5) == h,
        bit8(r, 4) == c,
{
    proof {
        lemma_flags(z, n, h, c);
    }
    (if z { 0x80u8 } else { 0u8 }) | (if n { 0x40u8 } else { 0u8 }) | (if h { 0x20u8 } else { 0u8 })
        | (if c { 0x10u8 } else { 0u8 })
}

pub open spec fn carry_bit(c: bool) -> int {
    if c {
        1
    } else {
        0
    }
}

/// ADD/ADC: the sum mod 256; H from the low nibbles plus the carry in, C
/// from the full sum.
pub open spec fn add8_spec(a: u8, v: u8, cin: bool) -> (u8, u8) {
    let sum = a as int + v as int + carry_bit(cin);
    let r = (sum % 256) as u8;
    (r, flags(r == 0, false, (a % 16) as int + (v % 16) as int + carry_bit(cin) > 15, sum > 255))
}

/// SUB/SBC/CP: the difference mod 256; H and C are the borrows out of the
/// low nibble and out of the byte.
pub open spec fn sub8_spec(a: u8, v: u8, cin: bool) -> (u8, u8) {
    let diff = a as int - v as int - carry_bit(cin);
    let r = ((diff + 256) % 256) as u8;
    (r, flags(r == 0, true, ((a % 16) as int) < (v % 16) as int + carry_bit(cin), diff < 0))
}

pub open spec fn and8_spec(a: u8, v: u8) -> (u8, u8) {
    (a & v, flags(a & v == 0, false, true, false))
}

pub open spec fn or8_spec(a: u8, v: u8) -> (u8, u8) {
    (a | v, flags(a | v == 0, false, false, false))
}

pub open spec fn xor8_spec(a: u8, v: u8) -> (u8, u8) {
    (a ^ v, flags(a ^ v == 0, false, false, false))
}

/// INC r: C is kept.
pub open spec fn inc8_spec(v: u8, c: bool) -> (u8, u8) {
    let r = ((v as int + 1) % 256) as u8;
    (r, flags(r == 0, false, v % 16 == 15, c))
}

/// DEC r: C is kept.
pub open spec fn dec8_spec(v: u8, c: bool) -> (u8, u8) {
    let r = ((v as int + 255) % 256) as u8;
    (r, flags(r == 0, true, v % 16 == 0, c))
}

/// DAA: corrects A after a BCD addition or subtraction. The low correction
/// 0x06 applies with H, or after an addition whose low nibble is over 9;
/// the high correction 0x60 (which sets C) with C, or after an addition with
/// A over 0x99. N is kept, H cleared, Z from the result.
pub open spec fn daa_spec(a: u8, f: u8) -> (u8, u8) {
    let n = bit8(f, 6);
    let low = bit8(f, 5) || (!n && a % 16 > 9);
    let carry = bit8(f, 4) || (!n && a > 0x99);
    let corr = (if low { 6int } else { 0 }) + (if carry { 0x60int } else { 0 });
    let r = (if n { (a as int - corr + 256) % 256 } else { (a as int + corr) % 256 }) as u8;
    (r, flags(r == 0, n, false, carry))
}

/// The eight CB shift/rotate kinds, by bits 3-5 of the CB opcode: RLC, RRC,
/// RL, RR, SLA, SRA, SWAP, SRL. Gives the result and the carry out.
pub open spec fn shift_spec(kind: u8, v: u8, cin: bool) -> (u8, bool) {
    let v = v as int;
    let (r, c) = if kind == 0 {
        ((v * 2) % 256 + v / 128, v >= 128)
    } else if kind == 1 {
        (v / 2 + (v % 2) * 128, v % 2 == 1)
    } else if kind == 2 {
        ((v * 2) % 256 + carry_bit(cin), v >= 128)
    } else if kind == 3 {
        (v / 2 + carry_bit(cin) * 128, v % 2 == 1)
    } else if kind == 4 {
        ((v * 2) % 256, v >= 128)
    } else if kind == 5 {
        (v / 2 + (v / 128) * 128, v % 2 == 1)
    } else if kind == 6 {
        ((v % 16) * 16 + v / 16, false)
    } else {
        (v / 2, v % 2 == 1)
    };
    (r as u8, c)
}

/// ADD HL, rr: Z is kept, H from bit 11, C from bit 15.
pub open spec fn add16_spec(hl: u16, v: u16, z: bool) -> (u16, u8) {
    let sum = hl as int + v as int;
    ((sum % 65536) as u16, flags(z, false, (hl % 4096) as int + (v % 4096) as int > 4095, sum > 65535))
}

/// ADD SP, e and LD HL, SP+e: SP plus the signed byte; H and C come from
/// the unsigned addition of the byte to SP's low byte. Z and N are cleared.
pub open spec fn add_sp_spec(sp: u16, e: u8) -> (u16, u8) {
    let offset = if e < 128 { e as int } else { e as int - 256 };
    let r = ((sp as int + offset + 65536) % 65536) as u16;
    (r, flags(false, false, (sp % 16) as int + (e % 16) as int > 15, (sp % 256) as int + e as int > 255))
}

pub fn add8(a: u8, v: u8, cin: bool) -> (r: (u8, u8))
    ensures
        r == add8_spec(a, v, cin),
        r.1 & 0x0F == 0,
{
    let c: u16 = if cin { 1 } else { 0 };
    let sum: u16 = a as u16 + v as u16 + c;
    let r = (sum % 256) as u8;
    let h = (a % 16) as u16 + (v % 16) as u16 + c > 15;
    (r, make_flags(r == 0, false, h, sum > 255))
}

pub fn sub8(a: u8, v: u8, cin: bool) -> (r: (u8, u8))
    ensures
        r == sub8_spec(a, v, cin),
        r.1 & 0x0F == 0,
{
    let c: i16 = if cin { 1 } else { 0 };
    let diff: i16 = a as i16 - v as i16 - c;
    let r = ((diff + 256) % 256) as u8;
    let h = ((a % 16) as i16) < (v % 16) as i16 + c;
    (r, make_flags(r == 0, true, h, diff < 0))
}

pub fn and8(a: u8, v: u8) -> (r: (u8, u8))
    ensures
        r == and8_spec(a, v),
        r.1 & 0x0F == 0,
{
    (a & v, make_flags(a & v == 0, false, true, false))
}

pub fn or8(a: u8, v: u8) -> (r: (u8, u8))
    ensures
        r == or8_spec(a, v),
        r.1 & 0x0F == 0,
{
    (a | v, make_flags(a | v == 0, false, false, false))
}

pub fn xor8(a: u8, v: u8) -> (r: (u8, u8))
    ensures
        r == xor8_spec(a, v),
        r.1 & 0x0F == 0,
{
    (a ^ v, make_flags(a ^ v == 0, false, false, false))
}

pub fn inc8(v: u8, c: bool) -> (r: (u8, u8))
    ensures
        r == inc8_spec(v, c),
        r.1 & 0x0F == 0,
{
    let r = ((v as u16 + 1) % 256) as u8;
    (r, make_flags(r == 0, false, v % 16 == 15, c))
}

pub fn dec8(v: u8, c: bool) -> (r: (u8, u8))
    ensures
        r == dec8_spec(v, c),
        r.1 & 0x0F == 0,
{
    let r = ((v as u16 + 255) % 256) as u8;
    (r, make_flags(r == 0, true, v % 16 == 0, c))
}

pub fn daa(a: u8, f: u8) -> (r: (u8, u8))
    ensures
        r == daa_spec(a, f),
        r.1 & 0x0F == 0,
{
    proof {
        crate::util::lemma_bit_masks(f);
    }
    let n = f & 0x40 != 0;
    let low = f & 0x20 != 0 || (!n && a % 16 > 9);
    let carry = f & 0x10 != 0 || (!n && a > 0x99);
    let corr: i16 = (if low { 6i16 } else { 0i16 }) + (if carry { 0x60i16 } else { 0i16 });
    let r: u8 = if n {
        ((a as i16 - corr + 256) % 256) as u8
    } else {
        ((a as i16 + corr) % 256) as u8
    };
    (r, make_flags(r == 0, n, false, carry))
}

pub fn shift(kind: u8, v: u8, cin: bool) -> (r: (u8, bool))
    requires
        kind < 8,
    ensures
        r == shift_spec(kind, v, cin),
{
    let w = v as u16;
    let c: u16 = if cin { 1 } else { 0 };
    let (r, out): (u16, bool) = if kind == 0 {
        ((w * 2) % 256 + w / 128, w >= 128)
    } else if kind == 1 {
        (w / 2 + (w % 2) * 128, w % 2 == 1)
    } else if kind == 2 {
        ((w * 2) % 256 + c, w >= 128)
    } else if kind == 3 {
        (w / 2 + c * 128, w % 2 == 1)
    } else if kind == 4 {
        ((w * 2) % 256, w >= 128)
    } else if kind == 5 {
        (w / 2 + (w / 128) * 128, w % 2 == 1)
    } else if kind == 6 {
        ((w % 16) * 16 + w / 16, false)
    } else {
        (w / 2, w % 2 == 1)
    };
    (r as u8, out)
}

pub fn add16(hl: u16, v: u16, z: bool) -> (r: (u16, u8))
    ensures
        r == add16_spec(hl, v, z),
        r.1 & 0x0F == 0,
{
    let sum: u32 = hl as u32 + v as u32;
    let h = (hl % 4096) as u32 + (v % 4096) as u32 > 4095;
    ((sum % 65536) as u16, make_flags(z, false, h, sum > 65535))
}

pub fn add_sp(sp: u16, e: u8) -> (r: (u16, u8))
    ensures
        r == add_sp_spec(sp, e),
        r.1 & 0x0F == 0,
{
    let offset: i32 = if e < 128 { e as i32 } else { e as i32 - 256 };
    let r = ((sp as i32 + offset + 65536) % 65536) as u16;
    let h = (sp % 16) as u16 + (e % 16) as u16 > 15;
    let c = (sp % 256) as u16 + e as u16 > 255;
    (r, make_flags(false, false, h, c))
}

} // verus!

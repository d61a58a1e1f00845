use vstd::prelude::*;

verus! {

/// The value of bit `bit` of `x`.
pub open spec fn bit8(x: u8, bit: u8) -> bool {
    (x >> bit) & 1 == 1
}

/// The value of bit `bit` of `x`.
pub open spec fn bit16(x: u16, bit: u8) -> bool {
    (x >> bit) & 1 == 1
}

/// Each single-bit mask of a byte tests the bit of that number.
pub proof fn lemma_bit_masks(x: u8)
    by (bit_vector)
    ensures
        (x & 0x01 != 0) == bit8(x, 0),
        (x & 0x02 != 0) == bit8(x, 1),
        (x & 0x04 != 0) == bit8(x, 2),
        (x & 0x08 != 0) == bit8(x, 3),
        (x & 0x10 != 0) == bit8(x, 4),
        (x & 0x20 != 0) == bit8(x, 5),
        (x & 0x40 != 0) == bit8(x, 6),
        (x & 0x80 != 0) == bit8(x, 7),
        x & 3 < 4,
        x & 7 < 8,
{
}

/// Bounds of the low-bit masks used to index memories.
pub proof fn lemma_addr_masks(a: u16)
    by (bit_vector)
    ensures
        a & 0xF < 0x10,
        a & 0x7F < 0x80,
        a & 0xFF < 0x100,
        a & 0x1FFF < 0x2000,
        a & 0x3FFF < 0x4000,
        a & 0x7FFF < 0x8000,
{
}

/// Bounds of the low-bit masks used to index memories.
pub proof fn lemma_index_masks(a: usize)
    by (bit_vector)
    ensures
        a & 0x3FF < 0x400,
        a & 0x3FF == a % 0x400,
        a & 0x1FFF < 0x2000,
        a & 0x1FFF == a % 0x2000,
{
}

/// Keeping every set bit of a byte is transitive.
pub proof fn lemma_keeps_bits(a: u8, b: u8, c: u8)
    by (bit_vector)
    requires
        b & a == a,
        c & b == b,
    ensures
        c & a == a,
{
}

/// ORing bits in keeps the bits that were set.
pub proof fn lemma_or_keeps(a: u8, b: u8)
    by (bit_vector)
    ensures
        (a | b) & a == a,
{
}

/// Single-bit access on fixed-width words.
pub trait BitIndex: Sized {
    /// Number of bits in the word.
    spec fn width() -> u8;

    /// Whether bit `bit` is set.
    spec fn bit_of(self, bit: u8) -> bool;

    fn test(self, bit: u8) -> (r: bool)
        requires
            bit < Self::width(),
        ensures
            r == self.bit_of(bit),
    ;

    fn set(self, bit: u8, val: bool) -> (r: Self)
        requires
            bit < Self::width(),
        ensures
            r.bit_of(bit) == val,
            forall|i: u8| i < Self::width() && i != bit ==> r.bit_of(i) == self.bit_of(i),
    ;
}

impl BitIndex for u8 {
    open spec fn width() -> u8 {
        8
    }

    open spec fn bit_of(self, bit: u8) -> bool {
        bit8(self, bit)
    }

    fn test(self, bit: u8) -> (r: bool) {
        let r = self & (1u8 << bit) != 0;
        assert(r == bit8(self, bit)) by (bit_vector)
            requires
                bit < 8,
                r == (self & (1u8 << bit) != 0),
        ;
        r
    }

    fn set(self, bit: u8, val: bool) -> (r: Self) {
        let v: u8 = if val { 1 } else { 0 };
        let r = (self & !(1u8 << bit)) | (v << bit);
        assert(bit8(r, bit) == (v == 1) && forall|i: u8|
            i < 8 && i != bit ==> bit8(r, i) == bit8(self, i)) by (bit_vector)
            requires
                bit < 8,
                v <= 1,
                r == (self & !(1u8 << bit)) | (v << bit),
        ;
        r
    }
}

impl BitIndex for u16 {
    open spec fn width() -> u8 {
        16
    }

    open spec fn bit_of(self, bit: u8) -> bool {
        bit16(self, bit)
    }

    fn test(self, bit: u8) -> (r: bool) {
        let r = self & (1u16 << bit) != 0;
        assert(r == bit16(self, bit)) by (bit_vector)
            requires
                bit < 16,
                r == (self & (1u16 << bit) != 0),
        ;
        r
    }

    fn set(self, bit: u8, val: bool) -> (r: Self) {
        let v: u16 = if val { 1 } else { 0 };
        let r = (self & !(1u16 << bit)) | (v << bit);
        assert(bit16(r, bit) == (v == 1) && forall|i: u8|
            i < 16 && i != bit ==> bit16(r, i) == bit16(self, i)) by (bit_vector)
            requires
                bit < 16,
                v <= 1,
                r == (self & !(1u16 << bit)) | (v << bit),
        ;
        r
    }
}

} // verus!

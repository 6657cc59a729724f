use vstd::prelude::*;

verus! {

/// The bits `0..n` set and every other bit clear.
pub open spec fn low_mask(n: u64) -> u64 {
    if n >= 64 {
        0xffff_ffff_ffff_ffffu64
    } else {
        ((1u64 << n) - 1) as u64
    }
}

/// An unsigned integer type that can hold the bits of a flag group.
pub trait Repr: Sized + Copy {
    /// Number of bits of the type.
    spec fn width() -> nat;

    /// The value, widened to 64 bits.
    spec fn as_bits(self) -> u64;

    /// No representation is wider than 64 bits.
    proof fn lemma_width_bound()
        ensures
            Self::width() <= 64,
    ;

    /// Number of bits of the type, at run time.
    fn bit_width() -> (r: u32)
        ensures
            r as nat == Self::width(),
    ;

    fn zero() -> (r: Self)
        ensures
            r.as_bits() == 0,
    ;

    fn bit(i: u32) -> (r: Self)
        requires
            i < Self::width(),
        ensures
            r.as_bits() == 1u64 << i,
    ;

    fn or(self, other: Self) -> (r: Self)
        ensures
            r.as_bits() == self.as_bits() | other.as_bits(),
    ;

    fn and(self, other: Self) -> (r: Self)
        ensures
            r.as_bits() == self.as_bits() & other.as_bits(),
    ;

    fn xor(self, other: Self) -> (r: Self)
        ensures
            r.as_bits() == self.as_bits() ^ other.as_bits(),
    ;

    fn same(self, other: Self) -> (r: bool)
        ensures
            r == (self.as_bits() == other.as_bits()),
    ;

    fn is_zero(self) -> (r: bool)
        ensures
            r == (self.as_bits() == 0),
    ;
}

impl Repr for u8 {
    proof fn lemma_width_bound() {
    }

    fn bit_width() -> (r: u32) {
        8
    }

    open spec fn width() -> nat {
        8
    }

    open spec fn as_bits(self) -> u64 {
        self as u64
    }

    fn zero() -> (r: Self) {
        0
    }

    fn bit(i: u32) -> (r: Self) {
        assert((1u8 << i) as u64 == 1u64 << i) by (bit_vector)
            requires
                i < 8,
        ;
        1u8 << i
    }

    fn or(self, other: Self) -> (r: Self) {
        let (a, b) = (self, other);
        assert((a | b) as u64 == (a as u64) | (b as u64)) by (bit_vector);
        a | b
    }

    fn and(self, other: Self) -> (r: Self) {
        let (a, b) = (self, other);
        assert((a & b) as u64 == (a as u64) & (b as u64)) by (bit_vector);
        a & b
    }

    fn xor(self, other: Self) -> (r: Self) {
        let (a, b) = (self, other);
        assert((a ^ b) as u64 == (a as u64) ^ (b as u64)) by (bit_vector);
        a ^ b
    }

    fn same(self, other: Self) -> (r: bool) {
        self == other
    }

    fn is_zero(self) -> (r: bool) {
        self == 0
    }
}

impl Repr for u16 {
    proof fn lemma_width_bound() {
    }

    fn bit_width() -> (r: u32) {
        16
    }

    open spec fn width() -> nat {
        16
    }

    open spec fn as_bits(self) -> u64 {
        self as u64
    }

    fn zero() -> (r: Self) {
        0
    }

    fn bit(i: u32) -> (r: Self) {
        assert((1u16 << i) as u64 == 1u64 << i) by (bit_vector)
            requires
                i < 16,
        ;
        1u16 << i
    }

    fn or(self, other: Self) -> (r: Self) {
        let (a, b) = (self, other);
        assert((a | b) as u64 == (a as u64) | (b as u64)) by (bit_vector);
        a | b
    }

    fn and(self, other: Self) -> (r: Self) {
        let (a, b) = (self, other);
        assert((a & b) as u64 == (a as u64) & (b as u64)) by (bit_vector);
        a & b
    }

    fn xor(self, other: Self) -> (r: Self) {
        let (a, b) = (self, other);
        assert((a ^ b) as u64 == (a as u64) ^ (b as u64)) by (bit_vector);
        a ^ b
    }

    fn same(self, other: Self) -> (r: bool) {
        self == other
    }

    fn is_zero(self) -> (r: bool) {
        self == 0
    }
}

impl Repr for u32 {
    proof fn lemma_width_bound() {
    }

    fn bit_width() -> (r: u32) {
        32
    }

    open spec fn width() -> nat {
        32
    }

    open spec fn as_bits(self) -> u64 {
        self as u64
    }

    fn zero() -> (r: Self) {
        0
    }

    fn bit(i: u32) -> (r: Self) {
        assert((1u32 << i) as u64 == 1u64 << i) by (bit_vector)
            requires
                i < 32,
        ;
        1u32 << i
    }

    fn or(self, other: Self) -> (r: Self) {
        let (a, b) = (self, other);
        assert((a | b) as u64 == (a as u64) | (b as u64)) by (bit_vector);
        a | b
    }

    fn and(self, other: Self) -> (r: Self) {
        let (a, b) = (self, other);
        assert((a & b) as u64 == (a as u64) & (b as u64)) by (bit_vector);
        a & b
    }

    fn xor(self, other: Self) -> (r: Self) {
        let (a, b) = (self, other);
        assert((a ^ b) as u64 == (a as u64) ^ (b as u64)) by (bit_vector);
        a ^ b
    }

    fn same(self, other: Self) -> (r: bool) {
        self == other
    }

    fn is_zero(self) -> (r: bool) {
        self == 0
    }
}

impl Repr for u64 {
    proof fn lemma_width_bound() {
    }

    fn bit_width() -> (r: u32) {
        64
    }

    open spec fn width() -> nat {
        64
    }

    open spec fn as_bits(self) -> u64 {
        self
    }

    fn zero() -> (r: Self) {
        0
    }

    fn bit(i: u32) -> (r: Self) {
        1u64 << i
    }

    fn or(self, other: Self) -> (r: Self) {
        self | other
    }

    fn and(self, other: Self) -> (r: Self) {
        self & other
    }

    fn xor(self, other: Self) -> (r: Self) {
        self ^ other
    }

    fn same(self, other: Self) -> (r: bool) {
        self == other
    }

    fn is_zero(self) -> (r: bool) {
        self == 0
    }
}

} // verus!

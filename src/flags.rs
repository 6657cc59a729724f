use core::marker::PhantomData;
use vstd::prelude::*;

use crate::member::{FlagSet, SetMember};
use crate::repr::{low_mask, Repr};

verus! {

/// Adding bit `i` to the bits below it gives the bits below `i + 1`.
proof fn lemma_mask_grows(i: u64)
    requires
        i < 64,
    ensures
        low_mask(i) | (1u64 << i) == low_mask((i + 1) as u64),
{
    if i + 1 >= 64 {
        assert(i == 63);
        assert((((1u64 << 63u64) - 1) as u64) | (1u64 << 63u64) == 0xffff_ffff_ffff_ffffu64)
            by (bit_vector);
    } else {
        assert(i + 1 < 64 ==> (((1u64 << i) - 1) as u64) | (1u64 << i) == (((1u64 << ((i
            + 1) as u64)) - 1) as u64)) by (bit_vector);
    }
}

/// Bit `i` lies under the mask of the first `n` bits when `i < n`.
proof fn lemma_bit_under_mask(i: u64, n: u64)
    requires
        i < n,
    ensures
        (1u64 << i) & !low_mask(n) == 0,
{
    if n >= 64 {
        assert((1u64 << i) & !0xffff_ffff_ffff_ffffu64 == 0) by (bit_vector);
    } else {
        assert(i < n && n < 64 ==> (1u64 << i) & !(((1u64 << n) - 1) as u64) == 0)
            by (bit_vector);
    }
}

/// Bitwise operations keep a word under a mask.
proof fn lemma_ops_under_mask(a: u64, b: u64, m: u64)
    requires
        a & !m == 0,
        b & !m == 0,
    ensures
        (a | b) & !m == 0,
        (a & b) & !m == 0,
        (a ^ b) & !m == 0,
{
    assert(a & !m == 0 && b & !m == 0 ==> (a | b) & !m == 0 && (a & b) & !m == 0 && (a ^ b) & !m
        == 0) by (bit_vector);
}

/// Why a flag group's declaration is refused.
#[derive(Debug, Clone, Copy, PartialEq, Eq, Structural)]
pub enum DeclarationError {
    /// The group declares more flags than its representation has bits.
    TooManyFlags,
}

/// The flag-set container of a group tagged `G`, held in the unsigned
/// integer type `R`, with `N` declared flags (flag `i` is bit `i`).
#[derive(Debug)]
pub struct Flags<G, R: Repr, const N: u32> {
    repr: R,
    group: PhantomData<G>,
}

impl<G, R: Repr, const N: u32> Flags<G, R, N> {
    /// Only the bits of declared flags are ever set.
    #[verifier::type_invariant]
    spec fn well_formed(self) -> bool {
        self.repr.as_bits() & !low_mask(N as u64) == 0
    }

    fn from_repr(repr: R) -> (r: Self)
        requires
            repr.as_bits() & !low_mask(N as u64) == 0,
        ensures
            r.bits() == repr.as_bits(),
    {
        Flags { repr, group: PhantomData }
    }

    /// Accepts the declaration when its flags fit in the representation.
    pub fn check_declaration() -> (r: Result<(), DeclarationError>)
        ensures
            r is Ok <==> Self::fits(),
            r is Err ==> r == Err::<(), DeclarationError>(DeclarationError::TooManyFlags),
    {
        if N <= R::bit_width() {
            Ok(())
        } else {
            Err(DeclarationError::TooManyFlags)
        }
    }

    /// Whether no flag is set.
    pub fn is_empty(&self) -> (r: bool)
        ensures
            r == (self.bits() == 0),
    {
        self.repr.is_zero()
    }

    /// Whether `other` is held by this set, as `other.in_set` decides.
    pub fn contains<M: SetMember<Set = Self>>(&self, other: M) -> (r: bool)
        requires
            M::declared(),
        ensures
            r == other.member_in(self.bits()),
    {
        other.in_set(self)
    }

    /// Whether `other` stands for exactly this set.
    pub fn equals<M: SetMember<Set = Self>>(&self, other: M) -> (r: bool)
        requires
            M::declared(),
        ensures
            r == (other.member_bits() == self.bits()),
    {
        other.eq_set(self)
    }

    /// Whether this set and `other` share a flag.
    pub fn intersects<M: SetMember<Set = Self>>(&self, other: M) -> (r: bool)
        requires
            M::declared(),
        ensures
            r == (self.bits() & other.member_bits() != 0),
    {
        let o = other.to_set();
        !self.intersection(&o).is_empty()
    }

    /// The union of every declared flag; with no flag declared, the empty set.
    pub fn all() -> (r: Self)
        requires
            Self::fits(),
        ensures
            r.bits() == low_mask(N as u64),
    {
        let mut acc = Self::empty();
        let mut i: u32 = 0;
        assert(low_mask(0) == 0) by (bit_vector);
        while i < N
            invariant
                i <= N,
                Self::fits(),
                acc.bits() == low_mask(i as u64),
            decreases N - i,
        {
            let f = Self::flag(i);
            acc = acc.union(&f);
            proof {
                R::lemma_width_bound();
                lemma_mask_grows(i as u64);
            }
            i = i + 1;
        }
        acc
    }

    /// Flags in this set and in `rhs`.
    pub fn bitand<M: SetMember<Set = Self>>(self, rhs: M) -> (r: Self)
        requires
            M::declared(),
        ensures
            r.bits() == self.bits() & rhs.member_bits(),
    {
        self.intersection(&rhs.to_set())
    }

    /// Flags in this set or in `rhs`.
    pub fn bitor<M: SetMember<Set = Self>>(self, rhs: M) -> (r: Self)
        requires
            M::declared(),
        ensures
            r.bits() == self.bits() | rhs.member_bits(),
    {
        self.union(&rhs.to_set())
    }

    /// Flags in exactly one of this set and `rhs`.
    pub fn bitxor<M: SetMember<Set = Self>>(self, rhs: M) -> (r: Self)
        requires
            M::declared(),
        ensures
            r.bits() == self.bits() ^ rhs.member_bits(),
    {
        let o = rhs.to_set();
        proof {
            use_type_invariant(&self);
            use_type_invariant(&o);
            lemma_ops_under_mask(self.bits(), o.bits(), low_mask(N as u64));
        }
        Self::from_repr(self.repr.xor(o.repr))
    }

    /// Keeps only the flags also in `rhs`.
    pub fn bitand_assign<M: SetMember<Set = Self>>(&mut self, rhs: M)
        requires
            M::declared(),
        ensures
            final(self).bits() == old(self).bits() & rhs.member_bits(),
    {
        *self = self.intersection(&rhs.to_set());
    }

    /// Adds the flags of `rhs`.
    pub fn bitor_assign<M: SetMember<Set = Self>>(&mut self, rhs: M)
        requires
            M::declared(),
        ensures
            final(self).bits() == old(self).bits() | rhs.member_bits(),
    {
        *self = self.union(&rhs.to_set());
    }

    /// Toggles the flags of `rhs`.
    pub fn bitxor_assign<M: SetMember<Set = Self>>(&mut self, rhs: M)
        requires
            M::declared(),
        ensures
            final(self).bits() == old(self).bits() ^ rhs.member_bits(),
    {
        let o = rhs.to_set();
        proof {
            use_type_invariant(&*self);
            use_type_invariant(&o);
            lemma_ops_under_mask(self.bits(), o.bits(), low_mask(N as u64));
        }
        *self = Self::from_repr(self.repr.xor(o.repr));
    }
}

impl<G, R: Repr, const N: u32> FlagSet for Flags<G, R, N> {
    open spec fn fits() -> bool {
        N <= R::width()
    }

    open spec fn count() -> nat {
        N as nat
    }

    closed spec fn bits(&self) -> u64 {
        self.repr.as_bits()
    }

    proof fn lemma_count_bound() {
        R::lemma_width_bound();
    }

    fn flag(index: u32) -> (r: Self) {
        proof {
            lemma_bit_under_mask(index as u64, N as u64);
        }
        Self::from_repr(R::bit(index))
    }

    fn empty() -> (r: Self) {
        let z = R::zero();
        assert(0u64 & !low_mask(N as u64) == 0) by (bit_vector);
        Self::from_repr(z)
    }

    fn union(&self, other: &Self) -> (r: Self) {
        proof {
            use_type_invariant(self);
            use_type_invariant(other);
            lemma_ops_under_mask(self.bits(), other.bits(), low_mask(N as u64));
        }
        Self::from_repr(self.repr.or(other.repr))
    }

    fn intersection(&self, other: &Self) -> (r: Self) {
        proof {
            use_type_invariant(self);
            use_type_invariant(other);
            lemma_ops_under_mask(self.bits(), other.bits(), low_mask(N as u64));
        }
        Self::from_repr(self.repr.and(other.repr))
    }

    fn same(&self, other: &Self) -> (r: bool) {
        self.repr.same(other.repr)
    }
}

impl<G, R: Repr, const N: u32> SetMember for Flags<G, R, N> {
    type Set = Self;

    open spec fn declared() -> bool {
        true
    }

    open spec fn member_bits(&self) -> u64 {
        self.bits()
    }

    open spec fn member_in(&self, set: u64) -> bool {
        set & self.bits() == self.bits()
    }

    open spec fn default_bits() -> u64 {
        0
    }

    open spec fn default_in(set: u64) -> bool {
        set & 0 == 0u64
    }

    fn to_set(&self) -> (r: Self) {
        *self
    }

    fn eq_set(&self, set: &Self) -> (r: bool) {
        self.same(set)
    }

    fn in_set(&self, set: &Self) -> (r: bool) {
        set.intersection(self).same(self)
    }

    fn default_set() -> (r: Self) {
        Self::empty()
    }

    fn default_in_set(set: &Self) -> (r: bool) {
        set.intersection(&Self::empty()).same(&Self::empty())
    }
}

impl<G, R: Repr, const N: u32> Clone for Flags<G, R, N> {
    fn clone(&self) -> (r: Self)
        ensures
            r.bits() == self.bits(),
    {
        proof {
            use_type_invariant(self);
        }
        Self::from_repr(self.repr)
    }
}

impl<G, R: Repr, const N: u32> Copy for Flags<G, R, N> {

}

impl<G, R: Repr, const N: u32> Default for Flags<G, R, N> {
    /// The empty set.
    fn default() -> (r: Self)
        ensures
            r.bits() == 0,
    {
        Self::empty()
    }
}

impl<G, R: Repr, const N: u32> PartialEq for Flags<G, R, N> {
    fn eq(&self, other: &Self) -> (r: bool) {
        self.same(other)
    }
}

impl<G, R: Repr, const N: u32> vstd::std_specs::cmp::PartialEqSpecImpl for Flags<G, R, N> {
    open spec fn obeys_eq_spec() -> bool {
        true
    }

    open spec fn eq_spec(&self, other: &Self) -> bool {
        self.bits() == other.bits()
    }
}

} // verus!

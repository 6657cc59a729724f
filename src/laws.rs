use vstd::prelude::*;
use vstd::std_specs::cmp::PartialEqSpec;

use crate::flags::Flags;
use crate::marker::Flag;
use crate::member::{FlagSet, SetMember};
use crate::or::Or;
use crate::repr::{low_mask, Repr};

verus! {

/// Each flag stands for the single bit of its index, so flags with
/// different indices never share a bit.
pub proof fn flags_are_distinct_bits<S: FlagSet, const I: u32, const J: u32>(
    a: Flag<S, I>,
    b: Flag<S, J>,
)
    requires
        Flag::<S, I>::declared(),
        Flag::<S, J>::declared(),
        I != J,
    ensures
        a.member_bits() == 1u64 << I,
        b.member_bits() == 1u64 << J,
        a.member_bits() != 0,
        a.member_bits() & b.member_bits() == 0,
        a.member_bits() != b.member_bits(),
{
    S::lemma_count_bound();
    let (i, j) = (I as u64, J as u64);
    assert(i < 64 && j < 64 && i != j ==> (1u64 << i) & (1u64 << j) == 0 && (1u64 << i) != 0
        && (1u64 << i) != (1u64 << j)) by (bit_vector);
}

/// A set holds a flag exactly when the bit of the flag's index is set.
pub proof fn contains_flag_iff_bit_set<S: FlagSet, const I: u32>(set: S, m: Flag<S, I>)
    requires
        Flag::<S, I>::declared(),
    ensures
        m.member_in(set.bits()) <==> (set.bits() >> I) & 1 == 1,
{
    S::lemma_count_bound();
    let (x, i) = (set.bits(), I as u64);
    assert(i < 64 ==> (x & (1u64 << i) == (1u64 << i) <==> (x >> i) & 1 == 1)) by (bit_vector);
}

/// The union of two members does not depend on their order, whether it is
/// materialised or kept as a combinator.
pub proof fn union_commutes<A: SetMember, B: SetMember<Set = A::Set>>(a: A, b: B)
    ensures
        a.member_bits() | b.member_bits() == b.member_bits() | a.member_bits(),
        Or::<A, B>::default_bits() == Or::<B, A>::default_bits(),
{
    let (x, y) = (a.member_bits(), b.member_bits());
    let (u, v) = (A::default_bits(), B::default_bits());
    assert(x | y == y | x && u | v == v | u) by (bit_vector);
}

/// The union of every flag holds bit `i` exactly when `i` indexes a
/// declared flag.
pub proof fn all_is_every_flag<G, R: Repr, const N: u32>(i: u64)
    requires
        Flags::<G, R, N>::fits(),
        i < 64,
    ensures
        (low_mask(N as u64) >> i) & 1 == 1 <==> i < N,
{
    R::lemma_width_bound();
    let n = N as u64;
    assert(n <= 64 && i < 64 ==> ((low_mask(n) >> i) & 1 == 1 <==> i < n)) by (bit_vector);
}

/// The union of every flag holds each declared flag.
pub proof fn all_contains_each_flag<G, R: Repr, const N: u32, const I: u32>(
    m: Flag<Flags<G, R, N>, I>,
)
    requires
        Flag::<Flags<G, R, N>, I>::declared(),
    ensures
        m.member_in(low_mask(N as u64)),
{
    R::lemma_width_bound();
    let (n, i) = (N as u64, I as u64);
    assert(n <= 64 && i < n ==> low_mask(n) & (1u64 << i) == (1u64 << i)) by (bit_vector);
}

/// A set is empty exactly when it equals the set with no flag.
pub proof fn empty_iff_equals_none<G, R: Repr, const N: u32>(
    s: Flags<G, R, N>,
    none: Flags<G, R, N>,
)
    requires
        none.bits() == 0,
    ensures
        s.bits() == 0 <==> s.eq_spec(&none),
{
}

/// A combinator equals a set only when the set holds exactly the union of
/// its parts: a strict superset does not count.
pub proof fn combinator_equality_is_exact<A: SetMember, B: SetMember<Set = A::Set>>(
    o: Or<A, B>,
    set: A::Set,
)
    ensures
        o.member_bits() == set.bits() <==> set.bits() == A::default_bits() | B::default_bits(),
{
}

/// A combinator of two flags is held by a set when either flag is, even if
/// the other one is missing.
pub proof fn combinator_held_when_either_part<S: FlagSet, const I: u32, const J: u32>(
    o: Or<Flag<S, I>, Flag<S, J>>,
    set: u64,
)
    ensures
        o.member_in(set) <==> (set & (1u64 << I) == 1u64 << I || set & (1u64 << J) == 1u64 << J),
{
}

/// Materialising a flag loses nothing: every marker of a flag stands for
/// the same set, which holds the flag and equals it.
pub proof fn flag_round_trip<S: FlagSet, const I: u32>(m: Flag<S, I>, n: Flag<S, I>)
    requires
        Flag::<S, I>::declared(),
    ensures
        m.member_bits() == n.member_bits(),
        m.member_bits() == Flag::<S, I>::default_bits(),
        m.member_in(m.member_bits()),
{
    let x = m.member_bits();
    assert(x & x == x) by (bit_vector);
}

} // verus!

use core::marker::PhantomData;
use vstd::prelude::*;

use crate::member::{FlagSet, SetMember};

verus! {

/// Type level combinator for bitflags: the union of the members `A` and `B`,
/// each taken in its default state, resolved only when queried.
#[derive(Debug)]
pub struct Or<A, B> {
    parts: PhantomData<(A, B)>,
}

impl<A, B> Clone for Or<A, B> {
    fn clone(&self) -> (r: Self) {
        Or { parts: PhantomData }
    }
}

impl<A, B> Copy for Or<A, B> {

}

impl<A, B> Default for Or<A, B> {
    fn default() -> (r: Self) {
        Or { parts: PhantomData }
    }
}

impl<A: SetMember, B: SetMember<Set = A::Set>> Or<A, B> {
    /// Whether `other` is held by the union this combinator stands for.
    pub fn contains<M: SetMember<Set = A::Set>>(&self, other: M) -> (r: bool)
        requires
            A::declared(),
            B::declared(),
            M::declared(),
        ensures
            r == other.member_in(A::default_bits() | B::default_bits()),
    {
        other.in_set(&self.to_set())
    }

    /// Whether `other` stands for exactly the union this combinator stands for.
    pub fn equals<M: SetMember<Set = A::Set>>(&self, other: M) -> (r: bool)
        requires
            A::declared(),
            B::declared(),
            M::declared(),
        ensures
            r == (other.member_bits() == (A::default_bits() | B::default_bits())),
    {
        other.eq_set(&self.to_set())
    }
}

impl<A: SetMember, B: SetMember<Set = A::Set>> SetMember for Or<A, B> {
    type Set = A::Set;

    open spec fn declared() -> bool {
        A::declared() && B::declared()
    }

    open spec fn member_bits(&self) -> u64 {
        A::default_bits() | B::default_bits()
    }

    /// Held when either part is held on its own, not only when the whole
    /// union is.
    open spec fn member_in(&self, set: u64) -> bool {
        A::default_in(set) || B::default_in(set)
    }

    open spec fn default_bits() -> u64 {
        A::default_bits() | B::default_bits()
    }

    open spec fn default_in(set: u64) -> bool {
        A::default_in(set) || B::default_in(set)
    }

    fn to_set(&self) -> (r: A::Set) {
        Self::default_set()
    }

    fn eq_set(&self, set: &A::Set) -> (r: bool) {
        Self::default_set().same(set)
    }

    fn in_set(&self, set: &A::Set) -> (r: bool) {
        Self::default_in_set(set)
    }

    fn default_set() -> (r: A::Set) {
        let a = A::default_set();
        let b = B::default_set();
        a.union(&b)
    }

    fn default_in_set(set: &A::Set) -> (r: bool) {
        A::default_in_set(set) || B::default_in_set(set)
    }
}

} // verus!

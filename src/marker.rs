use core::marker::PhantomData;
use vstd::prelude::*;

use crate::member::{FlagSet, SetMember};

verus! {

/// The zero-sized marker of the flag with index `I` of the container `S`.
#[derive(Debug)]
pub struct Flag<S, const I: u32> {
    set: PhantomData<S>,
}

impl<S, const I: u32> Clone for Flag<S, I> {
    fn clone(&self) -> (r: Self) {
        Flag { set: PhantomData }
    }
}

impl<S, const I: u32> Copy for Flag<S, I> {

}

impl<S, const I: u32> Default for Flag<S, I> {
    fn default() -> (r: Self) {
        Flag { set: PhantomData }
    }
}

impl<S: FlagSet, const I: u32> SetMember for Flag<S, I> {
    type Set = S;

    open spec fn declared() -> bool {
        S::fits() && I < S::count()
    }

    open spec fn member_bits(&self) -> u64 {
        1u64 << I
    }

    open spec fn member_in(&self, set: u64) -> bool {
        set & (1u64 << I) == 1u64 << I
    }

    open spec fn default_bits() -> u64 {
        1u64 << I
    }

    open spec fn default_in(set: u64) -> bool {
        set & (1u64 << I) == 1u64 << I
    }

    fn to_set(&self) -> (r: S) {
        S::flag(I)
    }

    fn eq_set(&self, set: &S) -> (r: bool) {
        set.same(&S::flag(I))
    }

    fn in_set(&self, set: &S) -> (r: bool) {
        Self::default_in_set(set)
    }

    fn default_set() -> (r: S) {
        S::flag(I)
    }

    fn default_in_set(set: &S) -> (r: bool) {
        let f = S::flag(I);
        set.intersection(&f).same(&f)
    }
}

} // verus!

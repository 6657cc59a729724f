use vstd::prelude::*;

verus! {

/// A materialised flag set: the container type of one flag group.
///
/// Its model is the 64-bit word `bits`, where bit `i` is set exactly when
/// the group's `i`-th declared flag is a member.
pub trait FlagSet: Sized {
    /// The group's flags fit in its representation.
    spec fn fits() -> bool;

    /// Number of flags the group declares.
    spec fn count() -> nat;

    /// The set's bits, widened to 64 bits.
    spec fn bits(&self) -> u64;

    /// A well declared group has at most 64 flags.
    proof fn lemma_count_bound()
        requires
            Self::fits(),
        ensures
            Self::count() <= 64,
    ;

    /// The set holding only the flag with the given index.
    fn flag(index: u32) -> (r: Self)
        requires
            Self::fits(),
            index < Self::count(),
        ensures
            r.bits() == 1u64 << index,
    ;

    /// The set with no flag.
    fn empty() -> (r: Self)
        ensures
            r.bits() == 0,
    ;

    /// Flags in either set.
    fn union(&self, other: &Self) -> (r: Self)
        ensures
            r.bits() == self.bits() | other.bits(),
    ;

    /// Flags in both sets.
    fn intersection(&self, other: &Self) -> (r: Self)
        ensures
            r.bits() == self.bits() & other.bits(),
    ;

    /// Whether both sets hold the same flags.
    fn same(&self, other: &Self) -> (r: bool)
        ensures
            r == (self.bits() == other.bits()),
    ;
}

/// Member of a set of flags: a container, a single flag, or a combination.
///
/// `member_bits` is the set a member stands for and `member_in` what
/// `in_set` answers; `default_bits` and `default_in` are the same for the
/// member in its default state.
pub trait SetMember: Sized {
    type Set: FlagSet;

    /// The member's type is well declared: every flag it names exists.
    spec fn declared() -> bool;

    spec fn member_bits(&self) -> u64;

    spec fn member_in(&self, set: u64) -> bool;

    spec fn default_bits() -> u64;

    spec fn default_in(set: u64) -> bool;

    /// The materialised set this member stands for.
    fn to_set(&self) -> (r: Self::Set)
        requires
            Self::declared(),
        ensures
            r.bits() == self.member_bits(),
    ;

    /// Whether this member stands for exactly `set`.
    fn eq_set(&self, set: &Self::Set) -> (r: bool)
        requires
            Self::declared(),
        ensures
            r == (self.member_bits() == set.bits()),
    ;

    /// Whether this member is held by `set`.
    fn in_set(&self, set: &Self::Set) -> (r: bool)
        requires
            Self::declared(),
        ensures
            r == self.member_in(set.bits()),
    ;

    /// The set this member stands for in its default state.
    fn default_set() -> (r: Self::Set)
        requires
            Self::declared(),
        ensures
            r.bits() == Self::default_bits(),
    ;

    /// Whether this member in its default state is held by `set`.
    fn default_in_set(set: &Self::Set) -> (r: bool)
        requires
            Self::declared(),
        ensures
            r == Self::default_in(set.bits()),
    ;
}

/// The union of `member` and `other`: despite its name, every flag of
/// either member is in the result.
pub fn and_set<A: SetMember, M: SetMember<Set = A::Set>>(member: A, other: M) -> (r: A::Set)
    requires
        A::declared(),
        M::declared(),
    ensures
        r.bits() == member.member_bits() | other.member_bits(),
{
    let a = member.to_set();
    let b = other.to_set();
    a.union(&b)
}

} // verus!

//! The capability set that every ordinal number type shares.

use crate::text::ordinal_text;
use std::fmt::Display;
use std::hash::Hash;
use vstd::prelude::*;
use vstd::std_specs::cmp::{PartialEqSpec, PartialOrdIs, PartialOrdSpec};

verus! {

/// An ordinal number type: a position in a sequence (_first_, _second_, _third_, ...),
/// held in an unsigned integer type.
///
/// The mathematical model of an ordinal is its [offset](Ordinal::offset): the number of
/// ordinals that come before it. The ordinals of one type are exactly the offsets below
/// [`max_int`](Ordinal::max_int): the largest integer of the underlying type is no offset,
/// so that every ordinal can be turned into its 1-based integer.
pub trait Ordinal: Sized + Eq + PartialEq + Ord + PartialOrd + Hash + Clone + Copy + Default {
    /// The integer type by which this ordinal type is represented.
    type IntegerType: Copy + Display;

    /// The largest number that `IntegerType` holds.
    spec fn max_int() -> nat;

    /// The number that an integer of the underlying type stands for.
    spec fn int_value(n: Self::IntegerType) -> nat;

    /// The number of ordinals that come before this one: 0 for the first.
    spec fn offset(self) -> nat;

    /// The ordinal that has `i` ordinals before it.
    spec fn at(i: nat) -> Self
        recommends
            i < Self::max_int(),
    ;

    /// No integer of the underlying type stands for more than `max_int`, and no two
    /// stand for the same number.
    proof fn lemma_int_value(m: Self::IntegerType, n: Self::IntegerType)
        ensures
            Self::int_value(n) <= Self::max_int(),
            Self::int_value(m) == Self::int_value(n) ==> m == n,
    ;

    /// Below `max_int`, every number is the offset of the ordinal made from it.
    proof fn lemma_offset_of_at(i: nat)
        requires
            i < Self::max_int(),
        ensures
            Self::at(i).offset() == i,
    ;

    /// An ordinal is the one that stands at its own offset.
    proof fn lemma_at_of_offset(self)
        requires
            self.offset() < Self::max_int(),
        ensures
            Self::at(self.offset()) == self,
    ;

    /// `==` and the order of two ordinals are those of their offsets.
    proof fn lemma_compare_by_offset(self, other: Self)
        ensures
            Self::obeys_eq_spec(),
            Self::obeys_partial_cmp_spec(),
            self.eq_spec(&other) <==> self.offset() == other.offset(),
            self.is_lt(&other) <==> self.offset() < other.offset(),
            self.is_le(&other) <==> self.offset() <= other.offset(),
            self.is_gt(&other) <==> self.offset() > other.offset(),
            self.is_ge(&other) <==> self.offset() >= other.offset(),
    ;

    /// The first ordinal number.
    fn first() -> (r: Self)
        ensures
            r == Self::at(0),
            r.offset() == 0,
    ;

    /// Computes the ordinal number that comes after this one.
    ///
    /// The last ordinal of the type has no successor: the caller shows that this is not it.
    fn next(self) -> (r: Self)
        requires
            self.offset() + 1 < Self::max_int(),
        ensures
            r == Self::at(self.offset() + 1),
            r.offset() == self.offset() + 1,
    ;

    /// Returns the equivalent integer assuming the ordinal number is 0-based.
    ///
    /// It is never the highest number of that integer type.
    fn into0(self) -> (n: Self::IntegerType)
        ensures
            Self::int_value(n) == self.offset(),
            Self::int_value(n) < Self::max_int(),
    ;

    /// Returns the equivalent integer assuming the ordinal number is 1-based.
    ///
    /// This never overflows: the offset of an ordinal is below the largest integer.
    fn into1(self) -> (n: Self::IntegerType)
        ensures
            Self::int_value(n) == self.offset() + 1,
    ;

    /// Tries to convert an integer to a 0-based ordinal number.
    ///
    /// It returns [None] if the provided number is the highest number of that integer type.
    /// This fails because that number can't be incremented by 1.
    fn try_from0(t: Self::IntegerType) -> (r: Option<Self>)
        ensures
            r == if Self::int_value(t) < Self::max_int() {
                Some(Self::at(Self::int_value(t)))
            } else {
                None
            },
            r matches Some(o) ==> o.offset() == Self::int_value(t),
    ;

    /// Tries to convert an integer to a 1-based ordinal number.
    ///
    /// It returns [None] if the provided number is 0.
    fn try_from1(t: Self::IntegerType) -> (r: Option<Self>)
        ensures
            r == if Self::int_value(t) >= 1 {
                Some(Self::at((Self::int_value(t) - 1) as nat))
            } else {
                None
            },
            r matches Some(o) ==> o.offset() == Self::int_value(t) - 1,
    ;

    /// Converts an integer to a 0-based ordinal number.
    ///
    /// The provided number must not be the highest number of that integer type, which
    /// can't be incremented by 1. Code that is not verified and passes it panics here.
    fn from0(t: Self::IntegerType) -> (r: Self)
        requires
            Self::int_value(t) < Self::max_int(),
        ensures
            r == Self::at(Self::int_value(t)),
            r.offset() == Self::int_value(t),
    {
        Self::try_from0(t).expect("value is too big for this ordinal type")
    }

    /// Converts an integer to a 1-based ordinal number.
    ///
    /// The provided number must not be 0. Code that is not verified and passes 0
    /// panics here.
    fn from1(t: Self::IntegerType) -> (r: Self)
        requires
            Self::int_value(t) >= 1,
        ensures
            r == Self::at((Self::int_value(t) - 1) as nat),
            r.offset() == Self::int_value(t) - 1,
    {
        Self::try_from1(t).expect("0 is not a valid 1-based ordinal.")
    }

    /// Writes the ordinal in English: `first`, `second`, `third`, then the 1-based
    /// numeral with its suffix, as in `4th`, `21st`, `111th`.
    fn to_string(&self) -> (s: String)
        ensures
            s@ == ordinal_text(self.offset() + 1),
    ;
}

/// Whether `o` is an ordinal of its type: its offset is below the largest integer.
///
/// This holds of every ordinal that executable code can hold.
pub open spec fn is_valid<O: Ordinal>(o: O) -> bool {
    o.offset() < O::max_int()
}

/// What [`Ordinal::try_from0`] returns for an integer that stands for `n`.
pub open spec fn try_from0_spec<O: Ordinal>(n: nat) -> Option<O> {
    if n < O::max_int() {
        Some(O::at(n))
    } else {
        None
    }
}

/// What [`Ordinal::try_from1`] returns for an integer that stands for `n`.
pub open spec fn try_from1_spec<O: Ordinal>(n: nat) -> Option<O> {
    if n >= 1 {
        Some(O::at((n - 1) as nat))
    } else {
        None
    }
}

/// Creates a 1-based ordinal number. For example, `ordinal1(4)` is the 4th ordinal number.
pub fn ordinal1<O: Ordinal>(n: O::IntegerType) -> (r: O)
    requires
        O::int_value(n) >= 1,
    ensures
        r == O::at((O::int_value(n) - 1) as nat),
        r.offset() == O::int_value(n) - 1,
{
    O::from1(n)
}

/// Creates a 0-based ordinal number. For example, `ordinal0(4)` is the 5th ordinal number.
pub fn ordinal0<O: Ordinal>(n: O::IntegerType) -> (r: O)
    requires
        O::int_value(n) < O::max_int(),
    ensures
        r == O::at(O::int_value(n)),
        r.offset() == O::int_value(n),
{
    O::from0(n)
}

} // verus!

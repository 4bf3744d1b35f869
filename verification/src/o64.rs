//! Ordinal numbers represented by `u64`.

use crate::ordinal::Ordinal;
use crate::text::ordinal_string;
use std::cmp::Ordering;
use std::ops::{Add, Sub};
use vstd::prelude::*;

verus! {

/// [Ordinal] number represented by [u64]
#[derive(Clone, Copy, Eq, Ord, Hash)]
pub struct O64(u64);

impl O64 {
    /// The stored integer is the offset; it is never the largest `u64`.
    #[verifier::type_invariant]
    spec fn inv(self) -> bool {
        self.0 < u64::MAX
    }
}

impl Ordinal for O64 {
    type IntegerType = u64;

    open spec fn max_int() -> nat {
        u64::MAX as nat
    }

    open spec fn int_value(n: u64) -> nat {
        n as nat
    }

    closed spec fn offset(self) -> nat {
        self.0 as nat
    }

    closed spec fn at(i: nat) -> Self {
        O64(i as u64)
    }

    proof fn lemma_int_value(m: u64, n: u64) {
    }

    proof fn lemma_offset_of_at(i: nat) {
    }

    proof fn lemma_at_of_offset(self) {
    }

    proof fn lemma_compare_by_offset(self, other: Self) {
    }

    fn first() -> (r: Self) {
        O64(0)
    }

    fn next(self) -> (r: Self) {
        Self::from0(self.0 + 1)
    }

    fn into0(self) -> (n: u64) {
        proof {
            use_type_invariant(&self);
        }
        self.0
    }

    fn into1(self) -> (n: u64) {
        proof {
            use_type_invariant(&self);
        }
        self.0 + 1
    }

    fn try_from0(t: u64) -> (r: Option<Self>) {
        if t == u64::MAX {
            None
        } else {
            Some(O64(t))
        }
    }

    fn try_from1(t: u64) -> (r: Option<Self>) {
        match t.checked_sub(1) {
            Some(n) => Some(O64(n)),
            None => None,
        }
    }

    fn to_string(&self) -> (s: String) {
        proof {
            use_type_invariant(self);
        }
        ordinal_string(self.0 as u128 + 1)
    }
}

impl Default for O64 {
    /// The default value is _first_.
    fn default() -> (r: Self)
        ensures
            r == Self::at(0),
            r.offset() == 0,
    {
        O64(0)
    }
}

impl vstd::std_specs::cmp::PartialEqSpecImpl for O64 {
    open spec fn obeys_eq_spec() -> bool {
        true
    }

    open spec fn eq_spec(&self, other: &O64) -> bool {
        self.offset() == other.offset()
    }
}

impl PartialEq for O64 {
    fn eq(&self, other: &O64) -> (r: bool) {
        self.0 == other.0
    }
}

impl vstd::std_specs::cmp::PartialOrdSpecImpl for O64 {
    open spec fn obeys_partial_cmp_spec() -> bool {
        true
    }

    open spec fn partial_cmp_spec(&self, other: &O64) -> Option<Ordering> {
        if self.offset() < other.offset() {
            Some(Ordering::Less)
        } else if self.offset() == other.offset() {
            Some(Ordering::Equal)
        } else {
            Some(Ordering::Greater)
        }
    }
}

impl PartialOrd for O64 {
    fn partial_cmp(&self, other: &O64) -> (r: Option<Ordering>) {
        if self.0 < other.0 {
            Some(Ordering::Less)
        } else if self.0 == other.0 {
            Some(Ordering::Equal)
        } else {
            Some(Ordering::Greater)
        }
    }
}

impl vstd::std_specs::ops::AddSpecImpl<u64> for O64 {
    open spec fn obeys_add_spec() -> bool {
        true
    }

    /// The sum of the offset and `rhs` has to be the offset of an ordinal.
    open spec fn add_req(self, rhs: u64) -> bool {
        self.offset() + rhs < u64::MAX
    }

    open spec fn add_spec(self, rhs: u64) -> O64 {
        O64::at((self.offset() + rhs) as nat)
    }
}

impl Add<u64> for O64 {
    type Output = O64;

    /// The ordinal that comes `rhs` places after this one.
    fn add(self, rhs: u64) -> (r: O64)
        ensures
            r.offset() == self.offset() + rhs,
    {
        Self::from0(self.0.checked_add(rhs).expect("value is too big for this ordinal type"))
    }
}

impl vstd::std_specs::ops::SubSpecImpl<u64> for O64 {
    open spec fn obeys_sub_spec() -> bool {
        true
    }

    /// Nothing comes before the first ordinal: `rhs` is at most the offset.
    open spec fn sub_req(self, rhs: u64) -> bool {
        rhs <= self.offset()
    }

    open spec fn sub_spec(self, rhs: u64) -> O64 {
        O64::at((self.offset() - rhs) as nat)
    }
}

impl Sub<u64> for O64 {
    type Output = O64;

    /// The ordinal that comes `rhs` places before this one.
    fn sub(self, rhs: u64) -> (r: O64)
        ensures
            r.offset() == self.offset() - rhs,
    {
        proof {
            use_type_invariant(&self);
        }
        Self::from0(self.0.checked_sub(rhs).expect("cannot subtract past the first ordinal"))
    }
}

impl vstd::std_specs::ops::SubSpecImpl<O64> for O64 {
    open spec fn obeys_sub_spec() -> bool {
        true
    }

    /// The distance is unsigned: `rhs` does not come after this ordinal.
    open spec fn sub_req(self, rhs: O64) -> bool {
        rhs.offset() <= self.offset()
    }

    open spec fn sub_spec(self, rhs: O64) -> u64 {
        (self.offset() - rhs.offset()) as u64
    }
}

impl Sub<O64> for O64 {
    type Output = u64;

    /// The number of places from `rhs` up to this ordinal.
    fn sub(self, rhs: O64) -> (r: u64)
        ensures
            r == self.offset() - rhs.offset(),
    {
        self.0.checked_sub(rhs.0).expect("cannot subtract a later ordinal from an earlier one")
    }
}

} // verus!

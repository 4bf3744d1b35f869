//! Ordinal numbers represented by `u32`.

use crate::ordinal::Ordinal;
use crate::text::ordinal_string;
use std::cmp::Ordering;
use std::ops::{Add, Sub};
use vstd::prelude::*;

verus! {

/// [Ordinal] number represented by [u32]
#[derive(Clone, Copy, Eq, Ord, Hash)]
pub struct O32(u32);

impl O32 {
    /// The stored integer is the offset; it is never the largest `u32`.
    #[verifier::type_invariant]
    spec fn inv(self) -> bool {
        self.0 < u32::MAX
    }
}

impl Ordinal for O32 {
    type IntegerType = u32;

    open spec fn max_int() -> nat {
        u32::MAX as nat
    }

    open spec fn int_value(n: u32) -> nat {
        n as nat
    }

    closed spec fn offset(self) -> nat {
        self.0 as nat
    }

    closed spec fn at(i: nat) -> Self {
        O32(i as u32)
    }

    proof fn lemma_int_value(m: u32, n: u32) {
    }

    proof fn lemma_offset_of_at(i: nat) {
    }

    proof fn lemma_at_of_offset(self) {
    }

    proof fn lemma_compare_by_offset(self, other: Self) {
    }

    fn first() -> (r: Self) {
        O32(0)
    }

    fn next(self) -> (r: Self) {
        Self::from0(self.0 + 1)
    }

    fn into0(self) -> (n: u32) {
        proof {
            use_type_invariant(&self);
        }
        self.0
    }

    fn into1(self) -> (n: u32) {
        proof {
            use_type_invariant(&self);
        }
        self.0 + 1
    }

    fn try_from0(t: u32) -> (r: Option<Self>) {
        if t == u32::MAX {
            None
        } else {
            Some(O32(t))
        }
    }

    fn try_from1(t: u32) -> (r: Option<Self>) {
        match t.checked_sub(1) {
            Some(n) => Some(O32(n)),
            None => None,
        }
    }

    fn to_string(&self) -> (s: String) {
        proof {
            use_type_invariant(self);
        }
        ordinal_string(self.0 as u128 + 1)
    }
}

impl Default for O32 {
    /// The default value is _first_.
    fn default() -> (r: Self)
        ensures
            r == Self::at(0),
            r.offset() == 0,
    {
        O32(0)
    }
}

impl vstd::std_specs::cmp::PartialEqSpecImpl for O32 {
    open spec fn obeys_eq_spec() -> bool {
        true
    }

    open spec fn eq_spec(&self, other: &O32) -> bool {
        self.offset() == other.offset()
    }
}

impl PartialEq for O32 {
    fn eq(&self, other: &O32) -> (r: bool) {
        self.0 == other.0
    }
}

impl vstd::std_specs::cmp::PartialOrdSpecImpl for O32 {
    open spec fn obeys_partial_cmp_spec() -> bool {
        true
    }

    open spec fn partial_cmp_spec(&self, other: &O32) -> Option<Ordering> {
        if self.offset() < other.offset() {
            Some(Ordering::Less)
        } else if self.offset() == other.offset() {
            Some(Ordering::Equal)
        } else {
            Some(Ordering::Greater)
        }
    }
}

impl PartialOrd for O32 {
    fn partial_cmp(&self, other: &O32) -> (r: Option<Ordering>) {
        if self.0 < other.0 {
            Some(Ordering::Less)
        } else if self.0 == other.0 {
            Some(Ordering::Equal)
        } else {
            Some(Ordering::Greater)
        }
    }
}

impl vstd::std_specs::ops::AddSpecImpl<u32> for O32 {
    open spec fn obeys_add_spec() -> bool {
        true
    }

    /// The sum of the offset and `rhs` has to be the offset of an ordinal.
    open spec fn add_req(self, rhs: u32) -> bool {
        self.offset() + rhs < u32::MAX
    }

    open spec fn add_spec(self, rhs: u32) -> O32 {
        O32::at((self.offset() + rhs) as nat)
    }
}

impl Add<u32> for O32 {
    type Output = O32;

    /// The ordinal that comes `rhs` places after this one.
    fn add(self, rhs: u32) -> (r: O32)
        ensures
            r.offset() == self.offset() + rhs,
    {
        Self::from0(self.0.checked_add(rhs).expect("value is too big for this ordinal type"))
    }
}

impl vstd::std_specs::ops::SubSpecImpl<u32> for O32 {
    open spec fn obeys_sub_spec() -> bool {
        true
    }

    /// Nothing comes before the first ordinal: `rhs` is at most the offset.
    open spec fn sub_req(self, rhs: u32) -> bool {
        rhs <= self.offset()
    }

    open spec fn sub_spec(self, rhs: u32) -> O32 {
        O32::at((self.offset() - rhs) as nat)
    }
}

impl Sub<u32> for O32 {
    type Output = O32;

    /// The ordinal that comes `rhs` places before this one.
    fn sub(self, rhs: u32) -> (r: O32)
        ensures
            r.offset() == self.offset() - rhs,
    {
        proof {
            use_type_invariant(&self);
        }
        Self::from0(self.0.checked_sub(rhs).expect("cannot subtract past the first ordinal"))
    }
}

impl vstd::std_specs::ops::SubSpecImpl<O32> for O32 {
    open spec fn obeys_sub_spec() -> bool {
        true
    }

    /// The distance is unsigned: `rhs` does not come after this ordinal.
    open spec fn sub_req(self, rhs: O32) -> bool {
        rhs.offset() <= self.offset()
    }

    open spec fn sub_spec(self, rhs: O32) -> u32 {
        (self.offset() - rhs.offset()) as u32
    }
}

impl Sub<O32> for O32 {
    type Output = u32;

    /// The number of places from `rhs` up to this ordinal.
    fn sub(self, rhs: O32) -> (r: u32)
        ensures
            r == self.offset() - rhs.offset(),
    {
        self.0.checked_sub(rhs.0).expect("cannot subtract a later ordinal from an earlier one")
    }
}

} // verus!

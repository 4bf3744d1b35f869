//! Ordinal numbers represented by `usize`.

use crate::ordinal::Ordinal;
use crate::text::ordinal_string;
use std::cmp::Ordering;
use std::ops::{Add, Sub};
use vstd::prelude::*;

verus! {

/// [Ordinal] number represented by [usize]
#[derive(Clone, Copy, Eq, Ord, Hash)]
pub struct Osize(usize);

impl Osize {
    /// The stored integer is the offset; it is never the largest `usize`.
    #[verifier::type_invariant]
    spec fn inv(self) -> bool {
        self.0 < usize::MAX
    }
}

impl Ordinal for Osize {
    type IntegerType = usize;

    open spec fn max_int() -> nat {
        usize::MAX as nat
    }

    open spec fn int_value(n: usize) -> nat {
        n as nat
    }

    closed spec fn offset(self) -> nat {
        self.0 as nat
    }

    closed spec fn at(i: nat) -> Self {
        Osize(i as usize)
    }

    proof fn lemma_int_value(m: usize, n: usize) {
    }

    proof fn lemma_offset_of_at(i: nat) {
    }

    proof fn lemma_at_of_offset(self) {
    }

    proof fn lemma_compare_by_offset(self, other: Self) {
    }

    fn first() -> (r: Self) {
        Osize(0)
    }

    fn next(self) -> (r: Self) {
        Self::from0(self.0 + 1)
    }

    fn into0(self) -> (n: usize) {
        proof {
            use_type_invariant(&self);
        }
        self.0
    }

    fn into1(self) -> (n: usize) {
        proof {
            use_type_invariant(&self);
        }
        self.0 + 1
    }

    fn try_from0(t: usize) -> (r: Option<Self>) {
        if t == usize::MAX {
            None
        } else {
            Some(Osize(t))
        }
    }

    fn try_from1(t: usize) -> (r: Option<Self>) {
        match t.checked_sub(1) {
            Some(n) => Some(Osize(n)),
            None => None,
        }
    }

    fn to_string(&self) -> (s: String) {
        proof {
            use_type_invariant(self);
        }
        ordinal_string(self.0 as u128 + 1)
    }
}

impl Default for Osize {
    /// The default value is _first_.
    fn default() -> (r: Self)
        ensures
            r == Self::at(0),
            r.offset() == 0,
    {
        Osize(0)
    }
}

impl vstd::std_specs::cmp::PartialEqSpecImpl for Osize {
    open spec fn obeys_eq_spec() -> bool {
        true
    }

    open spec fn eq_spec(&self, other: &Osize) -> bool {
        self.offset() == other.offset()
    }
}

impl PartialEq for Osize {
    fn eq(&self, other: &Osize) -> (r: bool) {
        self.0 == other.0
    }
}

impl vstd::std_specs::cmp::PartialOrdSpecImpl for Osize {
    open spec fn obeys_partial_cmp_spec() -> bool {
        true
    }

    open spec fn partial_cmp_spec(&self, other: &Osize) -> Option<Ordering> {
        if self.offset() < other.offset() {
            Some(Ordering::Less)
        } else if self.offset() == other.offset() {
            Some(Ordering::Equal)
        } else {
            Some(Ordering::Greater)
        }
    }
}

impl PartialOrd for Osize {
    fn partial_cmp(&self, other: &Osize) -> (r: Option<Ordering>) {
        if self.0 < other.0 {
            Some(Ordering::Less)
        } else if self.0 == other.0 {
            Some(Ordering::Equal)
        } else {
            Some(Ordering::Greater)
        }
    }
}

impl vstd::std_specs::ops::AddSpecImpl<usize> for Osize {
    open spec fn obeys_add_spec() -> bool {
        true
    }

    /// The sum of the offset and `rhs` has to be the offset of an ordinal.
    open spec fn add_req(self, rhs: usize) -> bool {
        self.offset() + rhs < usize::MAX
    }

    open spec fn add_spec(self, rhs: usize) -> Osize {
        Osize::at((self.offset() + rhs) as nat)
    }
}

impl Add<usize> for Osize {
    type Output = Osize;

    /// The ordinal that comes `rhs` places after this one.
    fn add(self, rhs: usize) -> (r: Osize)
        ensures
            r.offset() == self.offset() + rhs,
    {
        Self::from0(self.0.checked_add(rhs).expect("value is too big for this ordinal type"))
    }
}

impl vstd::std_specs::ops::SubSpecImpl<usize> for Osize {
    open spec fn obeys_sub_spec() -> bool {
        true
    }

    /// Nothing comes before the first ordinal: `rhs` is at most the offset.
    open spec fn sub_req(self, rhs: usize) -> bool {
        rhs <= self.offset()
    }

    open spec fn sub_spec(self, rhs: usize) -> Osize {
        Osize::at((self.offset() - rhs) as nat)
    }
}

impl Sub<usize> for Osize {
    type Output = Osize;

    /// The ordinal that comes `rhs` places before this one.
    fn sub(self, rhs: usize) -> (r: Osize)
        ensures
            r.offset() == self.offset() - rhs,
    {
        proof {
            use_type_invariant(&self);
        }
        Self::from0(self.0.checked_sub(rhs).expect("cannot subtract past the first ordinal"))
    }
}

impl vstd::std_specs::ops::SubSpecImpl<Osize> for Osize {
    open spec fn obeys_sub_spec() -> bool {
        true
    }

    /// The distance is unsigned: `rhs` does not come after this ordinal.
    open spec fn sub_req(self, rhs: Osize) -> bool {
        rhs.offset() <= self.offset()
    }

    open spec fn sub_spec(self, rhs: Osize) -> usize {
        (self.offset() - rhs.offset()) as usize
    }
}

impl Sub<Osize> for Osize {
    type Output = usize;

    /// The number of places from `rhs` up to this ordinal.
    fn sub(self, rhs: Osize) -> (r: usize)
        ensures
            r == self.offset() - rhs.offset(),
    {
        self.0.checked_sub(rhs.0).expect("cannot subtract a later ordinal from an earlier one")
    }
}

} // verus!

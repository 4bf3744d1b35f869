//! What holds of every ordinal number type, proved from what its implementation of
//! [`Ordinal`] has shown of its model.

use crate::ordinal::{is_valid, try_from0_spec, try_from1_spec, Ordinal};
use vstd::prelude::*;
use vstd::std_specs::cmp::{PartialOrdIs, PartialOrdSpec};

verus! {

/// Two ordinals of one type are equal exactly when their offsets are equal.
pub proof fn lemma_equal_iff_same_offset<O: Ordinal>(a: O, b: O)
    requires
        is_valid(a),
        is_valid(b),
    ensures
        a == b <==> a.offset() == b.offset(),
{
    a.lemma_at_of_offset();
    b.lemma_at_of_offset();
}

/// Round trip: a number below the largest integer, made an ordinal as a 0-based integer,
/// is the offset of that ordinal; and so is the number before a 1-based integer
/// of the ordinal made from it.
pub proof fn lemma_round_trip<O: Ordinal>(v: nat)
    requires
        v < O::max_int(),
    ensures
        try_from0_spec::<O>(v) matches Some(o) && o.offset() == v,
        try_from1_spec::<O>(v + 1) matches Some(o) && o.offset() == v,
{
    O::lemma_offset_of_at(v);
}

/// The largest integer is no 0-based ordinal, and 0 is no 1-based ordinal.
pub proof fn lemma_bounds_rejected<O: Ordinal>()
    ensures
        try_from0_spec::<O>(O::max_int()) is None,
        try_from1_spec::<O>(0) is None,
{
}

/// The successor of the ordinal at offset `v` is the ordinal at offset `v + 1`,
/// whenever both exist.
pub proof fn lemma_next_of_at<O: Ordinal>(v: nat)
    requires
        v + 1 < O::max_int(),
    ensures
        O::at(O::at(v).offset() + 1) == O::at(v + 1),
{
    O::lemma_offset_of_at(v);
}

/// `a < b` holds exactly when the 0-based integer of `a` is less than that of `b`.
pub proof fn lemma_less_iff_offset_less<O: Ordinal>(a: O, b: O)
    ensures
        O::obeys_partial_cmp_spec(),
        a.is_lt(&b) <==> a.offset() < b.offset(),
{
    a.lemma_compare_by_offset(b);
}

} // verus!

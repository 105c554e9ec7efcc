//! Comparison of timestamps. Timestamps are compared by their values in the
//! microsecond time base; null timestamps are equal to each other and are not
//! ordered against anything.
use crate::time::Timestamp;
use core::cmp::Ordering;
use vstd::prelude::*;
use vstd::std_specs::cmp::PartialEqSpecImpl;
use vstd::std_specs::cmp::PartialOrdSpecImpl;

verus! {

/// The order of two integers.
pub open spec fn order_of(a: int, b: int) -> Ordering {
    if a < b {
        Ordering::Less
    } else if a == b {
        Ordering::Equal
    } else {
        Ordering::Greater
    }
}

/// Two timestamps are equal when they have the same value in microseconds
/// (or are both null).
pub open spec fn timestamps_equal(a: Timestamp, b: Timestamp) -> bool {
    a.spec_micros() == b.spec_micros()
}

/// The result of comparing two timestamps.
pub open spec fn timestamp_order(a: Timestamp, b: Timestamp) -> Option<Ordering> {
    match (a.spec_micros(), b.spec_micros()) {
        (Some(x), Some(y)) => Some(order_of(x, y)),
        _ => None,
    }
}

impl PartialEq for Timestamp {
    fn eq(&self, other: &Timestamp) -> (r: bool) {
        let a = self.as_micros();
        let b = other.as_micros();
        match (a, b) {
            (Some(x), Some(y)) => x == y,
            (None, None) => true,
            _ => false,
        }
    }
}

impl PartialEqSpecImpl for Timestamp {
    open spec fn obeys_eq_spec() -> bool {
        true
    }

    open spec fn eq_spec(&self, other: &Timestamp) -> bool {
        timestamps_equal(*self, *other)
    }
}

impl Eq for Timestamp {

}

impl PartialOrd for Timestamp {
    fn partial_cmp(&self, other: &Timestamp) -> (r: Option<Ordering>) {
        if let Some(a) = self.as_micros() {
            if let Some(b) = other.as_micros() {
                if a < b {
                    return Some(Ordering::Less);
                } else if a == b {
                    return Some(Ordering::Equal);
                } else {
                    return Some(Ordering::Greater);
                }
            }
        }
        None
    }
}

impl PartialOrdSpecImpl for Timestamp {
    open spec fn obeys_partial_cmp_spec() -> bool {
        true
    }

    open spec fn partial_cmp_spec(&self, other: &Timestamp) -> Option<Ordering> {
        timestamp_order(*self, *other)
    }
}


/// Timestamp equality is an equivalence relation.
pub proof fn lemma_eq_equivalence(a: Timestamp, b: Timestamp, c: Timestamp)
    ensures
        timestamps_equal(a, a),
        timestamps_equal(a, b) ==> timestamps_equal(b, a),
        timestamps_equal(a, b) && timestamps_equal(b, c) ==> timestamps_equal(a, c),
{
}

/// The ordering of timestamps agrees with their equality, is antisymmetric,
/// is transitive, and leaves exactly the null timestamps unordered.
pub proof fn lemma_order_consistent(a: Timestamp, b: Timestamp, c: Timestamp)
    ensures
        timestamp_order(a, b) is None <==> (a.spec_is_null() || b.spec_is_null()),
        timestamp_order(a, b) == Some(Ordering::Equal) <==> (!a.spec_is_null() && timestamps_equal(a, b)),
        timestamp_order(a, b) == Some(Ordering::Less) <==> timestamp_order(b, a) == Some(
            Ordering::Greater,
        ),
        timestamp_order(a, b) == Some(Ordering::Less) && timestamp_order(b, c) == Some(
            Ordering::Less,
        ) ==> timestamp_order(a, c) == Some(Ordering::Less),
{
}

} // verus!

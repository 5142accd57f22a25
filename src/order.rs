//! The total order and total equality on floating-point bit patterns, stated
//! once over the fields that they read, whatever the width of the format.
use core::cmp::Ordering;
use vstd::prelude::*;

verus! {

/// What the order reads of one bit pattern: its sign bit, the bits below the
/// sign bit (exponent and mantissa) as an unsigned integer, and whether the
/// pattern encodes a NaN.
#[derive(Clone, Copy, Debug)]
pub struct Fields {
    pub negative: bool,
    pub magnitude: u64,
    pub nan: bool,
}

/// Fields read from one format, whose infinities have the given magnitude:
/// a pattern is a NaN exactly when its magnitude lies above infinity's.
pub open spec fn fields_wf(f: Fields, infinity: u64) -> bool {
    f.nan == (f.magnitude > infinity)
}

/// Ascending order of two unsigned integers.
pub open spec fn ascending(x: u64, y: u64) -> Ordering {
    if x < y {
        Ordering::Less
    } else if x == y {
        Ordering::Equal
    } else {
        Ordering::Greater
    }
}

/// The opposite answer: `Less` for `Greater` and back, `Equal` kept.
pub open spec fn reversed(o: Ordering) -> Ordering {
    match o {
        Ordering::Less => Ordering::Greater,
        Ordering::Equal => Ordering::Equal,
        Ordering::Greater => Ordering::Less,
    }
}

/// Numeric equality of two non-NaN values: the same pattern, or two zeros of
/// either sign.
pub open spec fn numeric_eq(a: Fields, b: Fields) -> bool {
    (a.magnitude == 0 && b.magnitude == 0) || (a.negative == b.negative && a.magnitude
        == b.magnitude)
}

/// Numeric order of two non-NaN values: the two zeros are equal, negatives lie
/// below positives, larger magnitudes lie further from zero.
pub open spec fn numeric_cmp(a: Fields, b: Fields) -> Ordering {
    if a.magnitude == 0 && b.magnitude == 0 {
        Ordering::Equal
    } else if a.negative != b.negative {
        if a.negative {
            Ordering::Less
        } else {
            Ordering::Greater
        }
    } else if a.negative {
        ascending(b.magnitude, a.magnitude)
    } else {
        ascending(a.magnitude, b.magnitude)
    }
}

/// Order of two NaNs, read from their bits alone: a negative NaN lies below a
/// positive one; positive NaNs ascend with their magnitude, negative NaNs
/// descend with it.
pub open spec fn nan_cmp(a: Fields, b: Fields) -> Ordering {
    if a.negative != b.negative {
        if a.negative {
            Ordering::Less
        } else {
            Ordering::Greater
        }
    } else if a.negative {
        ascending(b.magnitude, a.magnitude)
    } else {
        ascending(a.magnitude, b.magnitude)
    }
}

/// Order of a NaN against a value that is not one: every negative NaN lies
/// below every other value, every positive NaN above.
pub open spec fn mixed_cmp(a: Fields, b: Fields) -> Ordering {
    if a.nan {
        if a.negative {
            Ordering::Less
        } else {
            Ordering::Greater
        }
    } else if b.negative {
        Ordering::Greater
    } else {
        Ordering::Less
    }
}

/// Total equality: two NaNs are equal when their bits are, a NaN equals no
/// other value, and the rest compare numerically.
pub open spec fn total_eq(a: Fields, b: Fields) -> bool {
    if a.nan && b.nan {
        a.negative == b.negative && a.magnitude == b.magnitude
    } else if !a.nan && !b.nan {
        numeric_eq(a, b)
    } else {
        false
    }
}

/// Total order: numeric between values that are not NaNs, by bits between two
/// NaNs, and by the NaN's sign between a NaN and another value.
pub open spec fn total_cmp(a: Fields, b: Fields) -> Ordering {
    if a.nan && b.nan {
        nan_cmp(a, b)
    } else if !a.nan && !b.nan {
        numeric_cmp(a, b)
    } else {
        mixed_cmp(a, b)
    }
}

/// Decides the total equality of two patterns.
pub fn fields_equal(a: Fields, b: Fields) -> (r: bool)
    ensures
        r == total_eq(a, b),
{
    if a.nan && b.nan {
        a.negative == b.negative && a.magnitude == b.magnitude
    } else if !a.nan && !b.nan {
        (a.magnitude == 0 && b.magnitude == 0) || (a.negative == b.negative && a.magnitude
            == b.magnitude)
    } else {
        false
    }
}

/// Decides the total order of two patterns.
pub fn compare_fields(a: Fields, b: Fields) -> (r: Ordering)
    ensures
        r == total_cmp(a, b),
{
    if a.nan && b.nan {
        match (a.negative, b.negative) {
            (false, false) => a.magnitude.cmp(&b.magnitude),
            (false, true) => Ordering::Greater,
            (true, false) => Ordering::Less,
            (true, true) => b.magnitude.cmp(&a.magnitude),
        }
    } else if !a.nan && !b.nan {
        if a.magnitude == 0 && b.magnitude == 0 {
            Ordering::Equal
        } else {
            match (a.negative, b.negative) {
                (false, false) => a.magnitude.cmp(&b.magnitude),
                (false, true) => Ordering::Greater,
                (true, false) => Ordering::Less,
                (true, true) => b.magnitude.cmp(&a.magnitude),
            }
        }
    } else if a.nan {
        if a.negative {
            Ordering::Less
        } else {
            Ordering::Greater
        }
    } else if b.negative {
        Ordering::Greater
    } else {
        Ordering::Less
    }
}

/// Within one format the three rules of the total order are one rule: compare
/// by sign and magnitude, with the two zeros equal. Total equality likewise is
/// equality of sign and magnitude, with the two zeros equal.
pub proof fn lemma_total_is_sign_magnitude(a: Fields, b: Fields, infinity: u64)
    requires
        fields_wf(a, infinity),
        fields_wf(b, infinity),
    ensures
        total_cmp(a, b) == numeric_cmp(a, b),
        total_eq(a, b) == numeric_eq(a, b),
{
}

/// Total equality holds exactly where the total order answers `Equal`, and
/// the order seen from the other side is reversed.
pub proof fn lemma_total_consistent(a: Fields, b: Fields, infinity: u64)
    requires
        fields_wf(a, infinity),
        fields_wf(b, infinity),
    ensures
        total_eq(a, b) <==> total_cmp(a, b) == Ordering::Equal,
        total_cmp(b, a) == reversed(total_cmp(a, b)),
        total_eq(a, b) == total_eq(b, a),
{
    lemma_total_is_sign_magnitude(a, b, infinity);
    lemma_total_is_sign_magnitude(b, a, infinity);
}

/// Every pattern is totally equal to itself.
pub proof fn lemma_total_eq_reflexive(a: Fields)
    ensures
        total_eq(a, a),
{
}

/// Total equality and the strict total order are transitive.
pub proof fn lemma_total_transitive(a: Fields, b: Fields, c: Fields, infinity: u64)
    requires
        fields_wf(a, infinity),
        fields_wf(b, infinity),
        fields_wf(c, infinity),
    ensures
        total_eq(a, b) && total_eq(b, c) ==> total_eq(a, c),
        total_cmp(a, b) == Ordering::Less && total_cmp(b, c) == Ordering::Less ==> total_cmp(
            a,
            c,
        ) == Ordering::Less,
        total_cmp(a, b) == Ordering::Less && total_eq(b, c) ==> total_cmp(a, c) == Ordering::Less,
{
    lemma_total_is_sign_magnitude(a, b, infinity);
    lemma_total_is_sign_magnitude(b, c, infinity);
    lemma_total_is_sign_magnitude(a, c, infinity);
}

} // verus!

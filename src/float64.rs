//! The 64-bit instance: a binary64 bit pattern with its sign at bit 63, an
//! 11-bit exponent and a 52-bit mantissa.
use crate::order::{
    compare_fields, fields_equal, fields_wf, lemma_total_consistent, lemma_total_eq_reflexive,
    lemma_total_transitive, numeric_cmp, numeric_eq, reversed, total_cmp, total_eq, Fields,
};
use core::cmp::Ordering;
use vstd::prelude::*;

verus! {

/// The bits below the sign bit.
pub const MAGNITUDE_MASK_64: u64 = 0x7fff_ffff_ffff_ffff;

/// The mantissa bits.
pub const MANTISSA_MASK_64: u64 = 0x000f_ffff_ffff_ffff;

/// The magnitude of both infinities: every exponent bit set, mantissa clear.
pub const INFINITY_MAGNITUDE_64: u64 = 0x7ff0_0000_0000_0000;

/// Whether the sign bit is set.
pub open spec fn sign_negative64(bits: u64) -> bool {
    bits >> 63u64 == 1
}

/// The mantissa field.
pub open spec fn mantissa64(bits: u64) -> u64 {
    bits & MANTISSA_MASK_64
}

/// A NaN: every exponent bit set and a mantissa that is not zero.
pub open spec fn is_nan64(bits: u64) -> bool {
    (bits >> 52u64) & 0x7ffu64 == 0x7ffu64 && bits & MANTISSA_MASK_64 != 0
}

/// What the total order reads of a 64-bit pattern.
pub open spec fn fields64(bits: u64) -> Fields {
    Fields {
        negative: sign_negative64(bits),
        magnitude: bits & MAGNITUDE_MASK_64,
        nan: is_nan64(bits),
    }
}

/// The total order on 64-bit patterns.
pub open spec fn cmp64(a: u64, b: u64) -> Ordering {
    total_cmp(fields64(a), fields64(b))
}

/// The total equality on 64-bit patterns.
pub open spec fn eq64(a: u64, b: u64) -> bool {
    total_eq(fields64(a), fields64(b))
}

/// A 64-bit floating-point value, held as its bit pattern, under a total order
/// and a total equality: two NaNs are equal only when their bits are, NaNs are
/// ordered by sign and then by their bits, every negative NaN lies below every
/// other value and every positive NaN above, and the other values compare
/// numerically, with the two zeros equal.
#[derive(Clone, Copy, Debug)]
pub struct StupidFloat64 {
    bits: u64,
}

impl View for StupidFloat64 {
    type V = u64;

    closed spec fn view(&self) -> u64 {
        self.bits
    }
}

impl StupidFloat64 {
    /// The value whose bit pattern is `bits`; every pattern is accepted.
    pub fn from_bits(bits: u64) -> (r: Self)
        ensures
            r@ == bits,
    {
        StupidFloat64 { bits }
    }

    /// The bit pattern of the value.
    pub fn to_bits(&self) -> (r: u64)
        ensures
            r == self@,
    {
        self.bits
    }

    /// Whether the value is a NaN.
    pub fn is_nan(&self) -> (r: bool)
        ensures
            r == is_nan64(self@),
    {
        (self.bits >> 52) & 0x7ff == 0x7ff && self.bits & MANTISSA_MASK_64 != 0
    }

    /// Whether the sign bit is set.
    pub fn is_sign_negative(&self) -> (r: bool)
        ensures
            r == sign_negative64(self@),
    {
        self.bits >> 63 == 1
    }

    /// What the total order reads of the value.
    pub fn fields(&self) -> (r: Fields)
        ensures
            r == fields64(self@),
    {
        Fields {
            negative: self.is_sign_negative(),
            magnitude: self.bits & MAGNITUDE_MASK_64,
            nan: self.is_nan(),
        }
    }

    /// The display text of the value: `+NaN` or `-NaN` for a NaN, by its sign
    /// bit, and otherwise `numeric`, the shortest decimal text that reads back
    /// as the value.
    pub fn render(&self, numeric: String) -> (r: String)
        ensures
            is_nan64(self@) && !sign_negative64(self@) ==> r@ == "+NaN"@,
            is_nan64(self@) && sign_negative64(self@) ==> r@ == "-NaN"@,
            !is_nan64(self@) ==> r@ == numeric@,
    {
        if self.is_nan() {
            if self.is_sign_negative() {
                "-NaN".to_owned()
            } else {
                "+NaN".to_owned()
            }
        } else {
            numeric
        }
    }
}

impl Default for StupidFloat64 {
    /// Positive zero.
    fn default() -> (r: Self)
        ensures
            r@ == 0,
    {
        StupidFloat64 { bits: 0 }
    }
}

impl PartialEq for StupidFloat64 {
    fn eq(&self, other: &Self) -> (r: bool) {
        fields_equal(self.fields(), other.fields())
    }
}

impl vstd::std_specs::cmp::PartialEqSpecImpl for StupidFloat64 {
    open spec fn obeys_eq_spec() -> bool {
        true
    }

    open spec fn eq_spec(&self, other: &Self) -> bool {
        eq64(self@, other@)
    }
}

impl Eq for StupidFloat64 {

}

impl PartialOrd for StupidFloat64 {
    fn partial_cmp(&self, other: &Self) -> (r: Option<Ordering>) {
        Some(compare_fields(self.fields(), other.fields()))
    }
}

impl vstd::std_specs::cmp::PartialOrdSpecImpl for StupidFloat64 {
    open spec fn obeys_partial_cmp_spec() -> bool {
        true
    }

    open spec fn partial_cmp_spec(&self, other: &Self) -> Option<Ordering> {
        Some(cmp64(self@, other@))
    }
}

/// A 64-bit pattern is a NaN exactly when its magnitude lies above infinity's.
proof fn lemma_nan_above_infinity64(bits: u64)
    by (bit_vector)
    ensures
        is_nan64(bits) == (bits & MAGNITUDE_MASK_64 > INFINITY_MAGNITUDE_64),
{
}

/// The fields of a 64-bit pattern are well formed.
proof fn lemma_fields_wf64(bits: u64)
    ensures
        fields_wf(fields64(bits), INFINITY_MAGNITUDE_64),
{
    lemma_nan_above_infinity64(bits);
}

/// Sign and magnitude together give back the whole pattern.
proof fn lemma_sign_magnitude_determine64(a: u64, b: u64)
    by (bit_vector)
    ensures
        (a >> 63u64 == 1) == (b >> 63u64 == 1) && a & MAGNITUDE_MASK_64 == b & MAGNITUDE_MASK_64
            ==> a == b,
{
}

/// Two NaNs share their exponent, so their magnitudes are ordered as their
/// mantissas are.
proof fn lemma_nan_mantissa_order64(a: u64, b: u64)
    by (bit_vector)
    requires
        (a >> 52u64) & 0x7ffu64 == 0x7ffu64,
        (b >> 52u64) & 0x7ffu64 == 0x7ffu64,
    ensures
        (a & MANTISSA_MASK_64 < b & MANTISSA_MASK_64) == (a & MAGNITUDE_MASK_64 < b
            & MAGNITUDE_MASK_64),
{
}

/// The order is total and agrees with the equality: any two values compare
/// as exactly one of `Less`, `Equal` and `Greater`, `Equal` exactly when they
/// are equal, and swapping the two values reverses the answer.
pub proof fn law_total64(a: StupidFloat64, b: StupidFloat64)
    ensures
        eq64(a@, b@) <==> cmp64(a@, b@) == Ordering::Equal,
        cmp64(b@, a@) == reversed(cmp64(a@, b@)),
{
    lemma_fields_wf64(a@);
    lemma_fields_wf64(b@);
    lemma_total_consistent(fields64(a@), fields64(b@), INFINITY_MAGNITUDE_64);
}

/// The order is antisymmetric: if `a < b` then not `b < a`, and equal values
/// lie below each other in neither direction. Equality is symmetric.
pub proof fn law_antisymmetric64(a: StupidFloat64, b: StupidFloat64)
    ensures
        cmp64(a@, b@) == Ordering::Less ==> cmp64(b@, a@) != Ordering::Less,
        eq64(a@, b@) ==> cmp64(a@, b@) != Ordering::Less && cmp64(b@, a@) != Ordering::Less,
        eq64(a@, b@) == eq64(b@, a@),
{
    lemma_fields_wf64(a@);
    lemma_fields_wf64(b@);
    lemma_total_consistent(fields64(a@), fields64(b@), INFINITY_MAGNITUDE_64);
}

/// Every value equals itself, each NaN pattern included.
pub proof fn law_eq_reflexive64(a: StupidFloat64)
    ensures
        eq64(a@, a@),
{
    lemma_total_eq_reflexive(fields64(a@));
}

/// The equality and the strict order are transitive.
pub proof fn law_transitive64(a: StupidFloat64, b: StupidFloat64, c: StupidFloat64)
    ensures
        eq64(a@, b@) && eq64(b@, c@) ==> eq64(a@, c@),
        cmp64(a@, b@) == Ordering::Less && cmp64(b@, c@) == Ordering::Less ==> cmp64(a@, c@)
            == Ordering::Less,
{
    lemma_fields_wf64(a@);
    lemma_fields_wf64(b@);
    lemma_fields_wf64(c@);
    lemma_total_transitive(fields64(a@), fields64(b@), fields64(c@), INFINITY_MAGNITUDE_64);
}

/// Two NaNs are equal exactly when their bit patterns are.
pub proof fn law_nan_eq_bits64(a: StupidFloat64, b: StupidFloat64)
    requires
        is_nan64(a@),
        is_nan64(b@),
    ensures
        eq64(a@, b@) <==> a@ == b@,
{
    lemma_sign_magnitude_determine64(a@, b@);
}

/// A negative NaN lies below a positive NaN, whatever their payloads.
pub proof fn law_nan_sign64(n: StupidFloat64, p: StupidFloat64)
    requires
        is_nan64(n@),
        sign_negative64(n@),
        is_nan64(p@),
        !sign_negative64(p@),
    ensures
        cmp64(n@, p@) == Ordering::Less,
{
}

/// Positive NaNs ascend with their mantissa.
pub proof fn law_positive_nan_mantissa64(a: StupidFloat64, b: StupidFloat64)
    requires
        is_nan64(a@),
        is_nan64(b@),
        !sign_negative64(a@),
        !sign_negative64(b@),
        mantissa64(a@) < mantissa64(b@),
    ensures
        cmp64(a@, b@) == Ordering::Less,
{
    lemma_nan_mantissa_order64(a@, b@);
}

/// Negative NaNs descend with their mantissa.
pub proof fn law_negative_nan_mantissa64(a: StupidFloat64, b: StupidFloat64)
    requires
        is_nan64(a@),
        is_nan64(b@),
        sign_negative64(a@),
        sign_negative64(b@),
        mantissa64(a@) < mantissa64(b@),
    ensures
        cmp64(a@, b@) == Ordering::Greater,
{
    lemma_nan_mantissa_order64(a@, b@);
}

/// Values that are not NaNs compare and test equal numerically: the two zeros
/// are equal, negatives lie below positives, and magnitudes order the rest.
pub proof fn law_numeric_fallback64(a: StupidFloat64, b: StupidFloat64)
    requires
        !is_nan64(a@),
        !is_nan64(b@),
    ensures
        cmp64(a@, b@) == numeric_cmp(fields64(a@), fields64(b@)),
        eq64(a@, b@) == numeric_eq(fields64(a@), fields64(b@)),
{
}

} // verus!

//! The 32-bit instance: a binary32 bit pattern with its sign at bit 31, an
//! 8-bit exponent and a 23-bit mantissa.
use crate::order::{
    compare_fields, fields_equal, fields_wf, lemma_total_consistent, lemma_total_eq_reflexive,
    lemma_total_transitive, numeric_cmp, numeric_eq, reversed, total_cmp, total_eq, Fields,
};
use core::cmp::Ordering;
use vstd::prelude::*;

verus! {

/// The bits below the sign bit.
pub const MAGNITUDE_MASK_32: u32 = 0x7fff_ffff;

/// The mantissa bits.
pub const MANTISSA_MASK_32: u32 = 0x007f_ffff;

/// The magnitude of both infinities: every exponent bit set, mantissa clear.
pub const INFINITY_MAGNITUDE_32: u32 = 0x7f80_0000;

/// Whether the sign bit is set.
pub open spec fn sign_negative32(bits: u32) -> bool {
    bits >> 31u32 == 1
}

/// The mantissa field.
pub open spec fn mantissa32(bits: u32) -> u32 {
    bits & MANTISSA_MASK_32
}

/// A NaN: every exponent bit set and a mantissa that is not zero.
pub open spec fn is_nan32(bits: u32) -> bool {
    (bits >> 23u32) & 0xffu32 == 0xffu32 && bits & MANTISSA_MASK_32 != 0
}

/// What the total order reads of a 32-bit pattern.
pub open spec fn fields32(bits: u32) -> Fields {
    Fields {
        negative: sign_negative32(bits),
        magnitude: (bits & MAGNITUDE_MASK_32) as u64,
        nan: is_nan32(bits),
    }
}

/// The total order on 32-bit patterns.
pub open spec fn cmp32(a: u32, b: u32) -> Ordering {
    total_cmp(fields32(a), fields32(b))
}

/// The total equality on 32-bit patterns.
pub open spec fn eq32(a: u32, b: u32) -> bool {
    total_eq(fields32(a), fields32(b))
}

/// A 32-bit floating-point value, held as its bit pattern, under a total order
/// and a total equality: two NaNs are equal only when their bits are, NaNs are
/// ordered by sign and then by their bits, every negative NaN lies below every
/// other value and every positive NaN above, and the other values compare
/// numerically, with the two zeros equal.
#[derive(Clone, Copy, Debug)]
pub struct StupidFloat32 {
    bits: u32,
}

impl View for StupidFloat32 {
    type V = u32;

    closed spec fn view(&self) -> u32 {
        self.bits
    }
}

impl StupidFloat32 {
    /// The value whose bit pattern is `bits`; every pattern is accepted.
    pub fn from_bits(bits: u32) -> (r: Self)
        ensures
            r@ == bits,
    {
        StupidFloat32 { bits }
    }

    /// The bit pattern of the value.
    pub fn to_bits(&self) -> (r: u32)
        ensures
            r == self@,
    {
        self.bits
    }

    /// Whether the value is a NaN.
    pub fn is_nan(&self) -> (r: bool)
        ensures
            r == is_nan32(self@),
    {
        (self.bits >> 23) & 0xff == 0xff && self.bits & MANTISSA_MASK_32 != 0
    }

    /// Whether the sign bit is set.
    pub fn is_sign_negative(&self) -> (r: bool)
        ensures
            r == sign_negative32(self@),
    {
        self.bits >> 31 == 1
    }

    /// What the total order reads of the value.
    pub fn fields(&self) -> (r: Fields)
        ensures
            r == fields32(self@),
    {
        Fields {
            negative: self.is_sign_negative(),
            magnitude: (self.bits & MAGNITUDE_MASK_32) as u64,
            nan: self.is_nan(),
        }
    }

    /// The display text of the value: `+NaN` or `-NaN` for a NaN, by its sign
    /// bit, and otherwise `numeric`, the shortest decimal text that reads back
    /// as the value.
    pub fn render(&self, numeric: String) -> (r: String)
        ensures
            is_nan32(self@) && !sign_negative32(self@) ==> r@ == "+NaN"@,
            is_nan32(self@) && sign_negative32(self@) ==> r@ == "-NaN"@,
            !is_nan32(self@) ==> r@ == numeric@,
    {
        if self.is_nan() {
            if self.is_sign_negative() {
                "-NaN".to_owned()
            } else {
                "+NaN".to_owned()
            }
        } else {
            numeric
        }
    }
}

impl Default for StupidFloat32 {
    /// Positive zero.
    fn default() -> (r: Self)
        ensures
            r@ == 0,
    {
        StupidFloat32 { bits: 0 }
    }
}

impl PartialEq for StupidFloat32 {
    fn eq(&self, other: &Self) -> (r: bool) {
        fields_equal(self.fields(), other.fields())
    }
}

impl vstd::std_specs::cmp::PartialEqSpecImpl for StupidFloat32 {
    open spec fn obeys_eq_spec() -> bool {
        true
    }

    open spec fn eq_spec(&self, other: &Self) -> bool {
        eq32(self@, other@)
    }
}

impl Eq for StupidFloat32 {

}

impl PartialOrd for StupidFloat32 {
    fn partial_cmp(&self, other: &Self) -> (r: Option<Ordering>) {
        Some(compare_fields(self.fields(), other.fields()))
    }
}

impl vstd::std_specs::cmp::PartialOrdSpecImpl for StupidFloat32 {
    open spec fn obeys_partial_cmp_spec() -> bool {
        true
    }

    open spec fn partial_cmp_spec(&self, other: &Self) -> Option<Ordering> {
        Some(cmp32(self@, other@))
    }
}

/// A 32-bit pattern is a NaN exactly when its magnitude lies above infinity's.
proof fn lemma_nan_above_infinity32(bits: u32)
    by (bit_vector)
    ensures
        is_nan32(bits) == (bits & MAGNITUDE_MASK_32 > INFINITY_MAGNITUDE_32),
{
}

/// The fields of a 32-bit pattern are well formed.
proof fn lemma_fields_wf32(bits: u32)
    ensures
        fields_wf(fields32(bits), INFINITY_MAGNITUDE_32 as u64),
{
    lemma_nan_above_infinity32(bits);
}

/// Sign and magnitude together give back the whole pattern.
proof fn lemma_sign_magnitude_determine32(a: u32, b: u32)
    by (bit_vector)
    ensures
        (a >> 31u32 == 1) == (b >> 31u32 == 1) && a & MAGNITUDE_MASK_32 == b & MAGNITUDE_MASK_32
            ==> a == b,
{
}

/// Two NaNs share their exponent, so their magnitudes are ordered as their
/// mantissas are.
proof fn lemma_nan_mantissa_order32(a: u32, b: u32)
    by (bit_vector)
    requires
        (a >> 23u32) & 0xffu32 == 0xffu32,
        (b >> 23u32) & 0xffu32 == 0xffu32,
    ensures
        (a & MANTISSA_MASK_32 < b & MANTISSA_MASK_32) == (a & MAGNITUDE_MASK_32 < b
            & MAGNITUDE_MASK_32),
{
}

/// The order is total and agrees with the equality: any two values compare
/// as exactly one of `Less`, `Equal` and `Greater`, `Equal` exactly when they
/// are equal, and swapping the two values reverses the answer.
pub proof fn law_total32(a: StupidFloat32, b: StupidFloat32)
    ensures
        eq32(a@, b@) <==> cmp32(a@, b@) == Ordering::Equal,
        cmp32(b@, a@) == reversed(cmp32(a@, b@)),
{
    lemma_fields_wf32(a@);
    lemma_fields_wf32(b@);
    lemma_total_consistent(fields32(a@), fields32(b@), INFINITY_MAGNITUDE_32 as u64);
}

/// The order is antisymmetric: if `a < b` then not `b < a`, and equal values
/// lie below each other in neither direction. Equality is symmetric.
pub proof fn law_antisymmetric32(a: StupidFloat32, b: StupidFloat32)
    ensures
        cmp32(a@, b@) == Ordering::Less ==> cmp32(b@, a@) != Ordering::Less,
        eq32(a@, b@) ==> cmp32(a@, b@) != Ordering::Less && cmp32(b@, a@) != Ordering::Less,
        eq32(a@, b@) == eq32(b@, a@),
{
    lemma_fields_wf32(a@);
    lemma_fields_wf32(b@);
    lemma_total_consistent(fields32(a@), fields32(b@), INFINITY_MAGNITUDE_32 as u64);
}

/// Every value equals itself, each NaN pattern included.
pub proof fn law_eq_reflexive32(a: StupidFloat32)
    ensures
        eq32(a@, a@),
{
    lemma_total_eq_reflexive(fields32(a@));
}

/// The equality and the strict order are transitive.
pub proof fn law_transitive32(a: StupidFloat32, b: StupidFloat32, c: StupidFloat32)
    ensures
        eq32(a@, b@) && eq32(b@, c@) ==> eq32(a@, c@),
        cmp32(a@, b@) == Ordering::Less && cmp32(b@, c@) == Ordering::Less ==> cmp32(a@, c@)
            == Ordering::Less,
{
    lemma_fields_wf32(a@);
    lemma_fields_wf32(b@);
    lemma_fields_wf32(c@);
    lemma_total_transitive(fields32(a@), fields32(b@), fields32(c@), INFINITY_MAGNITUDE_32 as u64);
}

/// Two NaNs are equal exactly when their bit patterns are.
pub proof fn law_nan_eq_bits32(a: StupidFloat32, b: StupidFloat32)
    requires
        is_nan32(a@),
        is_nan32(b@),
    ensures
        eq32(a@, b@) <==> a@ == b@,
{
    lemma_sign_magnitude_determine32(a@, b@);
}

/// A negative NaN lies below a positive NaN, whatever their payloads.
pub proof fn law_nan_sign32(n: StupidFloat32, p: StupidFloat32)
    requires
        is_nan32(n@),
        sign_negative32(n@),
        is_nan32(p@),
        !sign_negative32(p@),
    ensures
        cmp32(n@, p@) == Ordering::Less,
{
}

/// Positive NaNs ascend with their mantissa.
pub proof fn law_positive_nan_mantissa32(a: StupidFloat32, b: StupidFloat32)
    requires
        is_nan32(a@),
        is_nan32(b@),
        !sign_negative32(a@),
        !sign_negative32(b@),
        mantissa32(a@) < mantissa32(b@),
    ensures
        cmp32(a@, b@) == Ordering::Less,
{
    lemma_nan_mantissa_order32(a@, b@);
}

/// Negative NaNs descend with their mantissa.
pub proof fn law_negative_nan_mantissa32(a: StupidFloat32, b: StupidFloat32)
    requires
        is_nan32(a@),
        is_nan32(b@),
        sign_negative32(a@),
        sign_negative32(b@),
        mantissa32(a@) < mantissa32(b@),
    ensures
        cmp32(a@, b@) == Ordering::Greater,
{
    lemma_nan_mantissa_order32(a@, b@);
}

/// Values that are not NaNs compare and test equal numerically: the two zeros
/// are equal, negatives lie below positives, and magnitudes order the rest.
pub proof fn law_numeric_fallback32(a: StupidFloat32, b: StupidFloat32)
    requires
        !is_nan32(a@),
        !is_nan32(b@),
    ensures
        cmp32(a@, b@) == numeric_cmp(fields32(a@), fields32(b@)),
        eq32(a@, b@) == numeric_eq(fields32(a@), fields32(b@)),
{
}

} // verus!

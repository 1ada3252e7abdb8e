//! How sure a classification is.
use vstd::prelude::*;

verus! {

/// A double-precision number, held as its IEEE 754 bit pattern.
#[derive(Clone, Copy, Debug, PartialEq, Eq, Structural)]
pub struct Confidence {
    pub bits: u64,
}

/// The bit pattern of 0.90, above which a file is moved without asking.
pub const THRESHOLD_BITS: u64 = 0x3FEC_CCCC_CCCC_CCCD;

/// The bit pattern of 0.95, the confidence of a known file extension.
pub const EXTENSION_BITS: u64 = 0x3FEE_6666_6666_6666;

/// The bit pattern of positive infinity.
pub const INFINITY_BITS: u64 = 0x7FF0_0000_0000_0000;

/// Whether the number with these bits is greater than 0.90. Positive doubles
/// are ordered as their bit patterns are; the patterns above infinity are
/// those of the negative numbers and of what is not a number.
pub open spec fn above_threshold(bits: u64) -> bool {
    THRESHOLD_BITS < bits <= INFINITY_BITS
}

/// The confidence of a known file extension.
pub open spec fn extension_confidence() -> Confidence {
    Confidence { bits: EXTENSION_BITS }
}

impl Confidence {
    /// Whether the confidence is greater than 0.90.
    pub fn is_high(&self) -> (r: bool)
        ensures
            r == above_threshold(self.bits),
    {
        THRESHOLD_BITS < self.bits && self.bits <= INFINITY_BITS
    }
}

// Laws

/// Sureness is a cut in the order of the doubles at 0.90: no number up to it,
/// no negative one and nothing that is not a number is sure, and every other
/// one is.
pub proof fn law_sureness_is_a_cut(c: Confidence, r: bool)
    requires
        call_ensures(Confidence::is_high, (&c,), r),
    ensures
        r <==> 0x3FEC_CCCC_CCCC_CCCD < c.bits <= 0x7FF0_0000_0000_0000,
        r == above_threshold(c.bits),
{
}

/// Whatever is greater than a sure number is sure, up to infinity.
pub proof fn law_sureness_is_monotone(a: Confidence, b: Confidence, sure: bool, r: bool)
    requires
        call_ensures(Confidence::is_high, (&a,), sure),
        call_ensures(Confidence::is_high, (&b,), r),
        a.bits <= b.bits <= 0x7FF0_0000_0000_0000,
        sure,
    ensures
        r,
{
}

/// Sureness in numbers: a positive double with the exponent field `exponent`
/// and the fraction field `fraction` is sure where its exponent is that of a
/// number from one on, and not sure where it is that of a number below a half.
/// Between, the number is `0x10_0000_0000_0000 + fraction` parts of
/// `0x20_0000_0000_0000`, and ten times the double 0.90 is two such parts above
/// nine.
pub proof fn law_sureness_in_numbers(exponent: u64, fraction: u64, c: Confidence, r: bool)
    requires
        exponent < 0x7FF,
        fraction < 0x10_0000_0000_0000,
        c.bits == exponent * 0x10_0000_0000_0000 + fraction,
        call_ensures(Confidence::is_high, (&c,), r),
    ensures
        exponent >= 1023 ==> r,
        exponent < 1022 ==> !r,
        exponent == 1022 ==> (r <==> 10 * (0x10_0000_0000_0000 + fraction) > 9
            * 0x20_0000_0000_0000 + 2),
{
}

/// A known extension is as sure as 0.95.
pub proof fn law_extension_is_sure()
    ensures
        extension_confidence().bits == 0x3FEE_6666_6666_6666,
        above_threshold(extension_confidence().bits),
{
}

} // verus!

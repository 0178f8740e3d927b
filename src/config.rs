use vstd::prelude::*;

verus! {

/// A construction parameter outside the range a component accepts.
#[derive(Clone, Copy, Debug, PartialEq, Eq, Structural)]
pub enum ConfigError {
    /// The demodulator's modulation factor is zero (of either sign) or NaN.
    ZeroModulationFactor,
    /// The resampling rate is not a positive finite number.
    NonPositiveRate,
    /// The stop-band attenuation is not a positive finite number.
    NonPositiveAttenuation,
}

/// The single-precision value with bit pattern `bits` is `+0.0` or `-0.0`.
pub open spec fn spec_is_zero(bits: u32) -> bool {
    bits & 0x7fff_ffff == 0
}

/// The single-precision value with bit pattern `bits` is a NaN: every
/// exponent bit set and a non-zero mantissa.
pub open spec fn spec_is_nan(bits: u32) -> bool {
    bits & 0x7f80_0000 == 0x7f80_0000 && bits & 0x007f_ffff != 0
}

/// The single-precision value with bit pattern `bits` is positive and
/// finite: sign bit clear, not zero, and not every exponent bit set.
pub open spec fn spec_is_positive_finite(bits: u32) -> bool {
    bits & 0x8000_0000 == 0 && bits != 0 && bits & 0x7f80_0000 != 0x7f80_0000
}

pub fn is_zero(bits: u32) -> (r: bool)
    ensures
        r == spec_is_zero(bits),
{
    bits & 0x7fff_ffff == 0
}

pub fn is_nan(bits: u32) -> (r: bool)
    ensures
        r == spec_is_nan(bits),
{
    bits & 0x7f80_0000 == 0x7f80_0000 && bits & 0x007f_ffff != 0
}

pub fn is_positive_finite(bits: u32) -> (r: bool)
    ensures
        r == spec_is_positive_finite(bits),
{
    bits & 0x8000_0000 == 0 && bits != 0 && bits & 0x7f80_0000 != 0x7f80_0000
}

} // verus!

use vstd::prelude::*;

verus! {

/// One complex baseband sample: the IEEE-754 single-precision bit patterns of
/// its real and imaginary parts. The library stores, compares and moves
/// samples; it never computes with their values.
#[derive(Clone, Copy, Debug, PartialEq, Eq, Structural, Hash)]
pub struct Sample {
    pub re_bits: u32,
    pub im_bits: u32,
}

impl Sample {
    /// The all-zero bit pattern: `0.0 + 0.0i`.
    pub open spec fn spec_zero() -> Sample {
        Sample { re_bits: 0, im_bits: 0 }
    }

    pub fn from_bits(re_bits: u32, im_bits: u32) -> (r: Sample)
        ensures
            r.re_bits == re_bits,
            r.im_bits == im_bits,
    {
        Sample { re_bits, im_bits }
    }

    pub fn zero() -> (r: Sample)
        ensures
            r == Sample::spec_zero(),
    {
        Sample { re_bits: 0, im_bits: 0 }
    }
}

} // verus!

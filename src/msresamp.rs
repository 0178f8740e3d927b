use vstd::prelude::*;

use crate::config::{is_positive_finite, spec_is_positive_finite, ConfigError};
use crate::sample::Sample;

verus! {

/// The smaller of a reported sample count and a buffer length.
pub open spec fn spec_written_count(reported: u32, buffer_len: nat) -> nat {
    if reported as nat <= buffer_len {
        reported as nat
    } else {
        buffer_len
    }
}

/// What a resampler call hands back: the first `reported` samples of the
/// buffer it wrote into, and never more than the buffer holds.
pub open spec fn spec_written(buffer: Seq<Sample>, reported: u32) -> Seq<Sample> {
    buffer.take(spec_written_count(reported, buffer.len()) as int)
}

/// Whether a rate and an attenuation can build a cascade: both positive and
/// finite. Where neither is, the rate is named.
pub fn check_parameters(rate_bits: u32, attenuation_bits: u32) -> (r: Result<(), ConfigError>)
    ensures
        r is Ok <==> (spec_is_positive_finite(rate_bits) && spec_is_positive_finite(
            attenuation_bits,
        )),
        !spec_is_positive_finite(rate_bits) ==> r == Err::<(), ConfigError>(
            ConfigError::NonPositiveRate,
        ),
        spec_is_positive_finite(rate_bits) && !spec_is_positive_finite(attenuation_bits) ==> r
            == Err::<(), ConfigError>(ConfigError::NonPositiveAttenuation),
{
    if !is_positive_finite(rate_bits) {
        Err(ConfigError::NonPositiveRate)
    } else if !is_positive_finite(attenuation_bits) {
        Err(ConfigError::NonPositiveAttenuation)
    } else {
        Ok(())
    }
}

/// Configuration of a multi-stage resampler, fixed at construction: the rate
/// (output over input), the stop-band attenuation in dB, and the group delay
/// of the filter cascade in output samples, each as the bit pattern of a
/// single-precision value. No operation changes it, so the delay reads the
/// same before, between and after any number of calls.
pub struct MsresampState {
    rate_bits: u32,
    attenuation_bits: u32,
    delay_bits: u32,
}

impl MsresampState {
    pub closed spec fn rate(&self) -> u32 {
        self.rate_bits
    }

    pub closed spec fn attenuation(&self) -> u32 {
        self.attenuation_bits
    }

    pub closed spec fn delay(&self) -> u32 {
        self.delay_bits
    }

    /// Records the parameters of a cascade and the delay it was built with.
    /// The rate and the attenuation must be positive and finite.
    pub fn new(rate_bits: u32, attenuation_bits: u32, delay_bits: u32) -> (r: MsresampState)
        requires
            spec_is_positive_finite(rate_bits),
            spec_is_positive_finite(attenuation_bits),
        ensures
            r.rate() == rate_bits,
            r.attenuation() == attenuation_bits,
            r.delay() == delay_bits,
    {
        MsresampState { rate_bits, attenuation_bits, delay_bits }
    }

    /// Like `new`, but refuses a rate or an attenuation that is not positive
    /// and finite, naming the rate first where both are.
    pub fn try_new(rate_bits: u32, attenuation_bits: u32, delay_bits: u32) -> (r: Result<
        MsresampState,
        ConfigError,
    >)
        ensures
            !spec_is_positive_finite(rate_bits) ==> r == Err::<MsresampState, ConfigError>(
                ConfigError::NonPositiveRate,
            ),
            spec_is_positive_finite(rate_bits) && !spec_is_positive_finite(attenuation_bits) ==> r
                == Err::<MsresampState, ConfigError>(ConfigError::NonPositiveAttenuation),
            r is Ok <==> (spec_is_positive_finite(rate_bits) && spec_is_positive_finite(
                attenuation_bits,
            )),
            r matches Ok(m) ==> m.rate() == rate_bits && m.attenuation() == attenuation_bits
                && m.delay() == delay_bits,
    {
        match check_parameters(rate_bits, attenuation_bits) {
            Err(e) => Err(e),
            Ok(()) => Ok(MsresampState::new(rate_bits, attenuation_bits, delay_bits)),
        }
    }

    pub fn rate_bits(&self) -> (r: u32)
        ensures
            r == self.rate(),
    {
        self.rate_bits
    }

    pub fn attenuation_bits(&self) -> (r: u32)
        ensures
            r == self.attenuation(),
    {
        self.attenuation_bits
    }

    /// The cascade's group delay, as recorded at construction.
    pub fn delay_bits(&self) -> (r: u32)
        ensures
            r == self.delay(),
    {
        self.delay_bits
    }
}

/// A zeroed output buffer of `capacity` samples for a resampler call to
/// write into.
pub fn output_buffer(capacity: usize) -> (r: Vec<Sample>)
    ensures
        r@ == Seq::new(capacity as nat, |i: int| Sample::spec_zero()),
{
    let mut out: Vec<Sample> = Vec::with_capacity(capacity);
    let mut i: usize = 0;
    while i < capacity
        invariant
            i <= capacity,
            out@ == Seq::new(i as nat, |k: int| Sample::spec_zero()),
        decreases capacity - i,
    {
        out.push(Sample::zero());
        i = i + 1;
        proof {
            assert(out@ =~= Seq::new(i as nat, |k: int| Sample::spec_zero()));
        }
    }
    out
}

/// A resampler call reported writing more samples than its output buffer
/// holds.
#[derive(Clone, Copy, Debug, PartialEq, Eq, Structural)]
pub struct OutputOverrun {
    pub reported: u32,
    pub buffer_len: usize,
}

/// The reported count of a resampler call, or an error where it exceeds the
/// buffer that was handed to the call.
pub fn check_written(reported: u32, buffer_len: usize) -> (r: Result<usize, OutputOverrun>)
    ensures
        r is Ok <==> reported as nat <= buffer_len as nat,
        r matches Ok(n) ==> n as nat == reported as nat,
        r matches Err(e) ==> e == (OutputOverrun { reported, buffer_len }),
{
    if (reported as u64) <= (buffer_len as u64) {
        Ok(reported as usize)
    } else {
        Err(OutputOverrun { reported, buffer_len })
    }
}

/// How many samples of a buffer of `buffer_len` a call may hand back when it
/// reports `reported` written: the count, bounded by the buffer.
pub fn written_count(reported: u32, buffer_len: usize) -> (r: usize)
    ensures
        r as nat == spec_written_count(reported, buffer_len as nat),
        r <= buffer_len,
{
    if (reported as u64) <= (buffer_len as u64) {
        reported as usize
    } else {
        buffer_len
    }
}

/// Cuts an output buffer down to what the resampler reported writing.
pub fn keep_written(buffer: Vec<Sample>, reported: u32) -> (r: Vec<Sample>)
    ensures
        r@ == spec_written(buffer@, reported),
        r@.len() <= buffer@.len(),
        reported as nat <= buffer@.len() ==> r@ == buffer@.take(reported as int),
        reported as nat <= buffer@.len() ==> r@.len() == reported as nat,
{
    let mut out = buffer;
    let n = written_count(reported, out.len());
    out.truncate(n);
    out
}

} // verus!

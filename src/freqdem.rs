use vstd::prelude::*;

use crate::config::{is_nan, is_zero, spec_is_nan, spec_is_zero, ConfigError};
use crate::sample::Sample;

verus! {

/// Two consecutive samples of a stream. A frequency demodulator turns each
/// such step into one instantaneous-frequency estimate: the argument of
/// `current * conj(previous)`, scaled by `1 / kf`.
#[derive(Clone, Copy, Debug, PartialEq, Eq, Structural)]
pub struct PhaseStep {
    pub previous: Sample,
    pub current: Sample,
}

/// The `i`-th step of `xs` for a demodulator that last saw `prev`.
pub open spec fn step_at(prev: Sample, xs: Seq<Sample>, i: int) -> PhaseStep {
    PhaseStep { previous: if i == 0 { prev } else { xs[i - 1] }, current: xs[i] }
}

/// The steps, one per input sample and in input order, that a demodulator
/// whose memory holds `prev` makes on `xs`.
pub open spec fn steps_from(prev: Sample, xs: Seq<Sample>) -> Seq<PhaseStep> {
    Seq::new(xs.len(), |i: int| step_at(prev, xs, i))
}

/// What the one-sample memory holds after `xs`, starting from `prev`.
pub open spec fn memory_after(prev: Sample, xs: Seq<Sample>) -> Sample {
    if xs.len() == 0 {
        prev
    } else {
        xs.last()
    }
}

/// State of a frequency demodulator: its modulation factor `kf` (bit pattern
/// of a single-precision value, fixed at construction) and the last sample it
/// was given.
pub struct FreqdemState {
    kf_bits: u32,
    previous: Sample,
}

impl FreqdemState {
    /// The modulation factor, as given to `new`.
    pub closed spec fn kf(&self) -> u32 {
        self.kf_bits
    }

    /// The sample that the next step is measured against.
    pub closed spec fn memory(&self) -> Sample {
        self.previous
    }

    /// A demodulator that has seen nothing yet; its memory starts at zero, so
    /// the first estimate is measured against `0.0 + 0.0i`. The modulation
    /// factor must be neither zero nor NaN: every estimate is divided by it.
    pub fn new(kf_bits: u32) -> (r: FreqdemState)
        requires
            !spec_is_zero(kf_bits),
            !spec_is_nan(kf_bits),
        ensures
            r.kf() == kf_bits,
            r.memory() == Sample::spec_zero(),
    {
        FreqdemState { kf_bits, previous: Sample::zero() }
    }

    /// Like `new`, but refuses a zero or NaN modulation factor.
    pub fn try_new(kf_bits: u32) -> (r: Result<FreqdemState, ConfigError>)
        ensures
            r is Err <==> (spec_is_zero(kf_bits) || spec_is_nan(kf_bits)),
            r is Err ==> r == Err::<FreqdemState, ConfigError>(ConfigError::ZeroModulationFactor),
            r matches Ok(d) ==> d.kf() == kf_bits && d.memory() == Sample::spec_zero(),
    {
        if is_zero(kf_bits) || is_nan(kf_bits) {
            Err(ConfigError::ZeroModulationFactor)
        } else {
            Ok(FreqdemState::new(kf_bits))
        }
    }

    pub fn kf_bits(&self) -> (r: u32)
        ensures
            r == self.kf(),
    {
        self.kf_bits
    }

    /// Takes one sample: returns the step from the remembered sample to it,
    /// and remembers it in turn.
    pub fn advance(&mut self, sample: Sample) -> (r: PhaseStep)
        ensures
            r == (PhaseStep { previous: old(self).memory(), current: sample }),
            final(self).memory() == sample,
            final(self).kf() == old(self).kf(),
    {
        let step = PhaseStep { previous: self.previous, current: sample };
        self.previous = sample;
        step
    }

    /// Takes a block of samples: returns one step per sample, in order, each
    /// measured against the sample before it (the first against the memory),
    /// and leaves the memory at the block's last sample.
    pub fn advance_block(&mut self, input: &[Sample]) -> (r: Vec<PhaseStep>)
        ensures
            r@ == steps_from(old(self).memory(), input@),
            r@.len() == input@.len(),
            final(self).memory() == memory_after(old(self).memory(), input@),
            final(self).kf() == old(self).kf(),
    {
        let ghost start = self.previous;
        let mut out: Vec<PhaseStep> = Vec::with_capacity(input.len());
        let mut i: usize = 0;
        while i < input.len()
            invariant
                i <= input@.len(),
                out@ == steps_from(start, input@.subrange(0, i as int)),
                self.previous == memory_after(start, input@.subrange(0, i as int)),
                self.kf_bits == old(self).kf_bits,
            decreases input@.len() - i,
        {
            let step = self.advance(input[i]);
            proof {
                assert(input@.subrange(0, i as int + 1) =~= input@.subrange(0, i as int).push(
                    input@[i as int],
                ));
            }
            out.push(step);
            i = i + 1;
            proof {
                assert(out@ =~= steps_from(start, input@.subrange(0, i as int)));
            }
        }
        proof {
            assert(input@.subrange(0, input@.len() as int) =~= input@);
        }
        out
    }
}

/// Feeding `a` and then `b` gives the steps of `a` followed by the steps of
/// `b` as measured from where `a` left the memory: the same steps, and the
/// same final memory, as feeding `a + b` at once.
pub proof fn lemma_block_split(prev: Sample, a: Seq<Sample>, b: Seq<Sample>)
    ensures
        steps_from(prev, a + b) == steps_from(prev, a) + steps_from(memory_after(prev, a), b),
        memory_after(prev, a + b) == memory_after(memory_after(prev, a), b),
{
    assert(steps_from(prev, a + b) =~= steps_from(prev, a) + steps_from(memory_after(prev, a), b));
}

/// On a stream that repeats one sample `c`, every step after the first goes
/// from `c` to `c`: the demodulator compares the sample with itself, which is
/// a phase difference of zero.
pub proof fn lemma_constant_input(prev: Sample, xs: Seq<Sample>, c: Sample)
    requires
        forall|i: int| 0 <= i < xs.len() ==> xs[i] == c,
    ensures
        forall|i: int|
            1 <= i < xs.len() ==> #[trigger] steps_from(prev, xs)[i] == (PhaseStep {
                previous: c,
                current: c,
            }),
{
}

} // verus!

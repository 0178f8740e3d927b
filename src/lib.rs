//! Verified stream bookkeeping for a frequency demodulator and a multi-stage
//! resampler over complex baseband samples.
//!
//! Samples are carried as the bit patterns of their single-precision parts;
//! the arithmetic on those values happens in the caller, while this crate
//! owns the state that is threaded from one sample and one call to the next,
//! and the checks on construction parameters.
pub mod config;
pub mod sample;
pub mod freqdem;
pub mod msresamp;

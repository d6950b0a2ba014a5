//! A probability-theory toolbox built around the Gaussian distribution.
//!
//! The discrete decision core of the Ziggurat sampling method lives in
//! [`ziggurat`] and is verified: every 64-bit word drawn from a random
//! source is decoded into a layer index, a 24-bit fraction, and a sign,
//! and classified into the step the sampler must take next.

use vstd::prelude::*;

pub mod ziggurat;

verus! {

/// A means of pairing a probability distribution with a source of
/// randomness so that a sequence of samples can be drawn from it.
pub struct Sampler<D, G>(pub D, pub G);

} // verus!

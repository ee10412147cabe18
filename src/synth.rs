use vstd::prelude::*;

use crate::util::units::Hz;

verus! {

/// A source that an audio backend pulls samples from, one per call.
pub trait Synth: Sized {
    fn new() -> Self;

    fn _next(&mut self) -> Option<i16>;

    fn get_sample_rate(&self) -> Hz;

    fn set_sample_rate(&mut self, sample_rate: Hz);
}

} // verus!

pub mod pcm;

use crate::tags::{Empty, TagState};
use vstd::prelude::*;

verus! {

/// μ-law audio format.
#[derive(Debug)]
pub struct Mulaw {
    pub sample_rate: u32,
}

/// An audio format; in the `Full` state it also carries the samples.
#[derive(Debug)]
pub enum AudioFormat<T: TagState> {
    PCM(pcm::Pcm<T>),
}

impl Clone for AudioFormat<Empty> {
    /// The same format description.
    fn clone(&self) -> (r: Self)
        ensures
            r == *self,
    {
        match self {
            AudioFormat::PCM(pcm) => AudioFormat::PCM(pcm.clone()),
        }
    }
}

} // verus!

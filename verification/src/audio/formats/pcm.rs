use crate::tags::{Empty, Tag, TagState};
use vstd::prelude::*;

verus! {

/// Label of signed 16-bit little-endian samples.
#[derive(Debug, Default, Clone, PartialEq, Eq)]
pub struct S16LE;

/// Sample layout of a PCM format; in the `Full` state it carries the samples.
#[derive(Debug)]
pub enum Layout<S: TagState> {
    S16LE(Tag<S16LE, Box<[i16]>, S>),
}

impl Clone for Layout<Empty> {
    /// The same layout description.
    fn clone(&self) -> (r: Self)
        ensures
            r == *self,
    {
        match self {
            Layout::S16LE(tag) => Layout::S16LE(tag.clone()),
        }
    }
}

/// A PCM format: sample layout and sample rate.
#[derive(Debug)]
pub struct Pcm<T: TagState> {
    pub layout: Layout<T>,
    pub sample_rate: u32,
}

impl Clone for Pcm<Empty> {
    /// The same PCM format description.
    fn clone(&self) -> (r: Self)
        ensures
            r == *self,
    {
        Self { layout: self.layout.clone(), sample_rate: self.sample_rate }
    }
}

} // verus!

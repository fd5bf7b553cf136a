use crate::audio::formats::AudioFormat;
use crate::tags::{Empty, Full, TagState};
use vstd::prelude::*;

verus! {

/// A media format; `MediaFormat<Empty>` describes a format, `MediaFormat<Full>` carries data in it.
#[derive(Debug)]
pub enum MediaFormat<S: TagState = Empty> {
    Audio(AudioFormat<S>),
}

/// Media data: a format together with its payload.
pub type MediaData = MediaFormat<Full>;

impl Clone for MediaFormat<Empty> {
    /// The same format description.
    fn clone(&self) -> (r: Self)
        ensures
            r == *self,
    {
        match self {
            MediaFormat::Audio(audio) => MediaFormat::Audio(audio.clone()),
        }
    }
}

} // verus!

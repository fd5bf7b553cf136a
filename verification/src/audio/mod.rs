pub mod formats;

use vstd::prelude::*;

verus! {

/// Sample layout of raw audio, with or without the samples themselves.
#[derive(Debug, Clone)]
pub enum Layout {
    S16LE(Option<Box<[i16]>>),
}

/// Bit rate of an MP3 stream, in kbit/s.
#[derive(Debug, Clone)]
pub enum BitRate {
    Br128,
    Br192,
    Br256,
    Br320,
}

/// μ-law encoded audio.
#[derive(Debug, Clone)]
pub struct Mulaw {
    pub data: Option<Box<[u8]>>,
    pub sample_rate: u32,
}

/// Raw PCM audio.
#[derive(Debug, Clone)]
pub struct Pcm {
    pub layout: Layout,
    pub sample_rate: u32,
}

/// MP3 encoded audio.
#[derive(Debug, Clone)]
pub struct Mp3 {
    pub data: Option<Box<[u8]>>,
    pub bit_rate: BitRate,
}

/// Audio in one of the supported encodings.
#[derive(Debug, Clone)]
pub enum AudioData {
    Mulaw(Mulaw),
    PCM(Layout),
    MP3(Mp3),
}

} // verus!

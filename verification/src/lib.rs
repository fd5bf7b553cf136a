pub mod audio;
pub mod channel_traits;
pub mod channel_utils;
pub mod errors;
pub mod pad;
pub mod pad_element;
pub mod pads;
pub mod formats;
pub mod tags;
pub mod pipeline_builder;
pub mod sink_stream;

use pipeline::audio::formats::pcm::{Layout, Pcm, S16LE};
use pipeline::audio::formats::AudioFormat;
use pipeline::audio::{AudioData, BitRate, Mp3, Mulaw};
use pipeline::channel_traits::mpsc::SendError;
use pipeline::errors::LinkError;
use pipeline::formats::{MediaData, MediaFormat};
use pipeline::tags::{Empty, Full, Tag};

#[test]
fn full_tag_derefs_to_its_data() {
    let tag: Tag<S16LE, Vec<i16>, Full> = Tag::new(vec![1, 2, 3]);
    assert_eq!(*tag, vec![1, 2, 3]);
    assert_eq!(tag.len(), 3);
}

#[test]
fn full_tag_data_can_be_changed_in_place() {
    let mut tag: Tag<S16LE, Vec<i16>, Full> = Tag::new(vec![1]);
    tag.push(7);
    (*tag)[0] = 5;
    assert_eq!(*tag, vec![5, 7]);
}

#[test]
fn tags_of_one_kind_are_always_equal() {
    let a: Tag<S16LE, i32, Full> = Tag::new(1);
    let b: Tag<S16LE, i32, Full> = Tag::new(2);
    assert!(a == b);
    let e1: Tag<S16LE, i32, Empty> = Tag::default();
    let e2 = e1.clone();
    assert!(e1 == e2);
}

#[test]
fn empty_media_format_clones_to_the_same_description() {
    let format: MediaFormat = MediaFormat::Audio(AudioFormat::PCM(Pcm {
        layout: Layout::S16LE(Tag::default()),
        sample_rate: 16000,
    }));
    let copy = format.clone();
    match copy {
        MediaFormat::Audio(AudioFormat::PCM(Pcm { layout: Layout::S16LE(_), sample_rate })) => {
            assert_eq!(sample_rate, 16000)
        }
    }
}

#[test]
fn pcm_and_layout_clone_keep_the_sample_rate() {
    let pcm: Pcm<Empty> = Pcm { layout: Layout::S16LE(Tag::default()), sample_rate: 8000 };
    let copy = pcm.clone();
    assert_eq!(copy.sample_rate, 8000);
    let layout: Layout<Empty> = Layout::S16LE(Tag::default());
    let _ = layout.clone();
    let audio: AudioFormat<Empty> = AudioFormat::PCM(copy);
    match audio.clone() {
        AudioFormat::PCM(p) => assert_eq!(p.sample_rate, 8000),
    }
}

#[test]
fn media_data_carries_its_samples() {
    let data: MediaData = MediaFormat::Audio(AudioFormat::PCM(Pcm {
        layout: Layout::S16LE(Tag::new(vec![4i16, 5].into_boxed_slice())),
        sample_rate: 16000,
    }));
    match &data {
        MediaFormat::Audio(AudioFormat::PCM(Pcm { layout: Layout::S16LE(samples), .. })) => {
            assert_eq!(&***samples, &[4i16, 5][..])
        }
    }
}

#[test]
fn audio_data_values_clone() {
    let mulaw = AudioData::Mulaw(Mulaw { data: Some(vec![1u8].into_boxed_slice()), sample_rate: 8000 });
    let mp3 = AudioData::MP3(Mp3 { data: None, bit_rate: BitRate::Br320 });
    match (mulaw.clone(), mp3.clone()) {
        (AudioData::Mulaw(m), AudioData::MP3(p)) => {
            assert_eq!(m.sample_rate, 8000);
            assert_eq!(m.data.as_deref(), Some(&[1u8][..]));
            assert!(matches!(p.bit_rate, BitRate::Br320));
        }
        _ => panic!("clone changed the variant"),
    }
}

#[test]
fn link_error_messages() {
    assert_eq!(LinkError::InitialFormatMismatch.to_string(), "Initial format mismatch");
    assert_eq!(LinkError::FormatMismatch.to_string(), "Format mismatch");
    assert_eq!(LinkError::ChannelClosed.to_string(), "Channel closed");
}

#[test]
fn send_error_message_is_empty() {
    assert_eq!(SendError(()).to_string(), "");
    let carried = SendError(7u32);
    assert_eq!(carried.0, 7);
}

#[test]
fn tag_debug_names_tag_data_and_state() {
    let tag: Tag<S16LE, i32, Full> = Tag::new(3);
    let shown = format!("{:?}", tag);
    assert!(shown.starts_with("Tag { tag: PhantomData<"));
    assert!(shown.contains(", data: Some(3), state: PhantomData<"));
    let empty: Tag<S16LE, i32, Empty> = Tag::default();
    assert!(format!("{:?}", empty).contains("data: None"));
}

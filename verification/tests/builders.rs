use pipeline::errors::LinkError;
use pipeline::pad::{FormatNegotiator, FormatProvider, LinkElement, SinkPad, StreamPad};
use pipeline::pad_element;
use pipeline::pads;
use pipeline::pipeline_builder::{manual, negotiator};

/// A producer offering some sample rates; its receiver names the rate it was opened with.
struct Producer {
    rates: Vec<u32>,
}

impl FormatProvider<u32> for Producer {
    fn formats(&self) -> Vec<u32> {
        self.rates.clone()
    }
}

impl StreamPad<i16, u32> for Producer {
    type Receiver = String;

    fn get_rx(self, rx_format: &u32) -> Result<String, LinkError> {
        if self.rates.contains(rx_format) {
            Ok(format!("producer@{}", rx_format))
        } else {
            Err(LinkError::InitialFormatMismatch)
        }
    }
}

/// A passthrough link: accepts everything and then offers exactly the format it got.
struct Passthrough;

impl FormatNegotiator<u32> for Passthrough {
    fn matches(&self, _: &u32) -> bool {
        true
    }
}

struct PassthroughSink(u32);

impl SinkPad<i16, u32> for PassthroughSink {
    type Sender = String;

    fn get_tx(self, tx_format: &u32) -> Result<String, LinkError> {
        Ok(format!("passthrough-in@{}/{}", self.0, tx_format))
    }
}

struct PassthroughStream(u32);

impl FormatProvider<u32> for PassthroughStream {
    fn formats(&self) -> Vec<u32> {
        vec![self.0]
    }
}

impl StreamPad<i16, u32> for PassthroughStream {
    type Receiver = String;

    fn get_rx(self, rx_format: &u32) -> Result<String, LinkError> {
        Ok(format!("passthrough-out@{}/{}", self.0, rx_format))
    }
}

impl LinkElement<i16, u32> for Passthrough {
    type SinkPad = PassthroughSink;
    type StreamPad = PassthroughStream;

    fn get_pads(self, rx_format: &u32) -> Result<(PassthroughSink, PassthroughStream), LinkError> {
        Ok((PassthroughSink(*rx_format), PassthroughStream(*rx_format)))
    }
}

/// A consumer that only takes one sample rate.
struct Consumer(u32);

impl FormatNegotiator<u32> for Consumer {
    fn matches(&self, format: &u32) -> bool {
        *format == self.0
    }
}

impl SinkPad<i16, u32> for Consumer {
    type Sender = String;

    fn get_tx(self, tx_format: &u32) -> Result<String, LinkError> {
        Ok(format!("consumer@{}", tx_format))
    }
}

#[test]
fn negotiated_pipeline_uses_the_first_accepted_format_at_each_joint() {
    let builder = negotiator::Builder::with_stream(Producer { rates: vec![8000, 16000] });
    let (builder, first) = builder.set_link(Passthrough).unwrap();
    assert_eq!(first, ("producer@8000".to_string(), "passthrough-in@8000/8000".to_string()));
    let second = builder.build_with_sink(Consumer(8000)).unwrap();
    assert_eq!(second, ("passthrough-out@8000/8000".to_string(), "consumer@8000".to_string()));
}

#[test]
fn negotiated_pipeline_reports_a_sink_that_accepts_nothing_offered() {
    let builder = negotiator::Builder::with_stream(Producer { rates: vec![8000, 16000] });
    let (builder, _) = builder.set_link(Passthrough).unwrap();
    // The passthrough now offers only 8000.
    let r = builder.build_with_sink(Consumer(16000));
    assert_eq!(r, Err(LinkError::InitialFormatMismatch));
}

#[test]
fn negotiated_sink_directly_after_the_stream() {
    let builder = negotiator::Builder::with_stream(Producer { rates: vec![8000, 16000, 44100] });
    let r = builder.build_with_sink(Consumer(16000));
    assert_eq!(r, Ok(("producer@16000".to_string(), "consumer@16000".to_string())));
}

#[test]
fn manual_pipeline_uses_the_given_formats() {
    let builder = manual::Builder::with_stream(Producer { rates: vec![8000, 16000] });
    let (builder, first) = builder.set_link(Passthrough, &16000).unwrap();
    assert_eq!(first, ("producer@16000".to_string(), "passthrough-in@16000/16000".to_string()));
    let r = builder.build_with_sink(Consumer(44100), &44100);
    assert_eq!(r, Ok(("passthrough-out@16000/44100".to_string(), "consumer@44100".to_string())));
}

#[test]
fn manual_pipeline_reports_the_stream_pads_refusal() {
    let builder = manual::Builder::with_stream(Producer { rates: vec![8000] });
    let r = builder.set_link(Passthrough, &16000);
    assert!(matches!(r, Err(LinkError::InitialFormatMismatch)));
}

#[test]
fn pads_builder_negotiates_like_the_pipeline_builder() {
    let builder = pads::builder::StreamPadBuilder::with_stream(Producer { rates: vec![44100, 8000] });
    let (builder, first) = builder.set_link(Passthrough).unwrap();
    assert_eq!(first, ("producer@44100".to_string(), "passthrough-in@44100/44100".to_string()));
    assert_eq!(builder.build_with_sink(Consumer(8000)), Err(LinkError::InitialFormatMismatch));
}

/// Pads of the element-style interface, where pads negotiate themselves.
struct ElementSource(Vec<u32>);

impl pads::FormatProvider<u32> for ElementSource {
    fn formats(&self) -> Vec<u32> {
        self.0.clone()
    }
}

impl pad_element::StreamPad<i16, u32> for ElementSource {
    type Receiver = u32;

    fn get_rx(self, format: &u32) -> Result<u32, LinkError> {
        Ok(*format)
    }
}

struct ElementSink(u32);

impl pads::FormatNegotiator<u32> for ElementSink {
    fn matches(&self, format: &u32) -> bool {
        *format >= self.0
    }
}

impl pad_element::SinkPad<i16, u32> for ElementSink {
    type Sender = u32;

    fn get_tx(self, format: &u32) -> Result<u32, LinkError> {
        Ok(format + 1)
    }
}

#[test]
fn element_builder_connects_in_the_first_negotiated_format() {
    let builder = pad_element::builder::StreamPadBuilder::with_stream(ElementSource(vec![8000, 16000, 44100]));
    let (builder, first) = builder
        .set_link((ElementSink(16000), ElementSource(vec![1, 2, 3])))
        .unwrap();
    assert_eq!(first, (16000, 16001));
    assert_eq!(builder.build_with_sink(ElementSink(3)), Ok((3, 4)));
}

#[test]
fn element_builder_fails_without_a_common_format() {
    let builder = pad_element::builder::StreamPadBuilder::with_stream(ElementSource(vec![8000]));
    assert_eq!(builder.build_with_sink(ElementSink(16000)), Err(LinkError::InitialFormatMismatch));
}

use std::cell::Cell;

use pipeline::errors::LinkError;
use pipeline::pad::{connect_pads, negotiate_format, FormatNegotiator, SinkPad, StreamPad};
use pipeline::pads;

/// Accepts sample rates of at least `min`, counting how often it was asked.
struct MinRate {
    min: u32,
    asked: Cell<usize>,
}

impl MinRate {
    fn new(min: u32) -> Self {
        MinRate { min, asked: Cell::new(0) }
    }
}

impl FormatNegotiator<u32> for MinRate {
    fn matches(&self, format: &u32) -> bool {
        self.asked.set(self.asked.get() + 1);
        *format >= self.min
    }
}

#[test]
fn negotiation_picks_the_first_accepted_format() {
    let sink = MinRate::new(16000);
    assert_eq!(negotiate_format(&vec![8000, 16000, 44100], &sink), Ok(1));
    assert_eq!(sink.asked.get(), 2);
}

#[test]
fn negotiation_fails_when_nothing_is_accepted() {
    let sink = MinRate::new(96000);
    assert_eq!(
        negotiate_format(&vec![8000, 16000, 44100], &sink),
        Err(LinkError::InitialFormatMismatch)
    );
    assert_eq!(sink.asked.get(), 3);
    let empty: Vec<u32> = Vec::new();
    assert_eq!(negotiate_format(&empty, &sink), Err(LinkError::InitialFormatMismatch));
}

struct EvenOnly;

impl pads::FormatNegotiator<u32> for EvenOnly {
    fn matches(&self, format: &u32) -> bool {
        format % 2 == 0
    }
}

struct Offers(Vec<u32>);

impl pads::FormatProvider<u32> for Offers {
    fn formats(&self) -> Vec<u32> {
        self.0.clone()
    }
}

#[test]
fn negotiated_formats_keep_the_offered_order() {
    let negotiated = pads::negotiate_formats(&Offers(vec![1, 4, 3, 2, 6]), &EvenOnly);
    assert_eq!(negotiated, vec![4, 2, 6]);
    let none = pads::negotiate_formats(&Offers(vec![1, 3]), &EvenOnly);
    assert!(none.is_empty());
}

/// A stream pad that yields a receiver for one format only.
struct Source {
    rate: u32,
    label: &'static str,
}

impl StreamPad<i16, u32> for Source {
    type Receiver = String;

    fn get_rx(self, rx_format: &u32) -> Result<String, LinkError> {
        if *rx_format == self.rate {
            Ok(format!("{} rx {}", self.label, rx_format))
        } else {
            Err(LinkError::FormatMismatch)
        }
    }
}

/// A sink pad that records whether it was asked for its sender.
struct Target<'a> {
    asked: &'a Cell<bool>,
    closed: bool,
}

impl<'a> SinkPad<i16, u32> for Target<'a> {
    type Sender = String;

    fn get_tx(self, tx_format: &u32) -> Result<String, LinkError> {
        self.asked.set(true);
        if self.closed {
            Err(LinkError::ChannelClosed)
        } else {
            Ok(format!("tx {}", tx_format))
        }
    }
}

#[test]
fn connecting_pads_hands_out_both_ends() {
    let asked = Cell::new(false);
    let r = connect_pads(Source { rate: 8000, label: "a" }, Target { asked: &asked, closed: false }, &8000);
    assert_eq!(r, Ok(("a rx 8000".to_string(), "tx 8000".to_string())));
    assert!(asked.get());
}

#[test]
fn sink_is_not_asked_when_the_stream_refuses() {
    let asked = Cell::new(false);
    let r = connect_pads(Source { rate: 8000, label: "a" }, Target { asked: &asked, closed: false }, &16000);
    assert_eq!(r, Err(LinkError::FormatMismatch));
    assert!(!asked.get());
}

#[test]
fn sink_failure_is_reported() {
    let asked = Cell::new(false);
    let r = connect_pads(Source { rate: 8000, label: "a" }, Target { asked: &asked, closed: true }, &8000);
    assert_eq!(r, Err(LinkError::ChannelClosed));
    assert!(asked.get());
}

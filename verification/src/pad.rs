use crate::errors::LinkError;
use vstd::prelude::*;

verus! {

/// A pad that offers the formats it can produce, in order of preference.
pub trait FormatProvider<F> {
    fn formats(&self) -> Vec<F>;
}

/// A pad that tells which formats it accepts.
pub trait FormatNegotiator<F> {
    fn matches(&self, format: &F) -> bool;
}

/// The producing end of a connection. `get_rx` prepares the pad for `rx_format`
/// and hands out the receiving end of its channel.
pub trait StreamPad<D, F> {
    type Receiver;

    fn get_rx(self, rx_format: &F) -> Result<Self::Receiver, LinkError>;
}

/// The consuming end of a connection. `get_tx` prepares the pad for `tx_format`
/// and hands out the sending end of its channel.
pub trait SinkPad<D, F> {
    type Sender;

    fn get_tx(self, tx_format: &F) -> Result<Self::Sender, LinkError>;
}

/// An element between two pads. Once the format of its input is known, it splits
/// into the sink pad that consumes that input and the stream pad that produces its output.
pub trait LinkElement<Drx, Frx, Dtx = Drx, Ftx = Frx> {
    type SinkPad: SinkPad<Drx, Frx>;
    type StreamPad: StreamPad<Dtx, Ftx>;

    fn get_pads(self, rx_format: &Frx) -> Result<(Self::SinkPad, Self::StreamPad), LinkError>;
}

/// `negotiator` answered `true` for `formats[i]` and `false` for every format before it.
pub open spec fn accepts_first<F, N: FormatNegotiator<F>>(negotiator: &N, formats: Seq<F>, i: int) -> bool {
    &&& 0 <= i < formats.len()
    &&& call_ensures(N::matches, (negotiator, &formats[i]), true)
    &&& forall|j: int| 0 <= j < i ==> call_ensures(N::matches, (negotiator, &formats[j]), false)
}

/// `negotiator` answered `false` for every format.
pub open spec fn accepts_none<F, N: FormatNegotiator<F>>(negotiator: &N, formats: Seq<F>) -> bool {
    forall|j: int| 0 <= j < formats.len() ==> call_ensures(N::matches, (negotiator, &formats[j]), false)
}

/// Chooses the format of a connection: the first of `formats` that `negotiator` accepts.
/// Asks `negotiator` about the formats in order and stops at the first it accepts.
pub fn negotiate_format<F, N: FormatNegotiator<F>>(formats: &Vec<F>, negotiator: &N) -> (r: Result<
    usize,
    LinkError,
>)
    ensures
        match r {
            Ok(i) => accepts_first(negotiator, formats@, i as int),
            Err(e) => e == LinkError::InitialFormatMismatch && accepts_none(negotiator, formats@),
        },
{
    let mut i: usize = 0;
    while i < formats.len()
        invariant
            i <= formats.len(),
            forall|j: int| 0 <= j < i ==> call_ensures(N::matches, (negotiator, &formats@[j]), false),
        decreases formats.len() - i,
    {
        if negotiator.matches(&formats[i]) {
            return Ok(i);
        }
        i = i + 1;
    }
    Err(LinkError::InitialFormatMismatch)
}

/// `r` is a possible result of connecting `stream_pad` to `sink_pad` in `format`: on success,
/// the receiver and the sender are ones the stream pad and the sink pad can give for `format`;
/// on failure with `e`, either the stream pad can refuse `format` with `e`, or it can give a
/// receiver and the sink pad can refuse `format` with `e`.
pub open spec fn connects<D, F, S: StreamPad<D, F>, T: SinkPad<D, F>>(
    stream_pad: S,
    sink_pad: T,
    format: &F,
    r: Result<(S::Receiver, T::Sender), LinkError>,
) -> bool {
    match r {
        Ok((rx, tx)) => {
            &&& call_ensures(S::get_rx, (stream_pad, format), Ok(rx))
            &&& call_ensures(T::get_tx, (sink_pad, format), Ok(tx))
        },
        Err(e) => {
            ||| call_ensures(S::get_rx, (stream_pad, format), Err(e))
            ||| exists|rx: S::Receiver|
                {
                    &&& call_ensures(S::get_rx, (stream_pad, format), Ok(rx))
                    &&& call_ensures(T::get_tx, (sink_pad, format), Err(e))
                }
        },
    }
}

/// Prepares both ends of a connection in `format` and hands out the receiver of
/// `stream_pad` and the sender of `sink_pad`, between which the data is to flow.
pub fn connect_pads<D, F, S: StreamPad<D, F>, T: SinkPad<D, F>>(
    stream_pad: S,
    sink_pad: T,
    format: &F,
) -> (r: Result<(S::Receiver, T::Sender), LinkError>)
    ensures
        connects(stream_pad, sink_pad, format, r),
{
    let rx = match stream_pad.get_rx(format) {
        Ok(rx) => rx,
        Err(e) => return Err(e),
    };
    let tx = match sink_pad.get_tx(format) {
        Ok(tx) => tx,
        Err(e) => return Err(e),
    };
    Ok((rx, tx))
}

/// What happened on a running link: the stream yielded an item, the stream ended,
/// or the sink refused an item because its channel is closed.
pub enum LinkEvent<D> {
    Received(D),
    StreamEnded,
    SendFailed,
}

/// What a running link does next: send the item on to the sink, or finish with a result.
pub enum LinkAction<D> {
    Send(D),
    Finish(Result<(), LinkError>),
}

/// What a running link does on `event`.
pub open spec fn link_reaction<D>(event: LinkEvent<D>) -> LinkAction<D> {
    match event {
        LinkEvent::Received(d) => LinkAction::Send(d),
        LinkEvent::StreamEnded => LinkAction::Finish(Ok(())),
        LinkEvent::SendFailed => LinkAction::Finish(Err(LinkError::ChannelClosed)),
    }
}

/// A running link that sees `events`, in order: the items it sends on, in order, and the
/// result it finishes with (`None` while it has not finished).
pub open spec fn link_run<D>(events: Seq<LinkEvent<D>>) -> (Seq<D>, Option<Result<(), LinkError>>)
    decreases events.len(),
{
    if events.len() == 0 {
        (Seq::empty(), None)
    } else {
        match link_reaction(events[0]) {
            LinkAction::Send(d) => {
                let (sent, finished) = link_run(events.drop_first());
                (seq![d] + sent, finished)
            },
            LinkAction::Finish(result) => (Seq::empty(), Some(result)),
        }
    }
}

/// Data flow of a link: when the stream yields `items` and then ends, and the sink takes
/// every item, the link sends on exactly `items`, in order, and finishes successfully.
pub proof fn lemma_link_forwards_stream_in_order<D>(items: Seq<D>)
    ensures
        link_run(items.map_values(|d: D| LinkEvent::Received(d)).push(LinkEvent::StreamEnded))
            == (items, Some(Ok::<(), LinkError>(()))),
    decreases items.len(),
{
    let events = items.map_values(|d: D| LinkEvent::Received(d)).push(LinkEvent::StreamEnded);
    if items.len() > 0 {
        let rest = items.drop_first();
        lemma_link_forwards_stream_in_order(rest);
        assert(events.drop_first() == rest.map_values(|d: D| LinkEvent::Received(d)).push(
            LinkEvent::StreamEnded,
        ));
        assert(seq![items[0]] + rest == items);
    }
}

/// When the sink's channel closes after the link sent `items`, the link finishes with
/// `ChannelClosed`, having sent exactly those items.
pub proof fn lemma_link_stops_when_sink_closes<D>(items: Seq<D>)
    ensures
        link_run(items.map_values(|d: D| LinkEvent::Received(d)).push(LinkEvent::SendFailed))
            == (items, Some(Err::<(), LinkError>(LinkError::ChannelClosed))),
    decreases items.len(),
{
    let events = items.map_values(|d: D| LinkEvent::Received(d)).push(LinkEvent::SendFailed);
    if items.len() > 0 {
        let rest = items.drop_first();
        lemma_link_stops_when_sink_closes(rest);
        assert(events.drop_first() == rest.map_values(|d: D| LinkEvent::Received(d)).push(
            LinkEvent::SendFailed,
        ));
        assert(seq![items[0]] + rest == items);
    }
}

/// The rule of a running link: every item the stream yields is sent on unchanged;
/// the link finishes successfully when the stream ends, and with `ChannelClosed`
/// as soon as the sink's channel is closed.
pub fn link_step<D>(event: LinkEvent<D>) -> (action: LinkAction<D>)
    ensures
        action == link_reaction(event),
{
    match event {
        LinkEvent::Received(d) => LinkAction::Send(d),
        LinkEvent::StreamEnded => LinkAction::Finish(Ok(())),
        LinkEvent::SendFailed => LinkAction::Finish(Err(LinkError::ChannelClosed)),
    }
}

} // verus!

pub mod builder;

use crate::errors::LinkError;
use crate::pads::{accepted_in_order, negotiate_formats, FormatNegotiator, FormatProvider};
use vstd::prelude::*;

verus! {

/// The producing end of a connection, which also offers its formats.
pub trait StreamPad<D, F>: Sized + FormatProvider<F> {
    type Receiver;

    fn get_rx(self, format: &F) -> Result<Self::Receiver, LinkError>;
}

/// The consuming end of a connection, which also tells which formats it accepts.
pub trait SinkPad<D, F>: Sized + FormatNegotiator<F> {
    type Sender;

    fn get_tx(self, format: &F) -> Result<Self::Sender, LinkError>;
}

/// `r` is a possible result of connecting `stream_pad` to `sink_pad` in `format`: on success,
/// the receiver and the sender are ones the stream pad and the sink pad can give for `format`;
/// on failure with `e`, either the stream pad can refuse `format` with `e`, or it can give a
/// receiver and the sink pad can refuse `format` with `e`.
pub open spec fn connects_in<D, F, S: StreamPad<D, F>, T: SinkPad<D, F>>(
    stream_pad: S,
    sink_pad: T,
    format: &F,
    r: Result<(S::Receiver, T::Sender), LinkError>,
) -> bool {
    match r {
        Ok((rx, tx)) => {
            &&& call_ensures(S::get_rx, (stream_pad, format), Ok(rx))
            &&& call_ensures(T::get_tx, (sink_pad, format), Ok(tx))
        },
        Err(e) => {
            ||| call_ensures(S::get_rx, (stream_pad, format), Err(e))
            ||| exists|rx: S::Receiver|
                {
                    &&& call_ensures(S::get_rx, (stream_pad, format), Ok(rx))
                    &&& call_ensures(T::get_tx, (sink_pad, format), Err(e))
                }
        },
    }
}

/// `r` is what linking `stream_pad` to `sink_pad` gives: of the formats the stream pad
/// offers, the sink pad accepted those in `negotiated`; with none of them the link fails
/// with `InitialFormatMismatch`, and otherwise the pads are connected in the first.
pub open spec fn links_in_first_accepted<D, F, S: StreamPad<D, F>, T: SinkPad<D, F>>(
    stream_pad: S,
    sink_pad: T,
    offered: Vec<F>,
    negotiated: Seq<F>,
    r: Result<(S::Receiver, T::Sender), LinkError>,
) -> bool {
    &&& call_ensures(S::formats, (&stream_pad,), offered)
    &&& accepted_in_order(&sink_pad, offered@, negotiated)
    &&& if negotiated.len() == 0 {
        r == Err::<(S::Receiver, T::Sender), LinkError>(LinkError::InitialFormatMismatch)
    } else {
        connects_in(stream_pad, sink_pad, &negotiated[0], r)
    }
}

/// Prepares both ends of a connection from `stream_pad` to `sink_pad`, in the first format
/// that the stream pad offers and the sink pad accepts, and hands out the receiver and the
/// sender between which the data is to flow.
pub fn connect_negotiated<D, F, S: StreamPad<D, F>, T: SinkPad<D, F>>(
    stream_pad: S,
    sink_pad: T,
) -> (r: Result<(S::Receiver, T::Sender), LinkError>)
    ensures
        exists|offered: Vec<F>, negotiated: Seq<F>|
            #[trigger] links_in_first_accepted(stream_pad, sink_pad, offered, negotiated, r),
{
    let negotiated = negotiate_formats(&stream_pad, &sink_pad);
    let ghost offered = choose|offered: Vec<F>|
        {
            &&& call_ensures(S::formats, (&stream_pad,), offered)
            &&& #[trigger] accepted_in_order(&sink_pad, offered@, negotiated@)
        };
    if negotiated.len() == 0 {
        let r = Err(LinkError::InitialFormatMismatch);
        assert(links_in_first_accepted(stream_pad, sink_pad, offered, negotiated@, r));
        return r;
    }
    let format = &negotiated[0];
    let ghost pads = (stream_pad, sink_pad);
    let rx = match stream_pad.get_rx(format) {
        Ok(rx) => rx,
        Err(e) => {
            let r = Err(e);
            assert(links_in_first_accepted(pads.0, pads.1, offered, negotiated@, r));
            return r;
        },
    };
    let ghost received = rx;
    let tx = match sink_pad.get_tx(format) {
        Ok(tx) => tx,
        Err(e) => {
            let r = Err(e);
            assert(call_ensures(S::get_rx, (pads.0, format), Ok(received)));
            assert(links_in_first_accepted(pads.0, pads.1, offered, negotiated@, r));
            return r;
        },
    };
    let r = Ok((rx, tx));
    assert(links_in_first_accepted(pads.0, pads.1, offered, negotiated@, r));
    r
}

} // verus!

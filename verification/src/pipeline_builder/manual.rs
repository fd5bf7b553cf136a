use crate::errors::LinkError;
use crate::pad::{connect_pads, connects, LinkElement, SinkPad, StreamPad};
use vstd::prelude::*;

verus! {

/// `link_element` split, for input `format`, into a sink pad and `next_stream`, and
/// `stream` connected to that sink pad in `format`, giving `connection`.
pub open spec fn splits_and_connects<Stream, Data, Format, LinkT, Dtx, Ftx>(
    stream: Stream,
    link_element: LinkT,
    format: &Format,
    next_stream: LinkT::StreamPad,
    connection: (Stream::Receiver, <LinkT::SinkPad as SinkPad<Data, Format>>::Sender),
) -> bool where Stream: StreamPad<Data, Format>, LinkT: LinkElement<Data, Format, Dtx, Ftx> {
    exists|link_sink: LinkT::SinkPad|
        {
            &&& call_ensures(LinkT::get_pads, (link_element, format), Ok((link_sink, next_stream)))
            &&& #[trigger] connects(stream, link_sink, format, Ok(connection))
        }
}

/// Either `link_element` failed with `e` to split for input `format`, or it split and
/// connecting `stream` to its sink pad failed with `e`.
pub open spec fn split_or_connection_fails<Stream, Data, Format, LinkT, Dtx, Ftx>(
    stream: Stream,
    link_element: LinkT,
    format: &Format,
    e: LinkError,
) -> bool where Stream: StreamPad<Data, Format>, LinkT: LinkElement<Data, Format, Dtx, Ftx> {
    ||| call_ensures(LinkT::get_pads, (link_element, format), Err(e))
    ||| exists|link_sink: LinkT::SinkPad, link_stream: LinkT::StreamPad|
        {
            &&& #[trigger] call_ensures(LinkT::get_pads, (link_element, format), Ok((link_sink, link_stream)))
            &&& connects(stream, link_sink, format, Err(e))
        }
}

/// Builds a pipeline from its first stream pad onwards, with the format of each
/// connection given by the caller.
pub struct Builder<Stream, Dtx, Ftx> where Stream: StreamPad<Dtx, Ftx> {
    pub(super) stream: Stream,
    data_phantom: core::marker::PhantomData<Dtx>,
    format_phantom: core::marker::PhantomData<Ftx>,
}

impl<Stream, Data, Format> Builder<Stream, Data, Format> where Stream: StreamPad<Data, Format> {
    /// The stream pad that the next connection starts from.
    pub closed spec fn stream_pad(self) -> Stream {
        self.stream
    }

    /// The stream pad that the next connection starts from.
    pub(super) fn stream(&self) -> (r: &Stream)
        ensures
            *r == self.stream_pad(),
    {
        &self.stream
    }

    /// A builder whose pipeline starts at `stream`.
    pub fn with_stream(stream: Stream) -> (builder: Self)
        ensures
            builder.stream_pad() == stream,
    {
        Self {
            stream,
            data_phantom: core::marker::PhantomData,
            format_phantom: core::marker::PhantomData,
        }
    }

    /// Ends the pipeline with `sink`: connects the current stream pad to it in `format`
    /// and hands out the receiver and the sender between which the data is to flow.
    pub fn build_with_sink<T: SinkPad<Data, Format>>(self, sink: T, format: &Format) -> (r: Result<
        (Stream::Receiver, T::Sender),
        LinkError,
    >)
        ensures
            connects(self.stream_pad(), sink, format, r),
    {
        connect_pads(self.stream, sink, format)
    }

    /// Adds `link_element` to the pipeline: splits it into its pads for input `format`,
    /// connects the current stream pad to the link's sink pad, and continues from the
    /// link's stream pad. Hands out the new builder and the receiver and sender of the connection.
    ///
    /// Note that (Sink, Stream) order is reversed here:
    /// the link element is a bridge between the two pads.
    ///
    /// ---> [Sink ---> Stream] --->
    ///      ^^^^^^Link^^^^^^^^
    pub fn set_link<LinkT, Dtx, Ftx>(self, link_element: LinkT, format: &Format) -> (r: Result<
        (
            Builder<LinkT::StreamPad, Dtx, Ftx>,
            (Stream::Receiver, <LinkT::SinkPad as SinkPad<Data, Format>>::Sender),
        ),
        LinkError,
    >) where LinkT: LinkElement<Data, Format, Dtx, Ftx>
        ensures
            match r {
                Ok((next, connection)) => splits_and_connects(
                    self.stream_pad(),
                    link_element,
                    format,
                    next.stream_pad(),
                    connection,
                ),
                Err(e) => split_or_connection_fails(self.stream_pad(), link_element, format, e),
            },
    {
        let (link_sink, link_stream) = match link_element.get_pads(format) {
            Ok(pads) => pads,
            Err(e) => return Err(e),
        };
        let ghost pads = (link_sink, link_stream);
        let connection = match connect_pads(self.stream, link_sink, format) {
            Ok(connection) => connection,
            Err(e) => {
                assert(call_ensures(LinkT::get_pads, (link_element, format), Ok((pads.0, pads.1))));
                return Err(e);
            },
        };
        let next = Builder::with_stream(link_stream);
        assert(call_ensures(LinkT::get_pads, (link_element, format), Ok((pads.0, next.stream_pad()))));
        assert(connects(self.stream_pad(), pads.0, format, Ok(connection)));
        let r = Ok((next, connection));
        assert(r matches Ok((n, c)) && n == next && c == connection);
        r
    }
}

} // verus!

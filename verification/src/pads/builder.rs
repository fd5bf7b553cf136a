use crate::errors::LinkError;
use crate::pad::{
    accepts_first,
    accepts_none,
    connect_pads,
    connects,
    negotiate_format,
    FormatNegotiator,
    FormatProvider,
    LinkElement,
    SinkPad,
    StreamPad,
};
use crate::pipeline_builder::manual::{split_or_connection_fails, splits_and_connects};
use vstd::prelude::*;

verus! {

/// Builds a pipeline from its first stream pad onwards, keeping the formats that the
/// current stream pad offers; each connection is made in the first of them that the
/// next element accepts.
pub struct StreamPadBuilder<Stream: StreamPad<Dtx, Ftx>, Dtx, Ftx> {
    stream: Stream,
    formats: Vec<Ftx>,
    data_phantom: core::marker::PhantomData<Dtx>,
    format_phantom: core::marker::PhantomData<Ftx>,
}

impl<Stream: StreamPad<D, F>, D, F> StreamPadBuilder<Stream, D, F> {
    /// The stream pad that the next connection starts from.
    pub closed spec fn stream_pad(self) -> Stream {
        self.stream
    }

    /// The formats that stream pad offers, in the order it gave them.
    pub closed spec fn offered_formats(self) -> Vec<F> {
        self.formats
    }
}

impl<Stream: StreamPad<D, F> + FormatProvider<F>, D, F> StreamPadBuilder<Stream, D, F> {
    /// A builder whose pipeline starts at `sink`, with the formats it offers.
    pub fn with_stream(sink: Stream) -> (builder: Self)
        ensures
            builder.stream_pad() == sink,
            call_ensures(Stream::formats, (&sink,), builder.offered_formats()),
    {
        let formats = sink.formats();
        Self {
            stream: sink,
            formats,
            data_phantom: core::marker::PhantomData,
            format_phantom: core::marker::PhantomData,
        }
    }

    /// Ends the pipeline with `sink`, in the first offered format that `sink` accepts:
    /// fails with `InitialFormatMismatch` when it accepts none of them, and otherwise
    /// hands out the receiver and the sender between which the data is to flow.
    pub fn build_with_sink<T: SinkPad<D, F> + FormatNegotiator<F>>(self, sink: T) -> (r: Result<
        (Stream::Receiver, T::Sender),
        LinkError,
    >)
        ensures
            match r {
                Ok(connection) => exists|i: int|
                    {
                        &&& accepts_first(&sink, self.offered_formats()@, i)
                        &&& #[trigger] connects(
                            self.stream_pad(),
                            sink,
                            &self.offered_formats()@[i],
                            Ok(connection),
                        )
                    },
                Err(e) => {
                    ||| e == LinkError::InitialFormatMismatch && accepts_none(
                        &sink,
                        self.offered_formats()@,
                    )
                    ||| exists|i: int|
                        {
                            &&& accepts_first(&sink, self.offered_formats()@, i)
                            &&& #[trigger] connects(
                                self.stream_pad(),
                                sink,
                                &self.offered_formats()@[i],
                                Err(e),
                            )
                        }
                },
            },
    {
        let StreamPadBuilder { stream, formats, .. } = self;
        let i = match negotiate_format(&formats, &sink) {
            Ok(i) => i,
            Err(e) => return Err(e),
        };
        let r = connect_pads(stream, sink, &formats[i]);
        assert(connects(self.stream_pad(), sink, &self.offered_formats()@[i as int], r));
        r
    }
}

impl<S: StreamPad<Drx, Frx>, Drx, Frx> StreamPadBuilder<S, Drx, Frx> {
    /// Adds `link_element` to the pipeline, in the first offered format it accepts:
    /// fails with `InitialFormatMismatch` when it accepts none of them; otherwise splits it
    /// into its pads for that format, connects the current stream pad to the link's sink
    /// pad, and continues from the link's stream pad with the formats that pad offers.
    /// Hands out the new builder and the receiver and sender of the connection.
    ///
    /// Note that (Sink, Stream) order is reversed here.
    /// Link element acts as a bridge between the two pads.
    ///
    /// ---> [Sink ---> Stream] --->
    ///      ^^^^^^Link^^^^^^^^
    pub fn set_link<LinkT, Dtx, Ftx>(self, link_element: LinkT) -> (r: Result<
        (
            StreamPadBuilder<LinkT::StreamPad, Dtx, Ftx>,
            (S::Receiver, <LinkT::SinkPad as SinkPad<Drx, Frx>>::Sender),
        ),
        LinkError,
    >) where
        LinkT: LinkElement<Drx, Frx, Dtx, Ftx> + FormatNegotiator<Frx>,
        LinkT::StreamPad: FormatProvider<Ftx>,
        ensures
            match r {
                Ok((next, connection)) => {
                    &&& exists|i: int|
                        {
                            &&& accepts_first(&link_element, self.offered_formats()@, i)
                            &&& #[trigger] splits_and_connects(
                                self.stream_pad(),
                                link_element,
                                &self.offered_formats()@[i],
                                next.stream_pad(),
                                connection,
                            )
                        }
                    &&& call_ensures(
                        LinkT::StreamPad::formats,
                        (&next.stream_pad(),),
                        next.offered_formats(),
                    )
                },
                Err(e) => {
                    ||| e == LinkError::InitialFormatMismatch && accepts_none(
                        &link_element,
                        self.offered_formats()@,
                    )
                    ||| exists|i: int|
                        {
                            &&& accepts_first(&link_element, self.offered_formats()@, i)
                            &&& #[trigger] split_or_connection_fails(
                                self.stream_pad(),
                                link_element,
                                &self.offered_formats()@[i],
                                e,
                            )
                        }
                },
            },
    {
        let StreamPadBuilder { stream, formats, .. } = self;
        assert(self.stream_pad() == stream && self.offered_formats() == formats);
        let i = match negotiate_format(&formats, &link_element) {
            Ok(i) => i,
            Err(e) => return Err(e),
        };
        let format = &formats[i];
        let (link_sink, link_stream) = match link_element.get_pads(format) {
            Ok(pads) => pads,
            Err(e) => {
                assert(split_or_connection_fails(self.stream_pad(), link_element, format, e));
                return Err(e);
            },
        };
        let ghost pads = (link_sink, link_stream);
        let connection = match connect_pads(stream, link_sink, format) {
            Ok(connection) => connection,
            Err(e) => {
                assert(call_ensures(
                    LinkT::get_pads,
                    (link_element, format),
                    Ok((pads.0, pads.1)),
                ));
                assert(split_or_connection_fails(self.stream_pad(), link_element, format, e));
                return Err(e);
            },
        };
        let next = StreamPadBuilder::with_stream(link_stream);
        assert(connects(self.stream_pad(), pads.0, format, Ok(connection)));
        assert(splits_and_connects(
            self.stream_pad(),
            link_element,
            format,
            next.stream_pad(),
            connection,
        ));
        let r = Ok((next, connection));
        assert(r matches Ok((n, c)) && n == next && c == connection);
        r
    }
}

} // verus!

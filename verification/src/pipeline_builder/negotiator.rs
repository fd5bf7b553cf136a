use super::manual::{split_or_connection_fails, splits_and_connects, Builder as ManualBuilder};
use crate::errors::LinkError;
use crate::pad::{
    accepts_first,
    accepts_none,
    connects,
    negotiate_format,
    FormatNegotiator,
    FormatProvider,
    LinkElement,
    SinkPad,
    StreamPad,
};
use vstd::prelude::*;

verus! {

/// Builds a pipeline from its first stream pad onwards, choosing the format of each
/// connection by negotiation: the first format offered by the stream pad that the
/// next element accepts.
pub struct Builder<S, D, F> where S: StreamPad<D, F> {
    manual_builder: ManualBuilder<S, D, F>,
    formats: Vec<F>,
}

impl<Stream, D, F> Builder<Stream, D, F> where Stream: StreamPad<D, F> {
    /// The stream pad that the next connection starts from.
    pub closed spec fn stream_pad(self) -> Stream {
        self.manual_builder.stream_pad()
    }

    /// The formats that stream pad offers, in the order it gave them.
    pub closed spec fn offered_formats(self) -> Vec<F> {
        self.formats
    }
}

impl<Stream, Dtx, Ftx> Builder<Stream, Dtx, Ftx> where
    Stream: StreamPad<Dtx, Ftx> + FormatProvider<Ftx>,
 {
    /// A builder whose pipeline starts at `stream`, with the formats it offers.
    pub fn with_stream(stream: Stream) -> (builder: Self)
        ensures
            builder.stream_pad() == stream,
            call_ensures(Stream::formats, (&stream,), builder.offered_formats()),
    {
        let formats = stream.formats();
        let manual_builder = ManualBuilder::with_stream(stream);
        Self { formats, manual_builder }
    }
}

impl<Stream, Drx, Frx> Builder<Stream, Drx, Frx> where Stream: StreamPad<Drx, Frx> {
    /// Ends the pipeline with `sink`, in the first offered format that `sink` accepts:
    /// fails with `InitialFormatMismatch` when it accepts none of them, and otherwise
    /// hands out the receiver and the sender between which the data is to flow.
    pub fn build_with_sink<T>(self, sink: T) -> (r: Result<(Stream::Receiver, T::Sender), LinkError>) where
        T: SinkPad<Drx, Frx> + FormatNegotiator<Frx>,
        ensures
            match r {
                Ok(connection) => exists|i: int|
                    {
                        &&& accepts_first(&sink, self.offered_formats()@, i)
                        &&& #[trigger] connects(
                            self.stream_pad(),
                            sink,
                            &self.offered_formats()@[i],
                            Ok(connection),
                        )
                    },
                Err(e) => {
                    ||| e == LinkError::InitialFormatMismatch && accepts_none(
                        &sink,
                        self.offered_formats()@,
                    )
                    ||| exists|i: int|
                        {
                            &&& accepts_first(&sink, self.offered_formats()@, i)
                            &&& #[trigger] connects(
                                self.stream_pad(),
                                sink,
                                &self.offered_formats()@[i],
                                Err(e),
                            )
                        }
                },
            },
    {
        let Builder { manual_builder, formats } = self;
        let i = match negotiate_format(&formats, &sink) {
            Ok(i) => i,
            Err(e) => return Err(e),
        };
        let r = manual_builder.build_with_sink(sink, &formats[i]);
        assert(connects(self.stream_pad(), sink, &self.offered_formats()@[i as int], r));
        r
    }

    /// Adds `link_element` to the pipeline, in the first offered format it accepts:
    /// fails with `InitialFormatMismatch` when it accepts none of them; otherwise splits it
    /// into its pads for that format, connects the current stream pad to the link's sink
    /// pad, and continues from the link's stream pad with the formats that pad offers.
    /// Hands out the new builder and the receiver and sender of the connection.
    pub fn set_link<LinkT, Dtx, Ftx>(self, link_element: LinkT) -> (r: Result<
        (
            Builder<LinkT::StreamPad, Dtx, Ftx>,
            (Stream::Receiver, <LinkT::SinkPad as SinkPad<Drx, Frx>>::Sender),
        ),
        LinkError,
    >) where
        LinkT: LinkElement<Drx, Frx, Dtx, Ftx> + FormatNegotiator<Frx>,
        LinkT::StreamPad: FormatProvider<Ftx>,
        ensures
            match r {
                Ok((next, connection)) => {
                    &&& exists|i: int|
                        {
                            &&& accepts_first(&link_element, self.offered_formats()@, i)
                            &&& #[trigger] splits_and_connects(
                                self.stream_pad(),
                                link_element,
                                &self.offered_formats()@[i],
                                next.stream_pad(),
                                connection,
                            )
                        }
                    &&& call_ensures(
                        LinkT::StreamPad::formats,
                        (&next.stream_pad(),),
                        next.offered_formats(),
                    )
                },
                Err(e) => {
                    ||| e == LinkError::InitialFormatMismatch && accepts_none(
                        &link_element,
                        self.offered_formats()@,
                    )
                    ||| exists|i: int|
                        {
                            &&& accepts_first(&link_element, self.offered_formats()@, i)
                            &&& #[trigger] split_or_connection_fails(
                                self.stream_pad(),
                                link_element,
                                &self.offered_formats()@[i],
                                e,
                            )
                        }
                },
            },
    {
        let Builder { manual_builder, formats } = self;
        let i = match negotiate_format(&formats, &link_element) {
            Ok(i) => i,
            Err(e) => return Err(e),
        };
        let (manual_builder, connection) = match manual_builder.set_link(link_element, &formats[i]) {
            Ok(linked) => linked,
            Err(e) => {
                assert(split_or_connection_fails(
                    self.stream_pad(),
                    link_element,
                    &self.offered_formats()@[i as int],
                    e,
                ));
                return Err(e);
            },
        };
        let formats = manual_builder.stream().formats();
        let next = Builder { formats, manual_builder };
        assert(splits_and_connects(
            self.stream_pad(),
            link_element,
            &self.offered_formats()@[i as int],
            next.stream_pad(),
            connection,
        ));
        let r = Ok((next, connection));
        assert(r matches Ok((n, c)) && n == next && c == connection);
        r
    }
}

} // verus!

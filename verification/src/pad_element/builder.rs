use super::{connect_negotiated, links_in_first_accepted, SinkPad, StreamPad};
use crate::errors::LinkError;
use vstd::prelude::*;

verus! {

/// Builds a pipeline from its first stream pad onwards; each connection is made in the
/// first format that the stream pad offers and the next element accepts.
pub struct StreamPadBuilder<S: StreamPad<D, F>, D, F> {
    stream: S,
    data_phantom: core::marker::PhantomData<D>,
    format_phantom: core::marker::PhantomData<F>,
}

impl<S: StreamPad<D, F>, D, F> StreamPadBuilder<S, D, F> {
    /// The stream pad that the next connection starts from.
    pub closed spec fn stream_pad(self) -> S {
        self.stream
    }

    /// A builder whose pipeline starts at `sink`.
    pub fn with_stream(sink: S) -> (builder: Self)
        ensures
            builder.stream_pad() == sink,
    {
        Self {
            stream: sink,
            data_phantom: core::marker::PhantomData,
            format_phantom: core::marker::PhantomData,
        }
    }

    /// Ends the pipeline with `sink`, connected in the first format it accepts; hands out
    /// the receiver and the sender between which the data is to flow.
    pub fn build_with_sink<T: SinkPad<D, F>>(self, sink: T) -> (r: Result<
        (S::Receiver, T::Sender),
        LinkError,
    >)
        ensures
            exists|offered: Vec<F>, negotiated: Seq<F>|
                #[trigger] links_in_first_accepted(self.stream_pad(), sink, offered, negotiated, r),
    {
        assert(self.stream_pad() == self.stream);
        connect_negotiated(self.stream, sink)
    }

    /// Adds a link, given as its (Sink, Stream) pair of pads: connects the current stream
    /// pad to the link's sink pad in the first format it accepts, and continues from the
    /// link's stream pad. Hands out the new builder and the receiver and sender of the connection.
    ///
    /// Note that (Sink, Stream) order is reversed here.
    /// Link element acts as a bridge between the two pads.
    ///
    /// ---> [Sink ---> Stream] --->
    ///      ^^^^^^Link^^^^^^^^
    pub fn set_link<Sink: SinkPad<D, F>, Stream: StreamPad<D, F>>(self, link_tup: (Sink, Stream)) -> (r:
        Result<(StreamPadBuilder<Stream, D, F>, (S::Receiver, Sink::Sender)), LinkError>)
        ensures
            match r {
                Ok((next, connection)) => {
                    &&& next.stream_pad() == link_tup.1
                    &&& exists|offered: Vec<F>, negotiated: Seq<F>|
                        #[trigger] links_in_first_accepted(
                            self.stream_pad(),
                            link_tup.0,
                            offered,
                            negotiated,
                            Ok(connection),
                        )
                },
                Err(e) => exists|offered: Vec<F>, negotiated: Seq<F>|
                    #[trigger] links_in_first_accepted(
                        self.stream_pad(),
                        link_tup.0,
                        offered,
                        negotiated,
                        Err(e),
                    ),
            },
    {
        assert(self.stream_pad() == self.stream);
        let (sink, stream) = link_tup;
        let connection = match connect_negotiated(self.stream, sink) {
            Ok(connection) => connection,
            Err(e) => return Err(e),
        };
        let next = StreamPadBuilder::with_stream(stream);
        let r = Ok((next, connection));
        assert(r matches Ok((n, c)) && n == next && c == connection);
        r
    }
}

} // verus!

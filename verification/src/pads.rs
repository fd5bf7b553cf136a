pub mod builder;

pub use super::formats::MediaData;
pub use super::formats::MediaFormat;

use vstd::prelude::*;

verus! {

/// A pad that offers the formats it can produce, in order of preference.
pub trait FormatProvider<F>: Send + Sync {
    fn formats(&self) -> Vec<F>;
}

/// A pad that tells which formats it accepts.
pub trait FormatNegotiator<F>: Send + Sync {
    fn matches(&self, format: &F) -> bool;
}

/// The items of `items` whose entry in `keep` is `true`, in their order.
pub open spec fn kept<T>(items: Seq<T>, keep: Seq<bool>) -> Seq<T>
    decreases items.len(),
{
    if items.len() == 0 {
        Seq::empty()
    } else {
        let rest = kept(items.drop_last(), keep.take(items.len() - 1));
        if keep[items.len() - 1] {
            rest.push(items.last())
        } else {
            rest
        }
    }
}

/// `accepted` is the sequence of those `offered` formats for which `negotiator` answered `true`,
/// in the order they were offered.
pub open spec fn accepted_in_order<F, N: FormatNegotiator<F>>(
    negotiator: &N,
    offered: Seq<F>,
    accepted: Seq<F>,
) -> bool {
    exists|verdicts: Seq<bool>|
        {
            &&& verdicts.len() == offered.len()
            &&& forall|j: int|
                0 <= j < offered.len() ==> call_ensures(
                    N::matches,
                    (negotiator, &offered[j]),
                    #[trigger] verdicts[j],
                )
            &&& accepted == kept(offered, verdicts)
        }
}

/// The formats that `stream_pad` offers and `sink_pad` accepts, in the order the stream pad
/// offers them. The sink pad is asked about each offered format once, in order.
pub fn negotiate_formats<F, P: FormatProvider<F>, N: FormatNegotiator<F>>(
    stream_pad: &P,
    sink_pad: &N,
) -> (negotiated: Vec<F>)
    ensures
        exists|offered: Vec<F>|
            {
                &&& call_ensures(P::formats, (stream_pad,), offered)
                &&& #[trigger] accepted_in_order(sink_pad, offered@, negotiated@)
            },
{
    let mut remaining = stream_pad.formats();
    let ghost offered = remaining;
    let mut negotiated: Vec<F> = Vec::new();
    let ghost mut verdicts: Seq<bool> = Seq::empty();
    while remaining.len() > 0
        invariant
            call_ensures(P::formats, (stream_pad,), offered),
            remaining@ == offered@.skip(verdicts.len() as int),
            verdicts.len() <= offered@.len(),
            forall|j: int|
                0 <= j < verdicts.len() ==> call_ensures(
                    N::matches,
                    (sink_pad, &offered@[j]),
                    #[trigger] verdicts[j],
                ),
            negotiated@ == kept(offered@.take(verdicts.len() as int), verdicts),
        decreases remaining.len(),
    {
        let ghost k = verdicts.len() as int;
        let format = remaining.remove(0);
        assert(format == offered@[k]);
        let accepted = sink_pad.matches(&format);
        proof {
            let taken = offered@.take(k + 1);
            assert(taken.drop_last() == offered@.take(k));
            assert(verdicts.push(accepted).take(k) == verdicts);
            verdicts = verdicts.push(accepted);
        }
        if accepted {
            negotiated.push(format);
        }
        assert(remaining@ == offered@.skip(verdicts.len() as int));
    }
    assert(verdicts.len() == offered@.len());
    assert(offered@.take(verdicts.len() as int) == offered@);
    assert(accepted_in_order(sink_pad, offered@, negotiated@));
    negotiated
}

} // verus!

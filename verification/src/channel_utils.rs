use vstd::pervasive::strictly_cloned;
use vstd::prelude::*;

verus! {

/// A type whose values can travel between pipeline tasks.
pub trait ChannelType: Send + Sync + Clone + Default + 'static {

}

impl<T: Send + Sync + Clone + Default + 'static> ChannelType for T {

}

/// What each branch of a fan-out is sent when the input value arrives: a clone of the
/// input for every branch whose channel is still open, nothing for a closed one.
/// `closed[i]` tells whether the channel of branch `i` is closed.
pub fn branch_copies<T: ChannelType>(input: &T, closed: &Vec<bool>) -> (copies: Vec<Option<T>>)
    ensures
        copies.len() == closed.len(),
        forall|i: int|
            0 <= i < closed.len() ==> if closed[i] {
                copies[i] is None
            } else {
                #[trigger] copies[i] matches Some(copy) && strictly_cloned(*input, copy)
            },
{
    let mut copies: Vec<Option<T>> = Vec::new();
    let mut i: usize = 0;
    while i < closed.len()
        invariant
            i <= closed.len(),
            copies.len() == i,
            forall|j: int|
                0 <= j < i ==> if closed[j] {
                    copies[j] is None
                } else {
                    #[trigger] copies[j] matches Some(copy) && strictly_cloned(*input, copy)
                },
        decreases closed.len() - i,
    {
        if closed[i] {
            copies.push(None);
        } else {
            copies.push(Some(input.clone()));
        }
        i = i + 1;
    }
    copies
}

/// What a join of several one-shot channels forwards, given what the first of them to
/// complete gave (`None` when there were no channels to join; `Some(None)` when the first
/// to complete was closed without a value): that value, or nothing.
pub fn joined_value<T>(first: Option<Option<T>>) -> (forwarded: Option<T>)
    ensures
        forwarded == match first {
            Some(Some(value)) => Some(value),
            _ => None,
        },
{
    match first {
        Some(Some(value)) => Some(value),
        _ => None,
    }
}

} // verus!

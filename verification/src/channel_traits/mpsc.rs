use vstd::prelude::*;

verus! {

/// A send on a channel failed because the channel is closed; carries the item back.
#[derive(Debug)]
pub struct SendError<I>(pub I);

impl SendError<()> {
    /// The text that describes the error, for display: it is empty.
    pub fn to_string(&self) -> (s: String)
        ensures
            s@ == Seq::<char>::empty(),
    {
        String::new()
    }
}

} // verus!

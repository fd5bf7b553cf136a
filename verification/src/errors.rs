use vstd::prelude::*;

verus! {

/// Why connecting two pads failed.
#[derive(Debug, Clone, Copy, PartialEq, Eq, Structural)]
pub enum LinkError {
    InitialFormatMismatch,
    FormatMismatch,
    ChannelClosed,
}

impl LinkError {
    /// The text that describes the error.
    pub open spec fn message(self) -> Seq<char> {
        match self {
            LinkError::InitialFormatMismatch => "Initial format mismatch"@,
            LinkError::FormatMismatch => "Format mismatch"@,
            LinkError::ChannelClosed => "Channel closed"@,
        }
    }

    /// The text that describes the error, for display.
    pub fn to_string(&self) -> (s: String)
        ensures
            s@ == self.message(),
    {
        match self {
            LinkError::InitialFormatMismatch => "Initial format mismatch".to_owned(),
            LinkError::FormatMismatch => "Format mismatch".to_owned(),
            LinkError::ChannelClosed => "Channel closed".to_owned(),
        }
    }
}

} // verus!

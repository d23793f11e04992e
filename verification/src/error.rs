use vstd::prelude::*;

verus! {

/// Why a response body could not be turned into a record.
#[derive(Clone, Copy, Debug, PartialEq, Eq)]
pub enum DecodeError {
    /// The body is not a JSON document.
    Malformed,
    /// The body is JSON, but a member of the envelope is missing or has
    /// another type than the envelope gives it.
    Shape,
}

/// What can go wrong with one call.
#[derive(Clone, Debug, PartialEq, Eq)]
pub enum ClientError {
    /// More identifiers were given than the endpoint takes in one query:
    /// `given` of them, where `limit` is the most. Nothing is sent.
    Validation { limit: usize, given: usize },
    /// The exchange with the server did not complete; the text is the
    /// transport's own account of it.
    Transport(String),
    /// A response arrived, but its body is not the expected envelope.
    Decode(DecodeError),
}

/// A `ClientError` with its text as a sequence of characters.
pub enum ClientErrorView {
    Validation { limit: nat, given: nat },
    Transport(Seq<char>),
    Decode(DecodeError),
}

impl View for ClientError {
    type V = ClientErrorView;

    open spec fn view(&self) -> ClientErrorView {
        match self {
            ClientError::Validation { limit, given } => ClientErrorView::Validation {
                limit: *limit as nat,
                given: *given as nat,
            },
            ClientError::Transport(why) => ClientErrorView::Transport(why@),
            ClientError::Decode(fault) => ClientErrorView::Decode(*fault),
        }
    }
}

} // verus!

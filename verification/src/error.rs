//! The errors of the library.
use crate::text::concat;
use vstd::prelude::*;

verus! {

/// What can go wrong between a client, a server and a serial port.
#[derive(Debug)]
pub enum CoreError {
    /// The token is not the server's.
    AuthFailed,
    /// Another client, the one named, holds the right to write.
    WriterAlreadyClaimed(String),
    /// The client named does not hold the right to write.
    WriterNotOwned(String),
    /// The serial port reported the error given.
    Serial(String),
    /// A frame does not follow the protocol, for the reason given.
    InvalidFrame(String),
}

/// A [`CoreError`] with its texts as sequences of characters.
pub ghost enum CoreErrorView {
    AuthFailed,
    WriterAlreadyClaimed(Seq<char>),
    WriterNotOwned(Seq<char>),
    Serial(Seq<char>),
    InvalidFrame(Seq<char>),
}

impl View for CoreError {
    type V = CoreErrorView;

    open spec fn view(&self) -> CoreErrorView {
        match self {
            CoreError::AuthFailed => CoreErrorView::AuthFailed,
            CoreError::WriterAlreadyClaimed(owner) => CoreErrorView::WriterAlreadyClaimed(owner@),
            CoreError::WriterNotOwned(client) => CoreErrorView::WriterNotOwned(client@),
            CoreError::Serial(cause) => CoreErrorView::Serial(cause@),
            CoreError::InvalidFrame(cause) => CoreErrorView::InvalidFrame(cause@),
        }
    }
}

impl CoreErrorView {
    /// The error as a user reads it.
    pub open spec fn message(self) -> Seq<char> {
        match self {
            CoreErrorView::AuthFailed => "authentication failed"@,
            CoreErrorView::WriterAlreadyClaimed(owner) => "writer is already claimed by "@ + owner,
            CoreErrorView::WriterNotOwned(client) => "writer is not owned by "@ + client,
            CoreErrorView::Serial(cause) => "serial error: "@ + cause,
            CoreErrorView::InvalidFrame(cause) => "invalid protocol frame: "@ + cause,
        }
    }
}

impl CoreError {
    /// The error as a user reads it.
    pub fn message(&self) -> (text: String)
        ensures
            text@ == self@.message(),
    {
        match self {
            CoreError::AuthFailed => "authentication failed".to_owned(),
            CoreError::WriterAlreadyClaimed(owner) => concat("writer is already claimed by ", owner),
            CoreError::WriterNotOwned(client) => concat("writer is not owned by ", client),
            CoreError::Serial(cause) => concat("serial error: ", cause),
            CoreError::InvalidFrame(cause) => concat("invalid protocol frame: ", cause),
        }
    }
}

/// An error is seen with every text that it holds.
pub proof fn an_error_is_seen_whole(text: String)
    ensures
        CoreError::AuthFailed@ is AuthFailed,
        CoreError::WriterAlreadyClaimed(text)@ == CoreErrorView::WriterAlreadyClaimed(text@),
        CoreError::WriterNotOwned(text)@ == CoreErrorView::WriterNotOwned(text@),
        CoreError::Serial(text)@ == CoreErrorView::Serial(text@),
        CoreError::InvalidFrame(text)@ == CoreErrorView::InvalidFrame(text@),
{
}

/// An error that holds a text ends with it, and says the same before it whatever the text is.
pub proof fn an_error_ends_with_its_cause(text: Seq<char>)
    ensures
        CoreErrorView::AuthFailed.message() == "authentication failed"@,
        CoreErrorView::WriterAlreadyClaimed(text).message() == "writer is already claimed by "@
            + text,
        CoreErrorView::WriterNotOwned(text).message() == "writer is not owned by "@ + text,
        CoreErrorView::Serial(text).message() == "serial error: "@ + text,
        CoreErrorView::InvalidFrame(text).message() == "invalid protocol frame: "@ + text,
{
}

} // verus!

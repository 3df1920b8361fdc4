//! Websocket messages, and the frames in them.
use crate::protocol::{ClientFrame, ServerFrame};
#[allow(unused_imports)]
use crate::protocol::{ClientFrameView, ServerFrameView};
use crate::text::concat;
use vstd::prelude::*;

verus! {

/// A websocket message that should hold a frame: what a text or a binary message was parsed to, or
/// the parser's error.
#[derive(Debug)]
pub enum Message<F> {
    Text(Result<F, String>),
    Binary(Result<F, String>),
    Ping,
    Pong,
    Close,
    Raw,
}

/// Why a message gave no frame.
#[derive(Debug)]
pub enum FrameError {
    /// The message does not hold a frame: what was expected, and the parser's error.
    Invalid { context: String, cause: String },
    /// The message cannot hold a frame.
    Unusable { reason: String },
}

/// A [`FrameError`] with its texts as sequences of characters.
pub ghost enum FrameErrorView {
    Invalid { context: Seq<char>, cause: Seq<char> },
    Unusable { reason: Seq<char> },
}

impl View for FrameError {
    type V = FrameErrorView;

    open spec fn view(&self) -> FrameErrorView {
        match self {
            FrameError::Invalid { context, cause } => FrameErrorView::Invalid {
                context: context@,
                cause: cause@,
            },
            FrameError::Unusable { reason } => FrameErrorView::Unusable { reason: reason@ },
        }
    }
}

impl FrameErrorView {
    /// The error with what was expected.
    pub open spec fn message(self) -> Seq<char> {
        match self {
            FrameErrorView::Invalid { context, cause } => context + ": "@ + cause,
            FrameErrorView::Unusable { reason } => reason,
        }
    }

    /// The error without what was expected.
    pub open spec fn brief(self) -> Seq<char> {
        match self {
            FrameErrorView::Invalid { cause, .. } => cause,
            FrameErrorView::Unusable { reason } => reason,
        }
    }
}

impl FrameError {
    /// The error with what was expected.
    pub fn message(&self) -> (text: String)
        ensures
            text@ == self@.message(),
    {
        match self {
            FrameError::Invalid { context, cause } => {
                let mut text = concat(context, ": ");
                text.append(cause);
                text
            },
            FrameError::Unusable { reason } => reason.clone(),
        }
    }

    /// The error without what was expected.
    pub fn brief(&self) -> (text: String)
        ensures
            text@ == self@.brief(),
    {
        match self {
            FrameError::Invalid { cause, .. } => cause.clone(),
            FrameError::Unusable { reason } => reason.clone(),
        }
    }
}

/// The texts with which one side of a connection refuses the messages of the other.
pub ghost struct Refusals {
    pub invalid: Seq<char>,
    pub invalid_binary: Seq<char>,
    pub closed: Seq<char>,
}

/// How a server refuses a client's messages.
pub open spec fn client_refusals() -> Refusals {
    Refusals {
        invalid: "invalid client frame"@,
        invalid_binary: "invalid binary client frame"@,
        closed: "client closed connection"@,
    }
}

/// How a client refuses a server's messages.
pub open spec fn server_refusals() -> Refusals {
    Refusals {
        invalid: "invalid server frame"@,
        invalid_binary: "invalid binary server frame"@,
        closed: "server closed connection"@,
    }
}

/// The frame in a message: a control message stands for the heartbeat, and a message that ends the
/// connection or is not a whole one holds none.
pub open spec fn frame_in<F: View>(message: Message<F>, heartbeat: F::V, refusals: Refusals) -> Result<
    F::V,
    FrameErrorView,
> {
    match message {
        Message::Text(Ok(frame)) => Ok(frame@),
        Message::Text(Err(cause)) => Err(
            FrameErrorView::Invalid { context: refusals.invalid, cause: cause@ },
        ),
        Message::Binary(Ok(frame)) => Ok(frame@),
        Message::Binary(Err(cause)) => Err(
            FrameErrorView::Invalid { context: refusals.invalid_binary, cause: cause@ },
        ),
        Message::Ping => Ok(heartbeat),
        Message::Pong => Ok(heartbeat),
        Message::Close => Err(FrameErrorView::Unusable { reason: refusals.closed }),
        Message::Raw => Err(
            FrameErrorView::Unusable { reason: "unexpected raw websocket frame"@ },
        ),
    }
}

/// What a message was parsed to, as a value of the model.
pub open spec fn parsed_view<F: View>(parsed: Result<F, FrameError>) -> Result<
    F::V,
    FrameErrorView,
> {
    match parsed {
        Ok(frame) => Ok(frame@),
        Err(error) => Err(error@),
    }
}

/// The frame in a client's message, as [`frame_in`] says.
pub open spec fn client_frame_in(message: Message<ClientFrame>) -> Result<
    ClientFrameView,
    FrameErrorView,
> {
    frame_in(message, ClientFrameView::Ping, client_refusals())
}

/// The frame in a server's message, as [`frame_in`] says.
pub open spec fn server_frame_in(message: Message<ServerFrame>) -> Result<
    ServerFrameView,
    FrameErrorView,
> {
    frame_in(message, ServerFrameView::Pong, server_refusals())
}

/// The frame in a client's message.
pub fn parse_client_frame(message: Message<ClientFrame>) -> (parsed: Result<
    ClientFrame,
    FrameError,
>)
    ensures
        parsed_view(parsed) == client_frame_in(message),
{
    match message {
        Message::Text(Ok(frame)) => Ok(frame),
        Message::Text(Err(cause)) => Err(
            FrameError::Invalid { context: "invalid client frame".to_owned(), cause },
        ),
        Message::Binary(Ok(frame)) => Ok(frame),
        Message::Binary(Err(cause)) => Err(
            FrameError::Invalid { context: "invalid binary client frame".to_owned(), cause },
        ),
        Message::Ping | Message::Pong => Ok(ClientFrame::Ping),
        Message::Close => Err(
            FrameError::Unusable { reason: "client closed connection".to_owned() },
        ),
        Message::Raw => Err(
            FrameError::Unusable { reason: "unexpected raw websocket frame".to_owned() },
        ),
    }
}

/// The frame in a server's message.
pub fn parse_server_frame(message: Message<ServerFrame>) -> (parsed: Result<
    ServerFrame,
    FrameError,
>)
    ensures
        parsed_view(parsed) == server_frame_in(message),
{
    match message {
        Message::Text(Ok(frame)) => Ok(frame),
        Message::Text(Err(cause)) => Err(
            FrameError::Invalid { context: "invalid server frame".to_owned(), cause },
        ),
        Message::Binary(Ok(frame)) => Ok(frame),
        Message::Binary(Err(cause)) => Err(
            FrameError::Invalid { context: "invalid binary server frame".to_owned(), cause },
        ),
        Message::Ping | Message::Pong => Ok(ServerFrame::Pong),
        Message::Close => Err(
            FrameError::Unusable { reason: "server closed connection".to_owned() },
        ),
        Message::Raw => Err(
            FrameError::Unusable { reason: "unexpected raw websocket frame".to_owned() },
        ),
    }
}

/// A frame error, and what a message was parsed to, are seen with everything that they hold.
pub proof fn a_parsed_message_is_seen_whole(
    context: String,
    cause: String,
    error: FrameError,
    sent: ClientFrame,
    received: ServerFrame,
)
    ensures
        (FrameError::Invalid { context, cause })@ == (FrameErrorView::Invalid {
            context: context@,
            cause: cause@,
        }),
        (FrameError::Unusable { reason: cause })@ == (FrameErrorView::Unusable { reason: cause@ }),
        parsed_view(Ok::<ClientFrame, FrameError>(sent)) == Ok::<ClientFrameView, FrameErrorView>(
            sent@,
        ),
        parsed_view(Err::<ClientFrame, FrameError>(error)) == Err::<
            ClientFrameView,
            FrameErrorView,
        >(error@),
        parsed_view(Ok::<ServerFrame, FrameError>(received)) == Ok::<
            ServerFrameView,
            FrameErrorView,
        >(received@),
        parsed_view(Err::<ServerFrame, FrameError>(error)) == Err::<
            ServerFrameView,
            FrameErrorView,
        >(error@),
{
}

/// A client's message gives the very frame that is in it, as text or as bytes; a control message is
/// a heartbeat; nothing else gives a frame.
pub proof fn a_client_message_gives_its_frame(
    message: Message<ClientFrame>,
    frame: ClientFrameView,
)
    ensures
        client_frame_in(message) == Ok::<ClientFrameView, FrameErrorView>(frame) <==> match message {
            Message::Text(Ok(held)) => held@ == frame,
            Message::Binary(Ok(held)) => held@ == frame,
            Message::Ping => frame is Ping,
            Message::Pong => frame is Ping,
            _ => false,
        },
{
}

/// A server's message gives the very frame that is in it, as text or as bytes; a control message is
/// the answer to a heartbeat; nothing else gives a frame.
pub proof fn a_server_message_gives_its_frame(
    message: Message<ServerFrame>,
    frame: ServerFrameView,
)
    ensures
        server_frame_in(message) == Ok::<ServerFrameView, FrameErrorView>(frame) <==> match message {
            Message::Text(Ok(held)) => held@ == frame,
            Message::Binary(Ok(held)) => held@ == frame,
            Message::Ping => frame is Pong,
            Message::Pong => frame is Pong,
            _ => false,
        },
{
}

/// A message that cannot be parsed is refused with the parser's own error: alone in brief, and
/// after what was expected in full. So is, with its reason, a message that cannot hold a frame.
pub proof fn a_refusal_says_why(
    sent: Message<ClientFrame>,
    received: Message<ServerFrame>,
    cause: String,
)
    ensures
        sent == Message::<ClientFrame>::Text(Err(cause)) ==> {
            &&& client_frame_in(sent) matches Err(error)
            &&& error.brief() == cause@
            &&& error.message() == "invalid client frame"@ + ": "@ + cause@
        },
        sent == Message::<ClientFrame>::Binary(Err(cause)) ==> {
            &&& client_frame_in(sent) matches Err(error)
            &&& error.brief() == cause@
            &&& error.message() == "invalid binary client frame"@ + ": "@ + cause@
        },
        received == Message::<ServerFrame>::Text(Err(cause)) ==> {
            &&& server_frame_in(received) matches Err(error)
            &&& error.brief() == cause@
            &&& error.message() == "invalid server frame"@ + ": "@ + cause@
        },
        received == Message::<ServerFrame>::Binary(Err(cause)) ==> {
            &&& server_frame_in(received) matches Err(error)
            &&& error.brief() == cause@
            &&& error.message() == "invalid binary server frame"@ + ": "@ + cause@
        },
        sent is Close || sent is Raw ==> {
            &&& client_frame_in(sent) matches Err(error)
            &&& error.brief() == error.message()
        },
        received is Close || received is Raw ==> {
            &&& server_frame_in(received) matches Err(error)
            &&& error.brief() == error.message()
        },
{
}

/// An error that came of parsing says in brief its cause alone, and in full what was expected, a
/// colon and the cause. Any other says its reason either way.
pub proof fn an_error_says_what_was_expected(context: Seq<char>, cause: Seq<char>)
    ensures
        (FrameErrorView::Invalid { context, cause }).message() == context + ": "@ + cause,
        (FrameErrorView::Invalid { context, cause }).brief() == cause,
        (FrameErrorView::Unusable { reason: cause }).message() == cause,
        (FrameErrorView::Unusable { reason: cause }).brief() == cause,
{
}

} // verus!

//! One client's connection to the server, from its first message to its end.
use crate::auth::TokenAuth;
use crate::error::CoreError;
#[allow(unused_imports)]
use crate::error::CoreErrorView;
use crate::hub::{HubReply, finish_write};
#[allow(unused_imports)]
use crate::hub::{
    HubReplyView, SerialHubView, claim_reply, failure_view, release_reply, status_frame,
    write_refusal, write_reply,
};
use crate::hubs::{Broadcast, HubTable};
#[allow(unused_imports)]
use crate::hubs::{
    after_disconnect, broadcasts_view, disconnect_broadcasts, has_hub, with_writer,
};
use crate::message::{FrameError, Message, parse_client_frame};
#[allow(unused_imports)]
use crate::message::{FrameErrorView, client_frame_in};
use crate::payload::decode_payload;
#[allow(unused_imports)]
use crate::payload::{base64_bytes, decoded_view};
use crate::protocol::{ClientFrame, SerialConfig, SerialPortInfo, ServerFrame, Status};
#[allow(unused_imports)]
use crate::protocol::{
    ClientFrameView, SerialConfigView, SerialPortInfoView, ServerFrameView, StatusView, ports_view,
};
use crate::text::{concat, decimal_text};
#[allow(unused_imports)]
use crate::text::decimal;
#[allow(unused_imports)]
use crate::writer::{after_claim, after_release};
use vstd::prelude::*;

verus! {

/// How many seconds a client has to authenticate.
pub const AUTH_TIMEOUT_SECS: u64 = 10;

/// Whether a character is a lower-case hexadecimal digit.
pub open spec fn is_lower_hex(c: char) -> bool {
    '0' <= c <= '9' || 'a' <= c <= 'f'
}

/// Whether a text has the form of a random UUID: groups of eight, four, four, four and twelve
/// lower-case hexadecimal digits with hyphens between them, of which the first digit of the third
/// group tells the version, four, and the first of the fourth group the variant.
pub open spec fn is_random_uuid(id: Seq<char>) -> bool {
    &&& id.len() == 36
    &&& forall|i: int|
        0 <= i < 36 ==> if i == 8 || i == 13 || i == 18 || i == 23 {
            #[trigger] id[i] == '-'
        } else {
            is_lower_hex(id[i])
        }
    &&& id[14] == '4'
    &&& id[19] == '8' || id[19] == '9' || id[19] == 'a' || id[19] == 'b'
}

/// Calls `uuid::Uuid::new_v4` and writes the value out with its `Display`. Claims the form of the
/// text, which every random UUID has; the digits themselves are random. The call panics on a
/// machine that has no random numbers to give.
#[verifier::external_body]
fn random_uuid() -> (id: String)
    ensures
        is_random_uuid(id@),
{
    uuid::Uuid::new_v4().to_string()
}

/// What came first from a client.
#[derive(Debug)]
pub enum FirstMessage {
    /// Nothing in time, as the timer says in the text given.
    TimedOut(String),
    /// The end of the connection.
    Disconnected,
    /// An error of the connection.
    Failed(String),
    /// A message.
    Received(Message<ClientFrame>),
}

/// Why a connection ended before the client ended it.
#[derive(Debug)]
pub enum SessionError {
    /// The handshake with the peer named failed with the error given.
    Handshake { peer: String, cause: String },
    /// The client did not authenticate in time, as the timer says in the text given.
    AuthTimeout(String),
    /// The client went away without authenticating.
    DisconnectedBeforeAuth,
    /// The connection failed with the error given.
    Receive(String),
    /// A message of the client held no frame.
    Frame(FrameError),
    /// The port named could not be opened.
    Open { port: String, error: CoreError },
}

/// A [`SessionError`] with its texts as sequences of characters.
pub ghost enum SessionErrorView {
    Handshake { peer: Seq<char>, cause: Seq<char> },
    AuthTimeout(Seq<char>),
    DisconnectedBeforeAuth,
    Receive(Seq<char>),
    Frame(FrameErrorView),
    Open { port: Seq<char>, error: CoreErrorView },
}

impl View for SessionError {
    type V = SessionErrorView;

    open spec fn view(&self) -> SessionErrorView {
        match self {
            SessionError::Handshake { peer, cause } => SessionErrorView::Handshake {
                peer: peer@,
                cause: cause@,
            },
            SessionError::AuthTimeout(cause) => SessionErrorView::AuthTimeout(cause@),
            SessionError::DisconnectedBeforeAuth => SessionErrorView::DisconnectedBeforeAuth,
            SessionError::Receive(cause) => SessionErrorView::Receive(cause@),
            SessionError::Frame(error) => SessionErrorView::Frame(error@),
            SessionError::Open { port, error } => SessionErrorView::Open {
                port: port@,
                error: error@,
            },
        }
    }
}

impl SessionErrorView {
    /// The error with what the server was about to do.
    pub open spec fn message(self) -> Seq<char> {
        match self {
            SessionErrorView::Handshake { peer, cause } => "websocket handshake failed for "@ + peer
                + ": "@ + cause,
            SessionErrorView::AuthTimeout(cause) => "auth timeout: "@ + cause,
            SessionErrorView::DisconnectedBeforeAuth => "client disconnected before auth"@,
            SessionErrorView::Receive(cause) => cause,
            SessionErrorView::Frame(error) => error.message(),
            SessionErrorView::Open { port, error } => "failed to open serial port "@ + port + ": "@
                + error.message(),
        }
    }

    /// The error alone.
    pub open spec fn brief(self) -> Seq<char> {
        match self {
            SessionErrorView::Handshake { cause, .. } => "websocket handshake failed: "@ + cause,
            SessionErrorView::AuthTimeout(_) => "auth timeout"@,
            SessionErrorView::DisconnectedBeforeAuth => "client disconnected before auth"@,
            SessionErrorView::Receive(cause) => cause,
            SessionErrorView::Frame(error) => error.brief(),
            SessionErrorView::Open { error, .. } => error.message(),
        }
    }
}

impl SessionError {
    /// The error with what the server was about to do.
    pub fn message(&self) -> (text: String)
        ensures
            text@ == self@.message(),
    {
        match self {
            SessionError::Handshake { peer, cause } => {
                let mut text = concat("websocket handshake failed for ", peer);
                text.append(": ");
                text.append(cause);
                text
            },
            SessionError::AuthTimeout(cause) => concat("auth timeout: ", cause),
            SessionError::DisconnectedBeforeAuth => "client disconnected before auth".to_owned(),
            SessionError::Receive(cause) => cause.clone(),
            SessionError::Frame(error) => error.message(),
            SessionError::Open { port, error } => {
                let mut text = concat("failed to open serial port ", port);
                text.append(": ");
                text.append(&error.message());
                text
            },
        }
    }

    /// The error alone.
    pub fn brief(&self) -> (text: String)
        ensures
            text@ == self@.brief(),
    {
        match self {
            SessionError::Handshake { cause, .. } => concat("websocket handshake failed: ", cause),
            SessionError::AuthTimeout(_) => "auth timeout".to_owned(),
            SessionError::DisconnectedBeforeAuth => "client disconnected before auth".to_owned(),
            SessionError::Receive(cause) => cause.clone(),
            SessionError::Frame(error) => error.brief(),
            SessionError::Open { error, .. } => error.message(),
        }
    }
}

/// What the server makes of a client's first message.
#[derive(Debug)]
pub enum Admission {
    /// The client is in.
    Admitted,
    /// The client gets the frame, and the connection ends.
    Refused(ServerFrame),
    /// The connection ends with the error.
    Failed(SessionError),
}

/// An [`Admission`] with its frame and its error as values of the model.
pub ghost enum AdmissionView {
    Admitted,
    Refused(ServerFrameView),
    Failed(SessionErrorView),
}

impl View for Admission {
    type V = AdmissionView;

    open spec fn view(&self) -> AdmissionView {
        match self {
            Admission::Admitted => AdmissionView::Admitted,
            Admission::Refused(frame) => AdmissionView::Refused(frame@),
            Admission::Failed(error) => AdmissionView::Failed(error@),
        }
    }
}

/// What the server makes of a client's first frame: the right token admits it, and nothing else
/// does.
pub open spec fn frame_admission(token: Seq<char>, frame: ClientFrameView) -> AdmissionView {
    match frame {
        ClientFrameView::Auth { token: given } => if given == token {
            AdmissionView::Admitted
        } else {
            AdmissionView::Refused(
                ServerFrameView::AuthFailed { reason: CoreErrorView::AuthFailed.message() },
            )
        },
        _ => AdmissionView::Refused(
            ServerFrameView::AuthFailed { reason: "first frame must be auth"@ },
        ),
    }
}

/// What the server makes of what came first from a client.
pub open spec fn admission(token: Seq<char>, first: FirstMessage) -> AdmissionView {
    match first {
        FirstMessage::TimedOut(cause) => AdmissionView::Failed(
            SessionErrorView::AuthTimeout(cause@),
        ),
        FirstMessage::Disconnected => AdmissionView::Failed(
            SessionErrorView::DisconnectedBeforeAuth,
        ),
        FirstMessage::Failed(cause) => AdmissionView::Failed(SessionErrorView::Receive(cause@)),
        FirstMessage::Received(message) => match client_frame_in(message) {
            Ok(frame) => frame_admission(token, frame),
            Err(error) => AdmissionView::Failed(SessionErrorView::Frame(error)),
        },
    }
}

/// What the server makes of a client's first frame.
pub fn authenticate(auth: &TokenAuth, frame: &ClientFrame) -> (admitted: Admission)
    ensures
        admitted@ == frame_admission(auth@, frame@),
{
    match frame {
        ClientFrame::Auth { token } => match auth.verify(token) {
            Ok(()) => Admission::Admitted,
            Err(error) => Admission::Refused(ServerFrame::AuthFailed { reason: error.message() }),
        },
        _ => Admission::Refused(
            ServerFrame::AuthFailed { reason: "first frame must be auth".to_owned() },
        ),
    }
}

/// What the server makes of what came first from a client.
pub fn receive_first(auth: &TokenAuth, first: FirstMessage) -> (admitted: Admission)
    ensures
        admitted@ == admission(auth@, first),
{
    match first {
        FirstMessage::TimedOut(cause) => Admission::Failed(SessionError::AuthTimeout(cause)),
        FirstMessage::Disconnected => Admission::Failed(SessionError::DisconnectedBeforeAuth),
        FirstMessage::Failed(cause) => Admission::Failed(SessionError::Receive(cause)),
        FirstMessage::Received(message) => match parse_client_frame(message) {
            Ok(frame) => authenticate(auth, &frame),
            Err(error) => Admission::Failed(SessionError::Frame(error)),
        },
    }
}

/// An admitted client: its name, and the port that it has opened last.
#[derive(Debug)]
pub struct Session {
    client_id: String,
    hub: Option<usize>,
}

/// A [`Session`]: the client's name, and its port among the server's.
pub ghost struct SessionView {
    pub client_id: Seq<char>,
    pub hub: Option<int>,
}

impl View for Session {
    type V = SessionView;

    closed spec fn view(&self) -> SessionView {
        SessionView {
            client_id: self.client_id@,
            hub: match self.hub {
                Some(hub) => Some(hub as int),
                None => None,
            },
        }
    }
}

impl SessionView {
    /// The client's port, if it has opened one of the server's.
    pub open spec fn current_hub(self, hubs: Seq<SerialHubView>) -> Option<int> {
        match self.hub {
            Some(hub) => if 0 <= hub < hubs.len() {
                Some(hub)
            } else {
                None
            },
            None => None,
        }
    }
}

/// What can happen to a session.
#[derive(Debug)]
pub enum SessionEvent {
    /// The client has ended the connection.
    Disconnected,
    /// The connection has failed with the error given.
    ReceiveFailed(String),
    /// A message of the client.
    Received(Message<ClientFrame>),
    /// A frame for every reader of the client's port.
    HubFrame(ServerFrame),
    /// So many such frames were lost because the client was too slow.
    HubLagged(u64),
    /// There will be no more such frames.
    HubClosed,
}

/// What the server does next for a session.
#[derive(Debug)]
pub enum Action {
    /// Nothing.
    Ignore,
    /// Sends the frame to the client.
    Send(ServerFrame),
    /// Sends the frame to every reader of the port, and to the client.
    SendAndBroadcast { hub: usize, frame: ServerFrame },
    /// Finds the port's hub, or opens the port, and goes on with [`Session::opened`].
    Open { config: SerialConfig },
    /// Writes the bytes to the port, and goes on with [`Session::written`].
    Write { hub: usize, bytes: Vec<u8> },
    /// Ends the connection.
    End,
    /// Ends the connection with the error.
    Fail(SessionError),
}

/// An [`Action`] with its texts, frames and bytes as values of the model.
pub ghost enum ActionView {
    Ignore,
    Send(ServerFrameView),
    SendAndBroadcast { hub: int, frame: ServerFrameView },
    Open { config: SerialConfigView },
    Write { hub: int, bytes: Seq<u8> },
    End,
    Fail(SessionErrorView),
}

impl View for Action {
    type V = ActionView;

    open spec fn view(&self) -> ActionView {
        match self {
            Action::Ignore => ActionView::Ignore,
            Action::Send(frame) => ActionView::Send(frame@),
            Action::SendAndBroadcast { hub, frame } => ActionView::SendAndBroadcast {
                hub: *hub as int,
                frame: frame@,
            },
            Action::Open { config } => ActionView::Open { config: config@ },
            Action::Write { hub, bytes } => ActionView::Write { hub: *hub as int, bytes: bytes@ },
            Action::End => ActionView::End,
            Action::Fail(error) => ActionView::Fail(error@),
        }
    }
}

/// The action that delivers a hub's reply.
pub open spec fn deliver(hub: int, reply: HubReplyView) -> ActionView {
    if reply.broadcast {
        ActionView::SendAndBroadcast { hub, frame: reply.frame }
    } else {
        ActionView::Send(reply.frame)
    }
}

/// The action that tells the client of a mistake.
pub open spec fn complain(message: Seq<char>) -> ActionView {
    ActionView::Send(ServerFrameView::Error { message })
}

/// What the server does with a payload for the client's port, once it is decoded: bytes go to the
/// port if the client may write.
pub open spec fn payload_action(
    session: SessionView,
    hubs: Seq<SerialHubView>,
    decoded: Result<Seq<u8>, Seq<char>>,
) -> ActionView {
    match session.current_hub(hubs) {
        Some(hub) => match decoded {
            Ok(bytes) => if hubs[hub].writer == Some(session.client_id) {
                ActionView::Write { hub, bytes }
            } else {
                ActionView::Send(write_refusal())
            },
            Err(cause) => complain("invalid serial_data payload: "@ + cause),
        },
        None => complain("open a serial port before writing"@),
    }
}

/// What the server does with a client's frame.
pub open spec fn frame_action(
    session: SessionView,
    hubs: Seq<SerialHubView>,
    frame: ClientFrameView,
) -> ActionView {
    match frame {
        ClientFrameView::Auth { .. } => complain("already authenticated"@),
        ClientFrameView::Open { config } => ActionView::Open { config },
        ClientFrameView::ClaimWriter => match session.current_hub(hubs) {
            Some(hub) => deliver(hub, claim_reply(hubs[hub].writer, session.client_id)),
            None => complain("open a serial port before claiming writer"@),
        },
        ClientFrameView::ReleaseWriter => match session.current_hub(hubs) {
            Some(hub) => deliver(hub, release_reply(hubs[hub].writer, session.client_id)),
            None => ActionView::Ignore,
        },
        ClientFrameView::SerialData { data } => payload_action(session, hubs, base64_bytes(data)),
        ClientFrameView::Ping => ActionView::Send(ServerFrameView::Pong),
    }
}

/// The server's hubs after a client's frame: a claim or a release may change who writes to the
/// client's port, and nothing else changes anything.
pub open spec fn hubs_after_frame(
    session: SessionView,
    hubs: Seq<SerialHubView>,
    frame: ClientFrameView,
) -> Seq<SerialHubView> {
    match session.current_hub(hubs) {
        Some(hub) => match frame {
            ClientFrameView::ClaimWriter => with_writer(
                hubs,
                hub,
                after_claim(hubs[hub].writer, session.client_id),
            ),
            ClientFrameView::ReleaseWriter => with_writer(
                hubs,
                hub,
                after_release(hubs[hub].writer, session.client_id),
            ),
            _ => hubs,
        },
        None => hubs,
    }
}

/// What the server does about an event.
pub open spec fn event_action(
    session: SessionView,
    hubs: Seq<SerialHubView>,
    event: SessionEvent,
) -> ActionView {
    match event {
        SessionEvent::Disconnected => ActionView::End,
        SessionEvent::ReceiveFailed(cause) => ActionView::Fail(SessionErrorView::Receive(cause@)),
        SessionEvent::Received(message) => match client_frame_in(message) {
            Ok(frame) => frame_action(session, hubs, frame),
            Err(error) => ActionView::Fail(SessionErrorView::Frame(error)),
        },
        SessionEvent::HubFrame(frame) => ActionView::Send(frame@),
        SessionEvent::HubLagged(skipped) => ActionView::Send(
            status_frame(
                StatusView::Error {
                    message: "client skipped "@ + decimal(skipped as nat) + " serial events"@,
                },
            ),
        ),
        SessionEvent::HubClosed => ActionView::End,
    }
}

/// The server's hubs after an event.
pub open spec fn hubs_after_event(
    session: SessionView,
    hubs: Seq<SerialHubView>,
    event: SessionEvent,
) -> Seq<SerialHubView> {
    match event {
        SessionEvent::Received(message) => match client_frame_in(message) {
            Ok(frame) => hubs_after_frame(session, hubs, frame),
            Err(_) => hubs,
        },
        _ => hubs,
    }
}

/// The frames that greet an admitted client: that it is in, which ports there are, and its name.
pub open spec fn greeting(client_id: Seq<char>, ports: Seq<SerialPortInfoView>) -> Seq<
    ServerFrameView,
> {
    seq![
        ServerFrameView::AuthOk,
        ServerFrameView::Ports { ports },
        status_frame(StatusView::Connected { client_id }),
    ]
}

/// Frames as values of the model.
pub open spec fn frames_view(frames: Seq<ServerFrame>) -> Seq<ServerFrameView> {
    frames.map_values(|frame: ServerFrame| frame@)
}

/// The ports that could be listed: none if looking for them failed.
pub open spec fn listed_ports(listed: Result<Vec<SerialPortInfo>, CoreError>) -> Seq<
    SerialPortInfoView,
> {
    match listed {
        Ok(ports) => ports_view(ports@),
        Err(_) => seq![],
    }
}

/// What a client gets for a port that it has opened: the port's hub, the frame for the client, and
/// the frame for every reader of the port if it was closed before.
#[derive(Debug)]
pub struct Opening {
    pub hub: usize,
    pub frame: ServerFrame,
    pub announcement: Option<ServerFrame>,
}

impl Session {
    /// A client under the name given, which has opened no port yet.
    pub fn new(client_id: String) -> (session: Self)
        ensures
            session@ == (SessionView { client_id: client_id@, hub: None }),
    {
        Session { client_id, hub: None }
    }

    /// A client under a new random name, which has opened no port yet.
    fn accept() -> (session: Self)
        ensures
            is_random_uuid(session@.client_id),
            session@.hub is None,
    {
        Session::new(random_uuid())
    }

    /// The client's name.
    pub fn client_id(&self) -> (client_id: &str)
        ensures
            client_id@ == self@.client_id,
    {
        &self.client_id
    }

    /// The frames that greet the client.
    pub fn greet(&self, listed: Result<Vec<SerialPortInfo>, CoreError>) -> (frames: Vec<
        ServerFrame,
    >)
        ensures
            frames_view(frames@) == greeting(self@.client_id, listed_ports(listed)),
    {
        let ports = match listed {
            Ok(ports) => ports,
            Err(_) => {
                let none: Vec<SerialPortInfo> = Vec::new();
                assert(ports_view(none@) =~= seq![]);
                none
            },
        };
        let mut frames: Vec<ServerFrame> = Vec::new();
        frames.push(ServerFrame::AuthOk);
        frames.push(ServerFrame::Ports { ports });
        frames.push(
            ServerFrame::Status { status: Status::Connected { client_id: self.client_id.clone() } },
        );
        assert(frames_view(frames@) =~= greeting(self@.client_id, listed_ports(listed)));
        frames
    }

    /// The client's port, if it has opened one of the server's.
    fn current_hub(&self, hubs: &HubTable) -> (hub: Option<usize>)
        ensures
            hub is Some <==> self@.current_hub(hubs@) is Some,
            hub matches Some(hub) ==> self@.current_hub(hubs@) == Some(hub as int),
    {
        match self.hub {
            Some(hub) => if hub < hubs.len() {
                Some(hub)
            } else {
                None
            },
            None => None,
        }
    }

    /// Handles an event.
    pub fn handle_event(&self, hubs: &mut HubTable, event: SessionEvent) -> (action: Action)
        requires
            old(hubs).wf(),
        ensures
            final(hubs).wf(),
            final(hubs)@ == hubs_after_event(self@, old(hubs)@, event),
            action@ == event_action(self@, old(hubs)@, event),
    {
        match event {
            SessionEvent::Disconnected => Action::End,
            SessionEvent::ReceiveFailed(cause) => Action::Fail(SessionError::Receive(cause)),
            SessionEvent::Received(message) => match parse_client_frame(message) {
                Ok(frame) => self.handle_frame(hubs, frame),
                Err(error) => Action::Fail(SessionError::Frame(error)),
            },
            SessionEvent::HubFrame(frame) => Action::Send(frame),
            SessionEvent::HubLagged(skipped) => {
                let mut message = concat("client skipped ", &decimal_text(skipped));
                message.append(" serial events");
                Action::Send(ServerFrame::Status { status: Status::Error { message } })
            },
            SessionEvent::HubClosed => Action::End,
        }
    }

    /// Handles a frame of the client.
    pub fn handle_frame(&self, hubs: &mut HubTable, frame: ClientFrame) -> (action: Action)
        requires
            old(hubs).wf(),
        ensures
            final(hubs).wf(),
            final(hubs)@ == hubs_after_frame(self@, old(hubs)@, frame@),
            action@ == frame_action(self@, old(hubs)@, frame@),
    {
        match frame {
            ClientFrame::Auth { .. } => Action::Send(
                ServerFrame::Error { message: "already authenticated".to_owned() },
            ),
            ClientFrame::Open { config } => Action::Open { config },
            ClientFrame::ClaimWriter => match self.current_hub(hubs) {
                Some(hub) => {
                    let reply = hubs.claim_writer(hub, &self.client_id);
                    delivered(hub, reply)
                },
                None => Action::Send(
                    ServerFrame::Error {
                        message: "open a serial port before claiming writer".to_owned(),
                    },
                ),
            },
            ClientFrame::ReleaseWriter => match self.current_hub(hubs) {
                Some(hub) => {
                    let reply = hubs.release_writer(hub, &self.client_id);
                    delivered(hub, reply)
                },
                None => Action::Ignore,
            },
            ClientFrame::SerialData { data } => self.handle_payload(hubs, decode_payload(&data)),
            ClientFrame::Ping => Action::Send(ServerFrame::Pong),
        }
    }

    /// Handles a payload for the client's port, once it is decoded.
    pub fn handle_payload(&self, hubs: &HubTable, decoded: Result<Vec<u8>, String>) -> (action:
        Action)
        ensures
            action@ == payload_action(self@, hubs@, decoded_view(decoded)),
    {
        match self.current_hub(hubs) {
            Some(hub) => match decoded {
                Ok(bytes) => match hubs.authorize_write(hub, &self.client_id) {
                    Ok(()) => Action::Write { hub, bytes },
                    Err(frame) => Action::Send(frame),
                },
                Err(cause) => Action::Send(
                    ServerFrame::Error { message: concat("invalid serial_data payload: ", &cause) },
                ),
            },
            None => Action::Send(
                ServerFrame::Error { message: "open a serial port before writing".to_owned() },
            ),
        }
    }

    /// Goes on after [`Action::Write`] with what came of writing to the port.
    pub fn written(&self, hub: usize, outcome: Result<(), String>) -> (action: Action)
        ensures
            action@ == deliver(
                hub as int,
                write_reply(self@.client_id, failure_view(outcome)),
            ),
    {
        delivered(hub, finish_write(&self.client_id, outcome))
    }

    /// Goes on after [`Action::Open`] with what came of opening the port, if it had to be opened.
    pub fn opened(
        &mut self,
        hubs: &mut HubTable,
        config: SerialConfig,
        opened: Result<(), CoreError>,
    ) -> (outcome: Result<Opening, SessionError>)
        requires
            old(hubs).wf(),
        ensures
            final(hubs).wf(),
            final(self)@.client_id == old(self)@.client_id,
            outcome is Ok <==> has_hub(old(hubs)@, config@) || opened is Ok,
            final(hubs)@ == if !has_hub(old(hubs)@, config@) && opened is Ok {
                old(hubs)@.push(SerialHubView { config: config@, writer: None })
            } else {
                old(hubs)@
            },
            match outcome {
                Ok(opening) => {
                    &&& final(self)@.current_hub(final(hubs)@) == Some(opening.hub as int)
                    &&& final(hubs)@[opening.hub as int].config == config@
                    &&& opening.frame@ == (ServerFrameView::Opened { config: config@ })
                    &&& opening.announcement is Some <==> !has_hub(old(hubs)@, config@)
                    &&& opening.announcement matches Some(frame) ==> frame@ == status_frame(
                        StatusView::SerialOpened { port: config@.port },
                    )
                },
                Err(error) => {
                    &&& final(self)@ == old(self)@
                    &&& error@ == (SessionErrorView::Open {
                        port: config@.port,
                        error: opened->Err_0@,
                    })
                },
            },
    {
        let port = config.port.clone();
        let frame = ServerFrame::Opened { config: config.clone() };
        match hubs.get_or_open_hub(config, opened) {
            Ok(open) => {
                self.hub = Some(open.hub);
                Ok(Opening { hub: open.hub, frame, announcement: open.announcement })
            },
            Err(error) => Err(SessionError::Open { port, error }),
        }
    }

    /// Ends the session, however it came to its end: whatever the client held the right to write
    /// to is free, and the readers of those ports are told.
    pub fn leave(self, hubs: &mut HubTable) -> (broadcasts: Vec<Broadcast>)
        requires
            old(hubs).wf(),
        ensures
            final(hubs).wf(),
            final(hubs)@ == after_disconnect(old(hubs)@, self@.client_id),
            broadcasts_view(broadcasts@) == disconnect_broadcasts(old(hubs)@, self@.client_id),
    {
        hubs.disconnect(&self.client_id)
    }
}

/// How far a connection has come.
#[derive(Debug)]
enum Stage {
    Waiting,
    Serving(Session),
    Ended,
}

/// A client's connection, which has a session only once the client is admitted.
#[derive(Debug)]
pub struct Connection {
    stage: Stage,
}

/// A [`Connection`]: nothing has come from the client yet, or the client is admitted and has its
/// session, or it was not admitted.
pub ghost enum ConnectionView {
    Waiting,
    Serving(SessionView),
    Ended,
}

impl View for Connection {
    type V = ConnectionView;

    closed spec fn view(&self) -> ConnectionView {
        match self.stage {
            Stage::Waiting => ConnectionView::Waiting,
            Stage::Serving(session) => ConnectionView::Serving(session@),
            Stage::Ended => ConnectionView::Ended,
        }
    }
}

impl Connection {
    /// A connection that nothing has come from yet.
    pub fn new() -> (connection: Self)
        ensures
            connection@ is Waiting,
    {
        Connection { stage: Stage::Waiting }
    }

    /// Handles what came first from the client. A client that is admitted gets a session under a
    /// new random name, and the connection of any other ends.
    pub fn first(&mut self, auth: &TokenAuth, first: FirstMessage) -> (admitted: Admission)
        requires
            old(self)@ is Waiting,
        ensures
            admitted@ == admission(auth@, first),
            final(self)@ is Serving <==> admitted@ is Admitted,
            final(self)@ is Ended <==> !(admitted@ is Admitted),
            final(self)@ matches ConnectionView::Serving(session) ==> {
                &&& is_random_uuid(session.client_id)
                &&& session.hub is None
            },
    {
        let admitted = receive_first(auth, first);
        self.stage = match &admitted {
            Admission::Admitted => Stage::Serving(Session::accept()),
            Admission::Refused(_) => Stage::Ended,
            Admission::Failed(_) => Stage::Ended,
        };
        admitted
    }

    /// The session of an admitted client; nobody else has one.
    pub fn into_session(self) -> (session: Option<Session>)
        ensures
            session is Some <==> self@ is Serving,
            session matches Some(session) ==> self@ == ConnectionView::Serving(session@),
    {
        match self.stage {
            Stage::Serving(session) => Some(session),
            Stage::Waiting => None,
            Stage::Ended => None,
        }
    }
}

/// The action that delivers a hub's reply.
fn delivered(hub: usize, reply: HubReply) -> (action: Action)
    ensures
        action@ == deliver(hub as int, reply@),
{
    if reply.broadcast {
        Action::SendAndBroadcast { hub, frame: reply.frame }
    } else {
        Action::Send(reply.frame)
    }
}

/// The right token admits a client, and nothing else does.
pub proof fn only_the_token_admits(token: Seq<char>, frame: ClientFrameView)
    ensures
        frame_admission(token, frame) == AdmissionView::Admitted <==> frame == (
        ClientFrameView::Auth { token }),
{
}

/// A connection is served only after a whole message with the right token: silence, an error of the
/// connection, a message that holds no frame and every other frame leave the client without a
/// session.
pub proof fn only_the_token_opens_a_session(token: Seq<char>, first: FirstMessage)
    ensures
        admission(token, first) is Admitted <==> (first matches FirstMessage::Received(message)
            && client_frame_in(message) == Ok::<ClientFrameView, FrameErrorView>(
            ClientFrameView::Auth { token },
        )),
{
}

/// A client whose first frame does not admit it is told that authentication has failed.
pub proof fn a_refused_client_is_told(token: Seq<char>, frame: ClientFrameView)
    requires
        frame != (ClientFrameView::Auth { token }),
    ensures
        frame_admission(token, frame) matches AdmissionView::Refused(answer)
            && answer is AuthFailed,
{
}

/// Bytes reach a port only from the client that may write to it, and they are the bytes that its
/// frame carries.
pub proof fn only_the_writer_writes(
    session: SessionView,
    hubs: Seq<SerialHubView>,
    frame: ClientFrameView,
    hub: int,
    bytes: Seq<u8>,
)
    requires
        frame_action(session, hubs, frame) == (ActionView::Write { hub, bytes }),
    ensures
        session.current_hub(hubs) == Some(hub),
        hubs[hub].writer == Some(session.client_id),
        frame.serial_bytes() == Some(bytes),
{
}

/// The bytes that a frame of the writer carries reach the port, and they do not change who may
/// write.
pub proof fn the_writer_writes(
    session: SessionView,
    hubs: Seq<SerialHubView>,
    frame: ClientFrameView,
    hub: int,
    bytes: Seq<u8>,
)
    requires
        session.current_hub(hubs) == Some(hub),
        hubs[hub].writer == Some(session.client_id),
        frame.serial_bytes() == Some(bytes),
    ensures
        frame_action(session, hubs, frame) == (ActionView::Write { hub, bytes }),
        hubs_after_frame(session, hubs, frame) == hubs,
{
}

/// Whatever happens to one client's session, every port stays, no other client loses the right to
/// write, and none gains it.
pub proof fn a_session_leaves_other_clients_alone(
    session: SessionView,
    hubs: Seq<SerialHubView>,
    event: SessionEvent,
    i: int,
    other: Seq<char>,
)
    requires
        0 <= i < hubs.len(),
        other != session.client_id,
    ensures
        hubs_after_event(session, hubs, event).len() == hubs.len(),
        hubs_after_event(session, hubs, event)[i].config == hubs[i].config,
        hubs_after_event(session, hubs, event)[i].writer == Some(other) <==> hubs[i].writer
            == Some(other),
{
}

/// A heartbeat, as a frame or as a control message, is answered in every state and changes nothing.
pub proof fn a_heartbeat_is_answered(
    session: SessionView,
    hubs: Seq<SerialHubView>,
    message: Message<ClientFrame>,
)
    requires
        client_frame_in(message) == Ok::<ClientFrameView, FrameErrorView>(ClientFrameView::Ping)
            || message is Ping || message is Pong,
    ensures
        event_action(session, hubs, SessionEvent::Received(message)) == ActionView::Send(
            ServerFrameView::Pong,
        ),
        hubs_after_event(session, hubs, SessionEvent::Received(message)) == hubs,
{
}

/// A client that has opened no port writes nothing, is never the writer of a port, and reaches no
/// other client.
pub proof fn nothing_happens_without_a_port(
    session: SessionView,
    hubs: Seq<SerialHubView>,
    frame: ClientFrameView,
)
    requires
        session.current_hub(hubs) is None,
    ensures
        hubs_after_frame(session, hubs, frame) == hubs,
        !(frame_action(session, hubs, frame) is Write),
        !(frame_action(session, hubs, frame) is SendAndBroadcast),
{
}

/// A client that claims a free port is its writer from then on: the client and every reader are
/// told, and what the client sends is written.
pub proof fn a_claim_of_a_free_port_succeeds(
    session: SessionView,
    hubs: Seq<SerialHubView>,
    hub: int,
    bytes: Seq<u8>,
)
    requires
        session.current_hub(hubs) == Some(hub),
        hubs[hub].writer is None,
    ensures
        frame_action(session, hubs, ClientFrameView::ClaimWriter) == (
        ActionView::SendAndBroadcast {
            hub,
            frame: status_frame(StatusView::WriterClaimed { client_id: session.client_id }),
        }),
        payload_action(
            session,
            hubs_after_frame(session, hubs, ClientFrameView::ClaimWriter),
            Ok(bytes),
        ) == (ActionView::Write { hub, bytes }),
{
}

/// A client that comes too late may only read: it is told who the writer is, nothing changes, and
/// what it sends is refused.
pub proof fn a_late_client_may_only_read(
    session: SessionView,
    hubs: Seq<SerialHubView>,
    hub: int,
    owner: Seq<char>,
    bytes: Seq<u8>,
)
    requires
        session.current_hub(hubs) == Some(hub),
        hubs[hub].writer == Some(owner),
        owner != session.client_id,
    ensures
        frame_action(session, hubs, ClientFrameView::ClaimWriter) == ActionView::Send(
            status_frame(StatusView::ReadOnly { owner: Some(owner) }),
        ),
        hubs_after_frame(session, hubs, ClientFrameView::ClaimWriter) == hubs,
        hubs_after_frame(session, hubs, ClientFrameView::ReleaseWriter) == hubs,
        payload_action(session, hubs, Ok(bytes)) == ActionView::Send(write_refusal()),
{
    assert(with_writer(hubs, hub, Some(owner)) =~= hubs);
}

/// Once the writer of a port has gone, the next client to claim the port may write to it.
pub proof fn a_port_outlives_its_writer(
    session: SessionView,
    hubs: Seq<SerialHubView>,
    hub: int,
    gone: Seq<char>,
    bytes: Seq<u8>,
)
    requires
        session.current_hub(hubs) == Some(hub),
        hubs[hub].writer == Some(gone),
    ensures
        payload_action(
            session,
            hubs_after_frame(
                session,
                after_disconnect(hubs, gone),
                ClientFrameView::ClaimWriter,
            ),
            Ok(bytes),
        ) == (ActionView::Write { hub, bytes }),
{
}

/// A client's port stays its port when other clients open ports, claim, give back or go.
pub proof fn a_port_stays_current(
    session: SessionView,
    hubs: Seq<SerialHubView>,
    hub: int,
    opened: SerialHubView,
    other: SessionView,
    event: SessionEvent,
)
    requires
        session.current_hub(hubs) == Some(hub),
    ensures
        session.current_hub(hubs.push(opened)) == Some(hub),
        hubs.push(opened)[hub] == hubs[hub],
        session.current_hub(hubs_after_event(other, hubs, event)) == Some(hub),
        hubs_after_event(other, hubs, event)[hub].config == hubs[hub].config,
        session.current_hub(after_disconnect(hubs, other.client_id)) == Some(hub),
        after_disconnect(hubs, other.client_id)[hub].config == hubs[hub].config,
{
}

/// When a session ends, of itself or with an error, and its client leaves, the client can write to
/// no port, and whoever else could write still can.
pub proof fn an_ended_session_holds_nothing(
    session: SessionView,
    hubs: Seq<SerialHubView>,
    event: SessionEvent,
    i: int,
)
    requires
        event_action(session, hubs, event) is End || event_action(session, hubs, event) is Fail,
        0 <= i < hubs.len(),
    ensures
        ({
            let left = after_disconnect(hubs_after_event(session, hubs, event), session.client_id);
            &&& left.len() == hubs.len()
            &&& left[i].writer != Some(session.client_id)
            &&& hubs[i].writer != Some(session.client_id) ==> left[i] == hubs[i]
        }),
{
}

/// Something that changes the server's hubs: an event of an admitted client, a port that has been
/// opened for one, or a client's departure.
pub ghost enum ServerStep {
    Event { session: SessionView, event: SessionEvent },
    Opened { config: SerialConfigView },
    Departed { client: Seq<char> },
}

/// The server's hubs after one step.
pub open spec fn after_step(hubs: Seq<SerialHubView>, step: ServerStep) -> Seq<SerialHubView> {
    match step {
        ServerStep::Event { session, event } => hubs_after_event(session, hubs, event),
        ServerStep::Opened { config } => if has_hub(hubs, config) {
            hubs
        } else {
            hubs.push(SerialHubView { config, writer: None })
        },
        ServerStep::Departed { client } => after_disconnect(hubs, client),
    }
}

/// The server's hubs after some steps, one after the other.
pub open spec fn after_steps(hubs: Seq<SerialHubView>, steps: Seq<ServerStep>) -> Seq<SerialHubView>
    decreases steps.len(),
{
    if steps.len() == 0 {
        hubs
    } else {
        after_step(after_steps(hubs, steps.drop_last()), steps.last())
    }
}

/// Whether a step is another client's, or a port that has been opened.
pub open spec fn leaves_out(step: ServerStep, client: Seq<char>) -> bool {
    match step {
        ServerStep::Event { session, .. } => session.client_id != client,
        ServerStep::Opened { .. } => true,
        ServerStep::Departed { client: gone } => gone != client,
    }
}

/// A port that a server has opened stays, with its configuration, whatever happens.
pub proof fn an_opened_port_stays(hubs: Seq<SerialHubView>, steps: Seq<ServerStep>, i: int)
    requires
        0 <= i < hubs.len(),
    ensures
        i < after_steps(hubs, steps).len(),
        after_steps(hubs, steps)[i].config == hubs[i].config,
    decreases steps.len(),
{
    if steps.len() > 0 {
        an_opened_port_stays(hubs, steps.drop_last(), i);
    }
}

/// Each configuration has one hub at any time: no step gives two hubs the same configuration.
pub proof fn configurations_stay_distinct(
    hubs: Seq<SerialHubView>,
    steps: Seq<ServerStep>,
    i: int,
    j: int,
)
    requires
        forall|k: int, l: int|
            0 <= k < l < hubs.len() ==> (#[trigger] hubs[k]).config != (#[trigger] hubs[l]).config,
        0 <= i < j < after_steps(hubs, steps).len(),
    ensures
        after_steps(hubs, steps)[i].config != after_steps(hubs, steps)[j].config,
    decreases steps.len(),
{
    if steps.len() > 0 {
        let before = after_steps(hubs, steps.drop_last());
        let after = after_steps(hubs, steps);
        if j < before.len() {
            configurations_stay_distinct(hubs, steps.drop_last(), i, j);
        } else {
            assert(after[i] == before[i]);
        }
    }
}

/// A client stays the writer of a port, or stays not the writer, as long as only other clients do
/// something.
pub proof fn only_a_client_changes_its_own_right(
    hubs: Seq<SerialHubView>,
    steps: Seq<ServerStep>,
    client: Seq<char>,
    i: int,
)
    requires
        0 <= i < hubs.len(),
        forall|k: int| 0 <= k < steps.len() ==> leaves_out(#[trigger] steps[k], client),
    ensures
        i < after_steps(hubs, steps).len(),
        after_steps(hubs, steps)[i].writer == Some(client) <==> hubs[i].writer == Some(client),
    decreases steps.len(),
{
    if steps.len() > 0 {
        let front = steps.drop_last();
        assert forall|k: int| 0 <= k < front.len() implies leaves_out(
            #[trigger] front[k],
            client,
        ) by {
            assert(front[k] == steps[k]);
        }
        only_a_client_changes_its_own_right(hubs, front, client, i);
        assert(leaves_out(steps[steps.len() - 1], client));
    }
}

/// A client that has gone is never the writer of a port again, whatever the others do.
pub proof fn a_departed_client_never_writes_again(
    hubs: Seq<SerialHubView>,
    gone: Seq<char>,
    steps: Seq<ServerStep>,
    i: int,
)
    requires
        forall|k: int| 0 <= k < steps.len() ==> leaves_out(#[trigger] steps[k], gone),
        0 <= i < after_steps(after_disconnect(hubs, gone), steps).len(),
    ensures
        after_steps(after_disconnect(hubs, gone), steps)[i].writer != Some(gone),
    decreases steps.len(),
{
    if steps.len() > 0 {
        let front = steps.drop_last();
        let before = after_steps(after_disconnect(hubs, gone), front);
        assert forall|k: int| 0 <= k < front.len() implies leaves_out(
            #[trigger] front[k],
            gone,
        ) by {
            assert(front[k] == steps[k]);
        }
        assert(leaves_out(steps[steps.len() - 1], gone));
        if i < before.len() {
            a_departed_client_never_writes_again(hubs, gone, front, i);
        }
    }
}

/// A session's error, an admission and an action are seen with everything that they hold.
pub proof fn a_decision_is_seen_whole(
    text: String,
    cause: String,
    frame: ServerFrame,
    config: SerialConfig,
    bytes: Vec<u8>,
    hub: usize,
    frame_error: FrameError,
    core_error: CoreError,
    error: SessionError,
)
    ensures
        (SessionError::Handshake { peer: text, cause })@ == (SessionErrorView::Handshake {
            peer: text@,
            cause: cause@,
        }),
        SessionError::AuthTimeout(cause)@ == SessionErrorView::AuthTimeout(cause@),
        SessionError::DisconnectedBeforeAuth@ is DisconnectedBeforeAuth,
        SessionError::Receive(cause)@ == SessionErrorView::Receive(cause@),
        SessionError::Frame(frame_error)@ == SessionErrorView::Frame(frame_error@),
        (SessionError::Open { port: text, error: core_error })@ == (SessionErrorView::Open {
            port: text@,
            error: core_error@,
        }),
        Admission::Admitted@ is Admitted,
        Admission::Refused(frame)@ == AdmissionView::Refused(frame@),
        Admission::Failed(error)@ == AdmissionView::Failed(error@),
        Action::Ignore@ is Ignore,
        Action::Send(frame)@ == ActionView::Send(frame@),
        (Action::SendAndBroadcast { hub, frame })@ == (ActionView::SendAndBroadcast {
            hub: hub as int,
            frame: frame@,
        }),
        (Action::Open { config })@ == (ActionView::Open { config: config@ }),
        (Action::Write { hub, bytes })@ == (ActionView::Write { hub: hub as int, bytes: bytes@ }),
        Action::End@ is End,
        Action::Fail(error)@ == ActionView::Fail(error@),
{
}

/// Every error of a session says in full what the server was about to do and why it could not, and
/// in brief no more than why.
pub proof fn a_session_error_says_why(
    peer: Seq<char>,
    cause: Seq<char>,
    frame_error: FrameErrorView,
    core_error: CoreErrorView,
)
    ensures
        (SessionErrorView::Handshake { peer, cause }).message()
            == "websocket handshake failed for "@ + peer + ": "@ + cause,
        (SessionErrorView::Handshake { peer, cause }).brief() == "websocket handshake failed: "@
            + cause,
        SessionErrorView::AuthTimeout(cause).message() == SessionErrorView::AuthTimeout(
            cause,
        ).brief() + ": "@ + cause,
        SessionErrorView::AuthTimeout(cause).brief() == "auth timeout"@,
        SessionErrorView::DisconnectedBeforeAuth.message()
            == SessionErrorView::DisconnectedBeforeAuth.brief(),
        SessionErrorView::Receive(cause).message() == cause,
        SessionErrorView::Receive(cause).brief() == cause,
        SessionErrorView::Frame(frame_error).message() == frame_error.message(),
        SessionErrorView::Frame(frame_error).brief() == frame_error.brief(),
        (SessionErrorView::Open { port: peer, error: core_error }).message()
            == "failed to open serial port "@ + peer + ": "@ + core_error.message(),
        (SessionErrorView::Open { port: peer, error: core_error }).brief() == core_error.message(),
{
    reveal_strlit("auth timeout: ");
    reveal_strlit("auth timeout");
    reveal_strlit(": ");
    assert("auth timeout: "@ =~= "auth timeout"@ + ": "@);
    assert(SessionErrorView::AuthTimeout(cause).message() =~= "auth timeout"@ + ": "@ + cause);
}

/// Whatever came first from a client, either the client is admitted, or it is answered because it
/// sent a frame, or the connection ends with the very error that came.
pub proof fn a_first_message_is_judged(token: Seq<char>, first: FirstMessage)
    ensures
        match first {
            FirstMessage::TimedOut(cause) => admission(token, first) == AdmissionView::Failed(
                SessionErrorView::AuthTimeout(cause@),
            ),
            FirstMessage::Disconnected => admission(token, first) == AdmissionView::Failed(
                SessionErrorView::DisconnectedBeforeAuth,
            ),
            FirstMessage::Failed(cause) => admission(token, first) == AdmissionView::Failed(
                SessionErrorView::Receive(cause@),
            ),
            FirstMessage::Received(message) => match client_frame_in(message) {
                Ok(frame) => {
                    &&& admission(token, first) == frame_admission(token, frame)
                    &&& !(admission(token, first) is Failed)
                },
                Err(error) => admission(token, first) == AdmissionView::Failed(
                    SessionErrorView::Frame(error),
                ),
            },
        },
{
}

/// A client with another token hears that authentication failed, and a client that does not begin
/// with a token hears that it must.
pub proof fn a_refusal_tells_the_reason(
    token: Seq<char>,
    other: Seq<char>,
    frame: ClientFrameView,
)
    requires
        other != token,
        !(frame is Auth),
    ensures
        frame_admission(token, ClientFrameView::Auth { token: other }) == AdmissionView::Refused(
            ServerFrameView::AuthFailed { reason: "authentication failed"@ },
        ),
        frame_admission(token, frame) == AdmissionView::Refused(
            ServerFrameView::AuthFailed { reason: "first frame must be auth"@ },
        ),
{
}

/// The greeting of a client tells it that it is in, then of every port that the server sees, and
/// then its own name. Ports that could not be listed are told of as none.
pub proof fn a_greeting_tells_everything(
    client_id: Seq<char>,
    ports: Seq<SerialPortInfoView>,
    frames: Seq<ServerFrame>,
    listed: Vec<SerialPortInfo>,
    error: CoreError,
)
    ensures
        greeting(client_id, ports).len() == 3,
        greeting(client_id, ports)[0] is AuthOk,
        greeting(client_id, ports)[1] == (ServerFrameView::Ports { ports }),
        greeting(client_id, ports)[2] == (ServerFrameView::Status {
            status: StatusView::Connected { client_id },
        }),
        frames_view(frames).len() == frames.len(),
        forall|i: int|
            0 <= i < frames.len() ==> (#[trigger] frames_view(frames)[i]) == frames[i]@,
        listed_ports(Ok(listed)) == ports_view(listed@),
        listed_ports(Err(error)) == Seq::<SerialPortInfoView>::empty(),
{
}

/// A client's port is the one that it has opened, if the server has it, and otherwise it has none.
pub proof fn a_current_port_is_the_opened_one(session: SessionView, hubs: Seq<SerialHubView>)
    ensures
        session.current_hub(hubs) matches Some(hub) ==> {
            &&& session.hub == Some(hub)
            &&& 0 <= hub < hubs.len()
        },
        session.current_hub(hubs) is None ==> (session.hub matches Some(hub) ==> hub < 0 || hub
            >= hubs.len()),
{
}

/// A client that asks for a port gets that port opened, with every setting as it asked, and nothing
/// else changes.
pub proof fn a_port_is_opened_as_asked(
    session: SessionView,
    hubs: Seq<SerialHubView>,
    config: SerialConfigView,
)
    ensures
        ({
            let action = frame_action(session, hubs, ClientFrameView::Open { config });
            &&& action matches ActionView::Open { config: asked }
            &&& asked.port == config.port
            &&& asked.baud_rate == config.baud_rate
            &&& asked.data_bits == config.data_bits
            &&& asked.stop_bits == config.stop_bits
            &&& asked.parity == config.parity
        }),
        hubs_after_frame(session, hubs, ClientFrameView::Open { config }) == hubs,
{
}

/// Whatever the readers of a port are told, each of them gets that very frame.
pub proof fn a_hub_frame_is_passed_on(
    session: SessionView,
    hubs: Seq<SerialHubView>,
    frame: ServerFrame,
)
    ensures
        event_action(session, hubs, SessionEvent::HubFrame(frame)) matches ActionView::Send(sent)
            && sent == frame@,
        hubs_after_event(session, hubs, SessionEvent::HubFrame(frame)) == hubs,
{
}

/// A client that was too slow hears how many frames it has lost.
pub proof fn lost_frames_are_counted(
    session: SessionView,
    hubs: Seq<SerialHubView>,
    skipped: u64,
)
    ensures
        event_action(session, hubs, SessionEvent::HubLagged(skipped)) matches ActionView::Send(sent)
            && sent == (ServerFrameView::Status {
            status: StatusView::Error {
                message: "client skipped "@ + decimal(skipped as nat) + " serial events"@,
            },
        }),
        hubs_after_event(session, hubs, SessionEvent::HubLagged(skipped)) == hubs,
{
}

/// A message is handled as the frame in it, and one without a frame ends the session with its
/// error and changes nothing.
pub proof fn a_message_is_handled_as_its_frame(
    session: SessionView,
    hubs: Seq<SerialHubView>,
    message: Message<ClientFrame>,
)
    ensures
        match client_frame_in(message) {
            Ok(frame) => {
                &&& event_action(session, hubs, SessionEvent::Received(message)) == frame_action(
                    session,
                    hubs,
                    frame,
                )
                &&& hubs_after_event(session, hubs, SessionEvent::Received(message))
                    == hubs_after_frame(session, hubs, frame)
            },
            Err(error) => {
                &&& event_action(session, hubs, SessionEvent::Received(message))
                    == ActionView::Fail(SessionErrorView::Frame(error))
                &&& hubs_after_event(session, hubs, SessionEvent::Received(message)) == hubs
            },
        },
{
}

/// A session ends when its client or its port has gone, and fails when the connection does or a
/// message holds no frame; it goes on after everything else, and after every frame.
pub proof fn a_session_goes_on_until_it_ends(
    session: SessionView,
    hubs: Seq<SerialHubView>,
    event: SessionEvent,
    frame: ClientFrameView,
    cause: String,
)
    ensures
        event_action(session, hubs, event) is End <==> event is Disconnected || event is HubClosed,
        event_action(session, hubs, event) is Fail <==> event is ReceiveFailed || (
        event matches SessionEvent::Received(message) && client_frame_in(message) is Err),
        event_action(session, hubs, SessionEvent::ReceiveFailed(cause)) == ActionView::Fail(
            SessionErrorView::Receive(cause@),
        ),
        !(frame_action(session, hubs, frame) is End),
        !(frame_action(session, hubs, frame) is Fail),
{
}

/// After a claim the port has a writer: the one that it had, or else the client. The client and
/// everyone hear that it is the writer if it is, and otherwise it alone hears who is. Every other
/// port stays as it was.
pub proof fn a_claim_is_answered(
    session: SessionView,
    hubs: Seq<SerialHubView>,
    hub: int,
    i: int,
)
    requires
        session.current_hub(hubs) == Some(hub),
        0 <= i < hubs.len(),
    ensures
        ({
            let after = hubs_after_frame(session, hubs, ClientFrameView::ClaimWriter);
            let action = frame_action(session, hubs, ClientFrameView::ClaimWriter);
            &&& after.len() == hubs.len()
            &&& i != hub ==> after[i] == hubs[i]
            &&& after[hub].config == hubs[hub].config
            &&& after[hub].writer is Some
            &&& hubs[hub].writer is Some ==> after[hub].writer == hubs[hub].writer
            &&& hubs[hub].writer is None ==> after[hub].writer == Some(session.client_id)
            &&& match action {
                ActionView::SendAndBroadcast { hub: told, frame } => {
                    &&& after[hub].writer == Some(session.client_id)
                    &&& told == hub
                    &&& frame == (ServerFrameView::Status {
                        status: StatusView::WriterClaimed { client_id: session.client_id },
                    })
                },
                ActionView::Send(frame) => {
                    &&& after[hub].writer != Some(session.client_id)
                    &&& frame == (ServerFrameView::Status {
                        status: StatusView::ReadOnly { owner: after[hub].writer },
                    })
                },
                _ => false,
            }
        }),
{
}

/// After a release the port is free if the client held it, which everyone hears, and otherwise as
/// it was, which the client alone hears. Every other port stays as it was.
pub proof fn a_release_is_answered(
    session: SessionView,
    hubs: Seq<SerialHubView>,
    hub: int,
    i: int,
)
    requires
        session.current_hub(hubs) == Some(hub),
        0 <= i < hubs.len(),
    ensures
        ({
            let after = hubs_after_frame(session, hubs, ClientFrameView::ReleaseWriter);
            let action = frame_action(session, hubs, ClientFrameView::ReleaseWriter);
            let held = hubs[hub].writer == Some(session.client_id);
            &&& after.len() == hubs.len()
            &&& i != hub ==> after[i] == hubs[i]
            &&& after[hub].config == hubs[hub].config
            &&& held ==> after[hub].writer is None
            &&& !held ==> after[hub] == hubs[hub]
            &&& held ==> action == (ActionView::SendAndBroadcast {
                hub,
                frame: ServerFrameView::Status { status: StatusView::WriterReleased },
            })
            &&& hubs[hub].writer is None ==> action == ActionView::Send(
                ServerFrameView::Status { status: StatusView::ReadOnly { owner: None } },
            )
            &&& hubs[hub].writer is Some && !held ==> action == ActionView::Send(
                ServerFrameView::Error {
                    message: "writer is not owned by "@ + session.client_id,
                },
            )
        }),
{
}

/// Only a claim or a release changes who may write, and only to the client's own port.
pub proof fn only_a_claim_or_a_release_changes_a_port(
    session: SessionView,
    hubs: Seq<SerialHubView>,
    frame: ClientFrameView,
    i: int,
)
    requires
        0 <= i < hubs.len(),
    ensures
        hubs_after_frame(session, hubs, frame).len() == hubs.len(),
        hubs_after_frame(session, hubs, frame)[i] != hubs[i] ==> {
            &&& frame is ClaimWriter || frame is ReleaseWriter
            &&& session.current_hub(hubs) == Some(i)
        },
{
}

/// A payload is written exactly if the client has a port, may write to it, and has sent base64, and
/// then the bytes written are those that the text stands for. Otherwise the client hears what was
/// wrong.
pub proof fn a_payload_is_written_or_answered(
    session: SessionView,
    hubs: Seq<SerialHubView>,
    data: Seq<char>,
)
    ensures
        ({
            let action = frame_action(session, hubs, ClientFrameView::SerialData { data });
            match (session.current_hub(hubs), base64_bytes(data)) {
                (None, _) => action == ActionView::Send(
                    ServerFrameView::Error { message: "open a serial port before writing"@ },
                ),
                (Some(hub), Err(cause)) => action == ActionView::Send(
                    ServerFrameView::Error { message: "invalid serial_data payload: "@ + cause },
                ),
                (Some(hub), Ok(bytes)) => if hubs[hub].writer == Some(session.client_id) {
                    action == (ActionView::Write { hub, bytes })
                } else {
                    action == ActionView::Send(
                        ServerFrameView::Error {
                            message: "client does not own writer permission"@,
                        },
                    )
                },
            }
        }),
{
}

/// A decoded payload is handled as the frame that carried it.
pub proof fn a_decoded_payload_is_handled_as_its_frame(
    session: SessionView,
    hubs: Seq<SerialHubView>,
    data: Seq<char>,
)
    ensures
        payload_action(session, hubs, base64_bytes(data)) == frame_action(
            session,
            hubs,
            ClientFrameView::SerialData { data },
        ),
{
}

/// A client that has no port hears that it must open one before it claims, and nothing when it gives
/// back what it cannot have. A client that authenticates again hears that it has.
pub proof fn a_misplaced_frame_is_answered(
    session: SessionView,
    hubs: Seq<SerialHubView>,
    token: Seq<char>,
)
    ensures
        session.current_hub(hubs) is None ==> {
            &&& frame_action(session, hubs, ClientFrameView::ClaimWriter) == ActionView::Send(
                ServerFrameView::Error { message: "open a serial port before claiming writer"@ },
            )
            &&& frame_action(session, hubs, ClientFrameView::ReleaseWriter) is Ignore
        },
        frame_action(session, hubs, ClientFrameView::Auth { token }) == ActionView::Send(
            ServerFrameView::Error { message: "already authenticated"@ },
        ),
        frame_action(session, hubs, ClientFrameView::Ping) == ActionView::Send(
            ServerFrameView::Pong,
        ),
{
}

/// A hub's reply is delivered whole: to everyone if it is for everyone, and otherwise to the client.
pub proof fn a_reply_is_delivered_whole(hub: int, reply: HubReplyView)
    ensures
        match deliver(hub, reply) {
            ActionView::SendAndBroadcast { hub: told, frame } => {
                &&& reply.broadcast
                &&& told == hub
                &&& frame == reply.frame
            },
            ActionView::Send(frame) => !reply.broadcast && frame == reply.frame,
            _ => false,
        },
{
}

} // verus!

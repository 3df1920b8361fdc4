//! The desktop shell: the server and the remote port that it runs, and what its window is told.
use crate::auth::TokenAuth;
use crate::message::{Message, parse_server_frame};
#[allow(unused_imports)]
use crate::client::{client_id_after, names_the_client};
#[allow(unused_imports)]
use crate::hub::failure_view;
#[allow(unused_imports)]
use crate::message::{FrameErrorView, server_frame_in};
use crate::payload::decode_payload;
#[allow(unused_imports)]
use crate::payload::{base64_bytes, base64_text, decoded_view, encodable};
use crate::protocol::{ClientFrame, SerialConfig, ServerFrame, Status};
#[allow(unused_imports)]
use crate::protocol::{ClientFrameView, ServerFrameView, StatusView, default_config};
use crate::text::{concat, decimal_text, hex_text};
#[allow(unused_imports)]
use crate::text::{bytes_read_back, decimal, digit_value, hex_bytes, hex_is_injective, text_view};
use vstd::prelude::*;
#[allow(unused_imports)]
use vstd::utf8::{
    decode_utf8, encode_utf8, encode_utf8_decode_utf8, encode_utf8_valid_utf8, valid_utf8,
};

verus! {

/// Bytes as text, as `String::from_utf8_lossy` writes them.
pub uninterp spec fn lossy_text(bytes: Seq<u8>) -> Seq<char>;

/// A text in double quotes and with escapes, as its `Debug` writes it.
pub uninterp spec fn quoted_text(text: Seq<char>) -> Seq<char>;

/// Calls `String::from_utf8_lossy`. Claims that the text depends on the bytes alone, and that bytes
/// that are UTF-8 are decoded as such.
#[verifier::external_body]
fn from_utf8_lossy(bytes: &[u8]) -> (text: String)
    ensures
        text@ == lossy_text(bytes@),
        valid_utf8(bytes@) ==> text@ == decode_utf8(bytes@),
{
    String::from_utf8_lossy(bytes).into_owned()
}

/// Writes a text with the `Debug` of `str`. Claims that the result depends on the text alone.
#[verifier::external_body]
fn quote(text: &str) -> (quoted: String)
    ensures
        quoted@ == quoted_text(text@),
{
    format!("{text:?}")
}

/// What the shell says of itself.
#[derive(Debug)]
pub struct AppStatus {
    pub app_name: &'static str,
    pub version: &'static str,
    pub core_ready: bool,
    pub server_embedded: bool,
}

/// What the shell says of itself, in the version given.
pub fn app_status(version: &'static str) -> (status: AppStatus)
    ensures
        status.app_name@ == "UartRemote"@,
        status.version@ == version@,
        status.core_ready,
        status.server_embedded,
{
    AppStatus { app_name: "UartRemote", version, core_ready: true, server_embedded: true }
}

/// The parameters that a port has unless the user chooses others.
pub fn default_serial_config() -> (config: SerialConfig)
    ensures
        config@ == default_config(),
{
    SerialConfig::default()
}

/// Whether a server with the one token accepts the other.
pub fn verify_token(expected: String, provided: String) -> (accepted: bool)
    ensures
        accepted == (expected@ == provided@),
{
    TokenAuth::new(expected).verify(&provided).is_ok()
}

/// The server that the shell runs, if it runs one: where it listens.
#[derive(Debug)]
pub struct LocalServer {
    bind: Option<String>,
}

impl View for LocalServer {
    type V = Option<Seq<char>>;

    closed spec fn view(&self) -> Option<Seq<char>> {
        text_view(self.bind)
    }
}

/// Why a server cannot be started, if it cannot: one runs, its address is none, or it cannot listen
/// there, in this order.
pub open spec fn start_failure(
    running: Option<Seq<char>>,
    bind: Seq<char>,
    parse_failure: Option<Seq<char>>,
    bind_failure: Option<Seq<char>>,
) -> Option<Seq<char>> {
    if running is Some {
        Some("local server is already running"@)
    } else {
        match (parse_failure, bind_failure) {
            (Some(cause), _) => Some("invalid bind address: "@ + cause),
            (None, Some(cause)) => Some("failed to bind "@ + bind + ": "@ + cause),
            (None, None) => None,
        }
    }
}

impl LocalServer {
    /// No server runs.
    pub fn new() -> (server: Self)
        ensures
            server@ is None,
    {
        LocalServer { bind: None }
    }

    /// Whether a server may be started: only one may run.
    pub fn may_start(&self) -> (verdict: Result<(), String>)
        ensures
            verdict is Ok <==> self@ is None,
            verdict matches Err(message) ==> message@ == "local server is already running"@,
    {
        if self.bind.is_some() {
            Err("local server is already running".to_owned())
        } else {
            Ok(())
        }
    }

    /// Starts a server: `parsed` is what came of reading the address, and `bound` what came of
    /// listening there. A server that runs already is told of before a bad address, and a bad
    /// address before one that cannot be listened at; nothing changes then.
    pub fn start(
        &mut self,
        bind: String,
        parsed: Result<(), String>,
        bound: Result<(), String>,
    ) -> (outcome: Result<(), String>)
        ensures
            failure_view(outcome) == start_failure(
                old(self)@,
                bind@,
                failure_view(parsed),
                failure_view(bound),
            ),
            final(self)@ == if outcome is Ok {
                Some(bind@)
            } else {
                old(self)@
            },
    {
        self.may_start()?;
        if let Err(cause) = parsed {
            return Err(invalid_bind(&cause));
        }
        if let Err(cause) = bound {
            return Err(bind_failure(&bind, &cause));
        }
        self.bind = Some(bind);
        Ok(())
    }

    /// The server is to stop; says whether one ran.
    pub fn stop(&mut self) -> (ran: bool)
        ensures
            final(self)@ is None,
            ran == (old(self)@ is Some),
    {
        let ran = self.bind.is_some();
        self.bind = None;
        ran
    }
}

/// What the user is told of an address that a server cannot listen at.
pub fn invalid_bind(cause: &str) -> (message: String)
    ensures
        message@ == "invalid bind address: "@ + cause@,
{
    concat("invalid bind address: ", cause)
}

/// What the user is told of a server that could not be started.
pub fn bind_failure(bind: &str, cause: &str) -> (message: String)
    ensures
        message@ == "failed to bind "@ + bind@ + ": "@ + cause@,
{
    let mut message = concat("failed to bind ", bind);
    message.append(": ");
    message.append(cause);
    message
}

/// A remote port: the server's address, and the port's name.
#[derive(Debug)]
struct RemotePort {
    url: String,
    port: String,
}

/// The remote port that the shell is connected to, if it is connected.
#[derive(Debug)]
pub struct RemoteLink {
    remote: Option<RemotePort>,
}

/// A remote port, as texts.
pub ghost struct RemotePortView {
    pub url: Seq<char>,
    pub port: Seq<char>,
}

impl View for RemoteLink {
    type V = Option<RemotePortView>;

    closed spec fn view(&self) -> Option<RemotePortView> {
        match self.remote {
            Some(remote) => Some(RemotePortView { url: remote.url@, port: remote.port@ }),
            None => None,
        }
    }
}

/// Why a remote port cannot be connected to, if it cannot: one is connected, or its server cannot
/// be reached, in this order.
pub open spec fn connection_failure(
    connected: Option<RemotePortView>,
    url: Seq<char>,
    call_failure: Option<Seq<char>>,
) -> Option<Seq<char>> {
    if connected is Some {
        Some("remote client is already connected"@)
    } else {
        match call_failure {
            Some(cause) => Some("failed to connect to "@ + url + ": "@ + cause),
            None => None,
        }
    }
}

impl RemoteLink {
    /// The shell is not connected.
    pub fn new() -> (link: Self)
        ensures
            link@ is None,
    {
        RemoteLink { remote: None }
    }

    /// Whether the shell may connect: only to one port at a time.
    pub fn may_connect(&self) -> (verdict: Result<(), String>)
        ensures
            verdict is Ok <==> self@ is None,
            verdict matches Err(message) ==> message@ == "remote client is already connected"@,
    {
        if self.remote.is_some() {
            Err("remote client is already connected".to_owned())
        } else {
            Ok(())
        }
    }

    /// Whether the shell may send to the remote port: only if it is connected.
    pub fn may_send(&self) -> (verdict: Result<(), String>)
        ensures
            verdict is Ok <==> self@ is Some,
            verdict matches Err(message) ==> message@ == "remote client is not connected"@,
    {
        if self.remote.is_some() {
            Ok(())
        } else {
            Err("remote client is not connected".to_owned())
        }
    }

    /// Connects to a remote port: `reached` is what came of calling its server. A port that is
    /// connected already is told of before a server that cannot be reached; nothing changes then.
    pub fn connect(&mut self, url: String, port: String, reached: Result<(), String>) -> (outcome:
        Result<(), String>)
        ensures
            failure_view(outcome) == connection_failure(old(self)@, url@, failure_view(reached)),
            final(self)@ == if outcome is Ok {
                Some(RemotePortView { url: url@, port: port@ })
            } else {
                old(self)@
            },
    {
        self.may_connect()?;
        if let Err(cause) = reached {
            return Err(connect_failure(&url, &cause));
        }
        self.remote = Some(RemotePort { url, port });
        Ok(())
    }

    /// The shell is to disconnect; says whether it was connected.
    pub fn disconnect(&mut self) -> (was_connected: bool)
        ensures
            final(self)@ is None,
            was_connected == (old(self)@ is Some),
    {
        let was_connected = self.remote.is_some();
        self.remote = None;
        was_connected
    }
}

/// What the user is told of a server that could not be reached.
pub fn connect_failure(url: &str, cause: &str) -> (message: String)
    ensures
        message@ == "failed to connect to "@ + url@ + ": "@ + cause@,
{
    let mut message = concat("failed to connect to ", url);
    message.append(": ");
    message.append(cause);
    message
}

/// What the shell runs, as the window shows it.
#[derive(Debug)]
pub struct RuntimeStatus {
    pub local_server: Option<String>,
    pub remote_client: Option<String>,
}

/// What the shell runs: where its server listens, and which remote port it is connected to.
pub fn runtime_status(server: &LocalServer, link: &RemoteLink) -> (status: RuntimeStatus)
    ensures
        text_view(status.local_server) == server@,
        text_view(status.remote_client) == match link@ {
            Some(remote) => Some(remote.url + " -> "@ + remote.port),
            None => None,
        },
{
    let local_server = match &server.bind {
        Some(bind) => Some(bind.clone()),
        None => None,
    };
    let remote_client = match &link.remote {
        Some(remote) => {
            let mut text = concat(&remote.url, " -> ");
            text.append(&remote.port);
            Some(text)
        },
        None => None,
    };
    RuntimeStatus { local_server, remote_client }
}

/// What the window is told.
#[derive(Debug)]
pub enum DesktopEvent {
    Status { message: String },
    SerialData { text: String, hex: String },
    Error { message: String },
}

/// A [`DesktopEvent`] with its texts as sequences of characters.
pub ghost enum DesktopEventView {
    Status { message: Seq<char> },
    SerialData { text: Seq<char>, hex: Seq<char> },
    Error { message: Seq<char> },
}

impl View for DesktopEvent {
    type V = DesktopEventView;

    open spec fn view(&self) -> DesktopEventView {
        match self {
            DesktopEvent::Status { message } => DesktopEventView::Status { message: message@ },
            DesktopEvent::SerialData { text, hex } => DesktopEventView::SerialData {
                text: text@,
                hex: hex@,
            },
            DesktopEvent::Error { message } => DesktopEventView::Error { message: message@ },
        }
    }
}

/// An event, if there is one, as a value of the model.
pub open spec fn event_view(event: Option<DesktopEvent>) -> Option<DesktopEventView> {
    match event {
        Some(event) => Some(event@),
        None => None,
    }
}

/// A variant with one field, written out.
pub open spec fn variant_text(variant: Seq<char>, field: Seq<char>, value: Seq<char>) -> Seq<char> {
    variant + " { "@ + field + ": "@ + value + " }"@
}

/// The text that a status holds, if it holds one.
pub open spec fn status_detail(status: StatusView) -> Option<Seq<char>> {
    match status {
        StatusView::Connected { client_id } => Some(client_id),
        StatusView::Disconnected { client_id } => Some(client_id),
        StatusView::SerialOpened { port } => Some(port),
        StatusView::SerialClosed { port } => Some(port),
        StatusView::WriterClaimed { client_id } => Some(client_id),
        StatusView::WriterReleased => None,
        StatusView::ReadOnly { owner } => owner,
        StatusView::Error { message } => Some(message),
    }
}

/// A status written out with the names of its variant and its field, around the text that it holds
/// in quotes.
pub open spec fn status_around(status: StatusView, quoted: Seq<char>) -> Seq<char> {
    match status {
        StatusView::Connected { .. } => variant_text("Connected"@, "client_id"@, quoted),
        StatusView::Disconnected { .. } => variant_text("Disconnected"@, "client_id"@, quoted),
        StatusView::SerialOpened { .. } => variant_text("SerialOpened"@, "port"@, quoted),
        StatusView::SerialClosed { .. } => variant_text("SerialClosed"@, "port"@, quoted),
        StatusView::WriterClaimed { .. } => variant_text("WriterClaimed"@, "client_id"@, quoted),
        StatusView::WriterReleased => "WriterReleased"@,
        StatusView::ReadOnly { owner } => variant_text(
            "ReadOnly"@,
            "owner"@,
            match owner {
                Some(_) => "Some("@ + quoted + ")"@,
                None => "None"@,
            },
        ),
        StatusView::Error { .. } => variant_text("Error"@, "message"@, quoted),
    }
}

/// A status written out with the names of its variant and its field.
pub open spec fn status_text(status: StatusView) -> Seq<char> {
    match status_detail(status) {
        Some(detail) => status_around(status, quoted_text(detail)),
        None => status_around(status, seq![]),
    }
}

/// A variant with one field, written out.
fn write_variant(variant: &str, field: &str, value: &str) -> (text: String)
    ensures
        text@ == variant_text(variant@, field@, value@),
{
    let mut text = concat(variant, " { ");
    text.append(field);
    text.append(": ");
    text.append(value);
    text.append(" }");
    text
}

/// The text that a status holds, if it holds one.
fn detail(status: &Status) -> (detail: Option<&str>)
    ensures
        detail is Some <==> status_detail(status@) is Some,
        detail matches Some(text) ==> status_detail(status@) == Some(text@),
{
    match status {
        Status::Connected { client_id } => Some(client_id),
        Status::Disconnected { client_id } => Some(client_id),
        Status::SerialOpened { port } => Some(port),
        Status::SerialClosed { port } => Some(port),
        Status::WriterClaimed { client_id } => Some(client_id),
        Status::WriterReleased => None,
        Status::ReadOnly { owner } => match owner {
            Some(owner) => Some(owner),
            None => None,
        },
        Status::Error { message } => Some(message),
    }
}

/// A status written out with the names of its variant and its field, around the text that it holds
/// in quotes. A status that holds no text does not look at `quoted`.
pub fn write_status(status: &Status, quoted: &str) -> (text: String)
    ensures
        text@ == status_around(status@, quoted@),
{
    match status {
        Status::Connected { .. } => write_variant("Connected", "client_id", quoted),
        Status::Disconnected { .. } => write_variant("Disconnected", "client_id", quoted),
        Status::SerialOpened { .. } => write_variant("SerialOpened", "port", quoted),
        Status::SerialClosed { .. } => write_variant("SerialClosed", "port", quoted),
        Status::WriterClaimed { .. } => write_variant("WriterClaimed", "client_id", quoted),
        Status::WriterReleased => "WriterReleased".to_owned(),
        Status::ReadOnly { owner } => match owner {
            Some(_) => {
                let mut value = concat("Some(", quoted);
                value.append(")");
                write_variant("ReadOnly", "owner", &value)
            },
            None => write_variant("ReadOnly", "owner", "None"),
        },
        Status::Error { .. } => write_variant("Error", "message", quoted),
    }
}

/// A status written out with the names of its variant and its field.
pub fn describe_status(status: &Status) -> (text: String)
    ensures
        text@ == status_text(status@),
{
    match detail(status) {
        Some(text) => write_status(status, &quote(text)),
        None => write_status(status, ""),
    }
}

/// What the window is told of some bytes and of what they are as text.
pub open spec fn bytes_event(bytes: Seq<u8>, text: Seq<char>) -> DesktopEventView {
    DesktopEventView::SerialData { text, hex: hex_bytes(bytes) }
}

/// What the window is told of a payload from the server, once it is decoded.
pub open spec fn payload_event(decoded: Result<Seq<u8>, Seq<char>>) -> DesktopEventView {
    match decoded {
        Ok(bytes) => bytes_event(bytes, lossy_text(bytes)),
        Err(cause) => DesktopEventView::Error { message: "invalid serial data: "@ + cause },
    }
}

/// What the window is told of a frame of the server.
pub open spec fn frame_event(frame: ServerFrameView) -> Option<DesktopEventView> {
    match frame {
        ServerFrameView::AuthOk => Some(DesktopEventView::Status { message: "authenticated"@ }),
        ServerFrameView::AuthFailed { reason } => Some(
            DesktopEventView::Error { message: "authentication failed: "@ + reason },
        ),
        ServerFrameView::Ports { ports } => Some(
            DesktopEventView::Status { message: "server ports: "@ + decimal(ports.len()) },
        ),
        ServerFrameView::Opened { config } => Some(
            DesktopEventView::Status {
                message: "opened "@ + config.port + " at "@ + decimal(config.baud_rate as nat)
                    + " baud"@,
            },
        ),
        ServerFrameView::SerialData { data, .. } => Some(payload_event(base64_bytes(data))),
        ServerFrameView::Status { status } => Some(
            DesktopEventView::Status { message: status_text(status) },
        ),
        ServerFrameView::Pong => None,
        ServerFrameView::Error { message } => Some(DesktopEventView::Error { message }),
    }
}

/// What can happen to the connection to a remote port.
#[derive(Debug)]
pub enum RemoteEvent {
    /// There is nothing more to send.
    OutgoingClosed,
    /// A frame could not be written out.
    EncodeFailed(String),
    /// A frame could not be sent.
    SendFailed(String),
    /// The server has ended the connection.
    Disconnected,
    /// The connection has failed.
    ReceiveFailed(String),
    /// A message of the server.
    Received(Message<ServerFrame>),
}

/// What the shell does about it: tells the window, and goes on or not.
#[derive(Debug)]
pub struct RemoteStep {
    pub event: Option<DesktopEvent>,
    pub stop: bool,
}

/// What the window is told of what happens to the connection.
pub open spec fn remote_event(event: RemoteEvent) -> Option<DesktopEventView> {
    match event {
        RemoteEvent::OutgoingClosed => None,
        RemoteEvent::EncodeFailed(cause) => Some(
            DesktopEventView::Error { message: "encode frame failed: "@ + cause@ },
        ),
        RemoteEvent::SendFailed(cause) => Some(
            DesktopEventView::Error { message: "remote send failed: "@ + cause@ },
        ),
        RemoteEvent::Disconnected => Some(
            DesktopEventView::Status { message: "remote disconnected"@ },
        ),
        RemoteEvent::ReceiveFailed(cause) => Some(
            DesktopEventView::Error { message: "remote receive failed: "@ + cause@ },
        ),
        RemoteEvent::Received(message) => match server_frame_in(message) {
            Ok(frame) => frame_event(frame),
            Err(error) => Some(DesktopEventView::Error { message: error.brief() }),
        },
    }
}

/// Whether the connection ends. A message that holds no frame, or a frame that cannot be written
/// out, does not end it.
pub open spec fn ends_connection(event: RemoteEvent) -> bool {
    match event {
        RemoteEvent::OutgoingClosed => true,
        RemoteEvent::EncodeFailed(_) => false,
        RemoteEvent::SendFailed(_) => true,
        RemoteEvent::Disconnected => true,
        RemoteEvent::ReceiveFailed(_) => true,
        RemoteEvent::Received(_) => false,
    }
}

/// The name that the shell has after what happened to the connection.
pub open spec fn name_after(client_id: Option<Seq<char>>, event: RemoteEvent) -> Option<Seq<char>> {
    match event {
        RemoteEvent::Received(message) => match server_frame_in(message) {
            Ok(frame) => client_id_after(client_id, frame),
            Err(_) => client_id,
        },
        _ => client_id,
    }
}

/// The shell's side of a connection: the name that the server has given it.
#[derive(Debug)]
pub struct RemoteClient {
    client_id: Option<String>,
}

impl View for RemoteClient {
    type V = Option<Seq<char>>;

    closed spec fn view(&self) -> Option<Seq<char>> {
        text_view(self.client_id)
    }
}

impl RemoteClient {
    /// A client that the server has not named yet.
    pub fn new() -> (client: Self)
        ensures
            client@ is None,
    {
        RemoteClient { client_id: None }
    }

    /// Handles what happens to the connection.
    pub fn handle_event(&mut self, event: RemoteEvent) -> (step: RemoteStep)
        ensures
            event_view(step.event) == remote_event(event),
            step.stop == ends_connection(event),
            final(self)@ == name_after(old(self)@, event),
    {
        match event {
            RemoteEvent::OutgoingClosed => RemoteStep { event: None, stop: true },
            RemoteEvent::EncodeFailed(cause) => RemoteStep {
                event: Some(
                    DesktopEvent::Error { message: concat("encode frame failed: ", &cause) },
                ),
                stop: false,
            },
            RemoteEvent::SendFailed(cause) => RemoteStep {
                event: Some(DesktopEvent::Error { message: concat("remote send failed: ", &cause) }),
                stop: true,
            },
            RemoteEvent::Disconnected => RemoteStep {
                event: Some(DesktopEvent::Status { message: "remote disconnected".to_owned() }),
                stop: true,
            },
            RemoteEvent::ReceiveFailed(cause) => RemoteStep {
                event: Some(
                    DesktopEvent::Error { message: concat("remote receive failed: ", &cause) },
                ),
                stop: true,
            },
            RemoteEvent::Received(message) => match parse_server_frame(message) {
                Ok(frame) => RemoteStep { event: self.handle_remote_frame(frame), stop: false },
                Err(error) => RemoteStep {
                    event: Some(DesktopEvent::Error { message: error.brief() }),
                    stop: false,
                },
            },
        }
    }

    /// Handles a frame of the server.
    pub fn handle_remote_frame(&mut self, frame: ServerFrame) -> (event: Option<DesktopEvent>)
        ensures
            event_view(event) == frame_event(frame@),
            frame@.serial_bytes() matches Some(bytes) ==> valid_utf8(bytes) ==> event_view(event)
                == Some(bytes_event(bytes, decode_utf8(bytes))),
            final(self)@ == client_id_after(old(self)@, frame@),
    {
        match frame {
            ServerFrame::AuthOk => Some(
                DesktopEvent::Status { message: "authenticated".to_owned() },
            ),
            ServerFrame::AuthFailed { reason } => Some(
                DesktopEvent::Error { message: concat("authentication failed: ", &reason) },
            ),
            ServerFrame::Ports { ports } => Some(
                DesktopEvent::Status {
                    message: concat("server ports: ", &decimal_text(ports.len() as u64)),
                },
            ),
            ServerFrame::Opened { config } => {
                let mut message = concat("opened ", &config.port);
                message.append(" at ");
                message.append(&decimal_text(config.baud_rate as u64));
                message.append(" baud");
                Some(DesktopEvent::Status { message })
            },
            ServerFrame::SerialData { data, .. } => Some(handle_payload(decode_payload(&data))),
            ServerFrame::Status { status } => {
                let message = describe_status(&status);
                if let Status::Connected { client_id } = status {
                    self.client_id = Some(client_id);
                }
                Some(DesktopEvent::Status { message })
            },
            ServerFrame::Pong => None,
            ServerFrame::Error { message } => Some(DesktopEvent::Error { message }),
        }
    }
}

/// What the window is told of some bytes and of what they are as text.
pub fn show_bytes(bytes: &[u8], text: String) -> (event: DesktopEvent)
    ensures
        event@ == bytes_event(bytes@, text@),
{
    DesktopEvent::SerialData { text, hex: hex_text(bytes) }
}

/// Handles a payload from the server, once it is decoded. Bytes that are UTF-8 are shown as the
/// text that they encode.
pub fn handle_payload(decoded: Result<Vec<u8>, String>) -> (event: DesktopEvent)
    ensures
        event@ == payload_event(decoded_view(decoded)),
        decoded matches Ok(bytes) ==> valid_utf8(bytes@) ==> event@ == bytes_event(
            bytes@,
            decode_utf8(bytes@),
        ),
{
    match decoded {
        Ok(bytes) => {
            let text = from_utf8_lossy(&bytes);
            show_bytes(&bytes, text)
        },
        Err(cause) => DesktopEvent::Error { message: concat("invalid serial data: ", &cause) },
    }
}

/// The frame that carries a text to the remote port, as UTF-8.
pub fn serial_text_frame(text: &str) -> (frame: ClientFrame)
    requires
        encodable(encode_utf8(text@).len()),
    ensures
        frame@ == (ClientFrameView::SerialData { data: base64_text(encode_utf8(text@)) }),
        frame@.serial_bytes() == Some(encode_utf8(text@)),
{
    ClientFrame::serial_data(text.as_bytes())
}

/// The bytes that a server's frame carries are what the window is told.
pub proof fn carried_bytes_reach_the_window(frame: ServerFrameView, bytes: Seq<u8>)
    requires
        frame.serial_bytes() == Some(bytes),
    ensures
        frame_event(frame) == Some(bytes_event(bytes, lossy_text(bytes))),
{
}

/// Two payloads that look the same in hexadecimal are the same bytes.
pub proof fn shown_bytes_can_be_told_apart(left: Seq<u8>, right: Seq<u8>)
    requires
        payload_event(Ok(left)) == payload_event(Ok(right)),
    ensures
        left == right,
{
    hex_is_injective(left, right);
}

/// A text that the remote port sends back just as it got it is shown as the text that it was.
pub proof fn an_echoed_text_is_shown(text: Seq<char>)
    ensures
        valid_utf8(encode_utf8(text)),
        bytes_event(encode_utf8(text), decode_utf8(encode_utf8(text))) == bytes_event(
            encode_utf8(text),
            text,
        ),
{
    encode_utf8_valid_utf8(text);
    encode_utf8_decode_utf8(text);
}

/// Whatever the server sends, the connection goes on: only the end of the connection, or of what
/// there is to send, ends it.
pub proof fn no_message_ends_the_connection(message: Message<ServerFrame>)
    ensures
        !ends_connection(RemoteEvent::Received(message)),
{
}

/// An event for the window is seen with everything that it holds.
pub proof fn an_event_is_seen_whole(text: String, hex: String, event: DesktopEvent)
    ensures
        (DesktopEvent::Status { message: text })@ == (DesktopEventView::Status { message: text@ }),
        (DesktopEvent::SerialData { text, hex })@ == (DesktopEventView::SerialData {
            text: text@,
            hex: hex@,
        }),
        (DesktopEvent::Error { message: text })@ == (DesktopEventView::Error { message: text@ }),
        event_view(Some(event)) == Some(event@),
        event_view(None) == None::<DesktopEventView>,
{
}

/// What the window is told of some bytes reads back as the bytes, and holds the text as it is.
pub proof fn shown_bytes_read_back(bytes: Seq<u8>, text: Seq<char>, i: int)
    requires
        0 <= i < bytes.len(),
    ensures
        bytes_event(bytes, text) matches DesktopEventView::SerialData { text: shown, hex } && {
            &&& shown == text
            &&& hex.len() == 3 * bytes.len() - 1
            &&& 0 <= digit_value(hex[3 * i]) < 16
            &&& 0 <= digit_value(hex[3 * i + 1]) < 16
            &&& digit_value(hex[3 * i]) * 16 + digit_value(hex[3 * i + 1]) == bytes[i]
            &&& i + 1 < bytes.len() ==> hex[3 * i + 2] == ' '
        },
{
    bytes_read_back(bytes, i);
}

/// A payload is shown as its bytes, and one that is not base64 is told of with the decoder's error.
pub proof fn a_payload_is_shown_or_told_of(bytes: Seq<u8>, shown: Seq<char>, cause: Seq<char>)
    ensures
        bytes_event(bytes, shown) == (DesktopEventView::SerialData {
            text: shown,
            hex: hex_bytes(bytes),
        }),
        payload_event(Ok(bytes)) matches DesktopEventView::SerialData { text, hex } && text
            == lossy_text(bytes) && hex == hex_bytes(bytes),
        payload_event(Err(cause)) == (DesktopEventView::Error {
            message: "invalid serial data: "@ + cause,
        }),
{
}

/// A status is told of with the names of its variant and its field around the text that it holds,
/// in quotes.
pub proof fn a_status_is_written_out(text: Seq<char>)
    ensures
        status_text(StatusView::Connected { client_id: text }) == "Connected"@ + " { "@
            + "client_id"@ + ": "@ + quoted_text(text) + " }"@,
        status_text(StatusView::Disconnected { client_id: text }) == "Disconnected"@ + " { "@
            + "client_id"@ + ": "@ + quoted_text(text) + " }"@,
        status_text(StatusView::SerialOpened { port: text }) == "SerialOpened"@ + " { "@ + "port"@
            + ": "@ + quoted_text(text) + " }"@,
        status_text(StatusView::SerialClosed { port: text }) == "SerialClosed"@ + " { "@ + "port"@
            + ": "@ + quoted_text(text) + " }"@,
        status_text(StatusView::WriterClaimed { client_id: text }) == "WriterClaimed"@ + " { "@
            + "client_id"@ + ": "@ + quoted_text(text) + " }"@,
        status_text(StatusView::WriterReleased) == "WriterReleased"@,
        status_text(StatusView::ReadOnly { owner: Some(text) }) == "ReadOnly"@ + " { "@ + "owner"@
            + ": "@ + ("Some("@ + quoted_text(text) + ")"@) + " }"@,
        status_text(StatusView::ReadOnly { owner: None }) == "ReadOnly"@ + " { "@ + "owner"@ + ": "@
            + "None"@ + " }"@,
        status_text(StatusView::Error { message: text }) == "Error"@ + " { "@ + "message"@ + ": "@
            + quoted_text(text) + " }"@,
{
}

/// A status is written around whatever stands for the text that it holds, in one place and whole.
pub proof fn a_status_is_written_around_its_text(text: Seq<char>, quoted: Seq<char>)
    ensures
        status_around(StatusView::Connected { client_id: text }, quoted) == "Connected"@ + " { "@
            + "client_id"@ + ": "@ + quoted + " }"@,
        status_around(StatusView::Disconnected { client_id: text }, quoted) == "Disconnected"@
            + " { "@ + "client_id"@ + ": "@ + quoted + " }"@,
        status_around(StatusView::SerialOpened { port: text }, quoted) == "SerialOpened"@ + " { "@
            + "port"@ + ": "@ + quoted + " }"@,
        status_around(StatusView::SerialClosed { port: text }, quoted) == "SerialClosed"@ + " { "@
            + "port"@ + ": "@ + quoted + " }"@,
        status_around(StatusView::WriterClaimed { client_id: text }, quoted) == "WriterClaimed"@
            + " { "@ + "client_id"@ + ": "@ + quoted + " }"@,
        status_around(StatusView::WriterReleased, quoted) == "WriterReleased"@,
        status_around(StatusView::ReadOnly { owner: Some(text) }, quoted) == "ReadOnly"@ + " { "@
            + "owner"@ + ": "@ + ("Some("@ + quoted + ")"@) + " }"@,
        status_around(StatusView::ReadOnly { owner: None }, quoted) == "ReadOnly"@ + " { "@
            + "owner"@ + ": "@ + "None"@ + " }"@,
        status_around(StatusView::Error { message: text }, quoted) == "Error"@ + " { "@
            + "message"@ + ": "@ + quoted + " }"@,
{
}

/// The window is told of every frame but a heartbeat's answer: of a refusal, an error or a payload
/// that is not base64 as an error, of bytes as bytes, and of everything else as a status.
pub proof fn every_frame_reaches_the_window(frame: ServerFrameView)
    ensures
        frame_event(frame) is None <==> frame is Pong,
        frame_event(frame) matches Some(event) ==> match frame {
            ServerFrameView::AuthOk => event == (DesktopEventView::Status {
                message: "authenticated"@,
            }),
            ServerFrameView::AuthFailed { reason } => event == (DesktopEventView::Error {
                message: "authentication failed: "@ + reason,
            }),
            ServerFrameView::Ports { ports } => event == (DesktopEventView::Status {
                message: "server ports: "@ + decimal(ports.len()),
            }),
            ServerFrameView::Opened { config } => event == (DesktopEventView::Status {
                message: "opened "@ + config.port + " at "@ + decimal(config.baud_rate as nat)
                    + " baud"@,
            }),
            ServerFrameView::SerialData { data, .. } => event == payload_event(base64_bytes(data)),
            ServerFrameView::Status { status } => event == (DesktopEventView::Status {
                message: status_text(status),
            }),
            ServerFrameView::Error { message } => event == (DesktopEventView::Error { message }),
            ServerFrameView::Pong => false,
        },
{
}

/// The window is told of a message as of the frame in it, of a message without one as of its error,
/// and of whatever else befalls the connection, but for the end of what there is to send.
pub proof fn the_window_hears_of_the_connection(event: RemoteEvent)
    ensures
        match event {
            RemoteEvent::OutgoingClosed => remote_event(event) is None,
            RemoteEvent::EncodeFailed(cause) => remote_event(event) == Some(
                DesktopEventView::Error { message: "encode frame failed: "@ + cause@ },
            ),
            RemoteEvent::SendFailed(cause) => remote_event(event) == Some(
                DesktopEventView::Error { message: "remote send failed: "@ + cause@ },
            ),
            RemoteEvent::ReceiveFailed(cause) => remote_event(event) == Some(
                DesktopEventView::Error { message: "remote receive failed: "@ + cause@ },
            ),
            RemoteEvent::Disconnected => remote_event(event) == Some(
                DesktopEventView::Status { message: "remote disconnected"@ },
            ),
            RemoteEvent::Received(message) => match server_frame_in(message) {
                Ok(frame) => remote_event(event) == frame_event(frame),
                Err(error) => remote_event(event) == Some(
                    DesktopEventView::Error { message: error.brief() },
                ),
            },
        },
{
}

/// The connection ends exactly when the server has gone, when sending or receiving fails, or when
/// there is nothing more to send.
pub proof fn only_the_end_ends_the_connection(event: RemoteEvent)
    ensures
        !ends_connection(event) <==> event is Received || event is EncodeFailed,
{
}

/// The shell gets its name from the message that tells it, and keeps it whatever else happens.
pub proof fn the_shell_keeps_its_name(
    client_id: Option<Seq<char>>,
    event: RemoteEvent,
    name: Seq<char>,
)
    ensures
        ({
            let named = event matches RemoteEvent::Received(message) && server_frame_in(message)
                == Ok::<ServerFrameView, FrameErrorView>(
                ServerFrameView::Status { status: StatusView::Connected { client_id: name } },
            );
            &&& named ==> name_after(client_id, event) == Some(name)
            &&& name_after(client_id, event) != client_id ==> {
                &&& event matches RemoteEvent::Received(message)
                &&& server_frame_in(message) matches Ok(frame)
                &&& names_the_client(frame)
            }
        }),
{
}

/// A server is started exactly if none runs, its address can be read and it can listen there. What
/// is told otherwise is the first of these that failed.
pub proof fn a_start_fails_for_the_first_reason(
    running: Option<Seq<char>>,
    bind: Seq<char>,
    parse_failure: Option<Seq<char>>,
    bind_failure: Option<Seq<char>>,
    cause: Seq<char>,
)
    ensures
        start_failure(running, bind, parse_failure, bind_failure) is None <==> running is None
            && parse_failure is None && bind_failure is None,
        running is Some ==> start_failure(running, bind, parse_failure, bind_failure) == Some(
            "local server is already running"@,
        ),
        start_failure(None, bind, Some(cause), bind_failure) == Some(
            "invalid bind address: "@ + cause,
        ),
        start_failure(None, bind, None, Some(cause)) == Some(
            "failed to bind "@ + bind + ": "@ + cause,
        ),
{
}

/// A remote port is connected to exactly if none is connected and its server can be reached. What
/// is told otherwise is the first of these that failed.
pub proof fn a_connection_fails_for_the_first_reason(
    connected: Option<RemotePortView>,
    url: Seq<char>,
    call_failure: Option<Seq<char>>,
    cause: Seq<char>,
)
    ensures
        connection_failure(connected, url, call_failure) is None <==> connected is None
            && call_failure is None,
        connected is Some ==> connection_failure(connected, url, call_failure) == Some(
            "remote client is already connected"@,
        ),
        connection_failure(None, url, Some(cause)) == Some(
            "failed to connect to "@ + url + ": "@ + cause,
        ),
{
}

} // verus!

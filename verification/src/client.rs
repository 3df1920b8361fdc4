//! The terminal client: what it asks of a server, and what it makes of the answers.
use crate::payload::decode_payload;
#[allow(unused_imports)]
use crate::payload::{base64_bytes, base64_text, decoded_view, encodable};
use crate::protocol::{
    ClientFrame, DataBits, Parity, SerialConfig, SerialPortInfo, ServerFrame, Status, StopBits,
};
#[allow(unused_imports)]
use crate::hub::{SerialHubView, claim_reply, release_reply, status_frame, write_reply};
#[allow(unused_imports)]
use crate::hubs::{after_disconnect, disconnect_broadcasts, lemma_disconnect_broadcasts};
#[allow(unused_imports)]
use crate::protocol::{
    ClientFrameView, SerialConfigView, SerialPortInfoView, ServerFrameView, StatusView, bytes_view,
    ports_view,
};
#[allow(unused_imports)]
use crate::session::{
    ActionView, AdmissionView, SessionEvent, SessionView, event_action, frame_admission, greeting,
};
use crate::text::{concat, decimal_text, same_text};
#[allow(unused_imports)]
use crate::text::{decimal, joined, lemma_joined_push, text_view};
#[allow(unused_imports)]
use crate::writer::{after_claim, after_release};
use vstd::prelude::*;

verus! {

/// The data bits that can be asked for on the command line.
#[derive(Debug, Clone, Copy, PartialEq, Eq, Structural)]
pub enum CliDataBits {
    Five,
    Six,
    Seven,
    Eight,
}

/// The stop bits that can be asked for on the command line.
#[derive(Debug, Clone, Copy, PartialEq, Eq, Structural)]
pub enum CliStopBits {
    One,
    Two,
}

/// The parity that can be asked for on the command line.
#[derive(Debug, Clone, Copy, PartialEq, Eq, Structural)]
pub enum CliParity {
    NoParity,
    Odd,
    Even,
}

impl From<CliDataBits> for DataBits {
    fn from(value: CliDataBits) -> (data_bits: Self) {
        match value {
            CliDataBits::Five => DataBits::Five,
            CliDataBits::Six => DataBits::Six,
            CliDataBits::Seven => DataBits::Seven,
            CliDataBits::Eight => DataBits::Eight,
        }
    }
}

impl vstd::std_specs::convert::FromSpecImpl<CliDataBits> for DataBits {
    open spec fn obeys_from_spec() -> bool {
        true
    }

    open spec fn from_spec(value: CliDataBits) -> Self {
        match value {
            CliDataBits::Five => DataBits::Five,
            CliDataBits::Six => DataBits::Six,
            CliDataBits::Seven => DataBits::Seven,
            CliDataBits::Eight => DataBits::Eight,
        }
    }
}

impl From<CliStopBits> for StopBits {
    fn from(value: CliStopBits) -> (stop_bits: Self) {
        match value {
            CliStopBits::One => StopBits::One,
            CliStopBits::Two => StopBits::Two,
        }
    }
}

impl vstd::std_specs::convert::FromSpecImpl<CliStopBits> for StopBits {
    open spec fn obeys_from_spec() -> bool {
        true
    }

    open spec fn from_spec(value: CliStopBits) -> Self {
        match value {
            CliStopBits::One => StopBits::One,
            CliStopBits::Two => StopBits::Two,
        }
    }
}

impl From<CliParity> for Parity {
    fn from(value: CliParity) -> (parity: Self) {
        match value {
            CliParity::NoParity => Parity::NoParity,
            CliParity::Odd => Parity::Odd,
            CliParity::Even => Parity::Even,
        }
    }
}

impl vstd::std_specs::convert::FromSpecImpl<CliParity> for Parity {
    open spec fn obeys_from_spec() -> bool {
        true
    }

    open spec fn from_spec(value: CliParity) -> Self {
        match value {
            CliParity::NoParity => Parity::NoParity,
            CliParity::Odd => Parity::Odd,
            CliParity::Even => Parity::Even,
        }
    }
}

/// The configuration that the command line asks for.
pub fn requested_config(
    port: String,
    baud_rate: u32,
    data_bits: CliDataBits,
    stop_bits: CliStopBits,
    parity: CliParity,
) -> (config: SerialConfig)
    ensures
        config@ == (SerialConfigView {
            port: port@,
            baud_rate,
            data_bits: <DataBits as vstd::std_specs::convert::FromSpec<CliDataBits>>::from_spec(
                data_bits,
            ),
            stop_bits: <StopBits as vstd::std_specs::convert::FromSpec<CliStopBits>>::from_spec(
                stop_bits,
            ),
            parity: <Parity as vstd::std_specs::convert::FromSpec<CliParity>>::from_spec(parity),
        }),
{
    SerialConfig {
        port,
        baud_rate,
        data_bits: DataBits::from(data_bits),
        stop_bits: StopBits::from(stop_bits),
        parity: Parity::from(parity),
    }
}

/// The frames with which a client begins: its token, the port, and a claim unless it only reads.
pub open spec fn opening(token: Seq<char>, config: SerialConfigView, claim_writer: bool) -> Seq<
    ClientFrameView,
> {
    let asked = seq![ClientFrameView::Auth { token }, ClientFrameView::Open { config }];
    if claim_writer {
        asked.push(ClientFrameView::ClaimWriter)
    } else {
        asked
    }
}

/// Frames as values of the model.
pub open spec fn client_frames_view(frames: Seq<ClientFrame>) -> Seq<ClientFrameView> {
    frames.map_values(|frame: ClientFrame| frame@)
}

/// The frames with which a client begins.
pub fn opening_frames(token: String, config: SerialConfig, claim_writer: bool) -> (frames: Vec<
    ClientFrame,
>)
    ensures
        client_frames_view(frames@) == opening(token@, config@, claim_writer),
{
    let mut frames: Vec<ClientFrame> = Vec::new();
    frames.push(ClientFrame::Auth { token });
    frames.push(ClientFrame::Open { config });
    if claim_writer {
        frames.push(ClientFrame::ClaimWriter);
    }
    assert(client_frames_view(frames@) =~= opening(token@, config@, claim_writer));
    frames
}

/// Why the client gives up.
#[derive(Debug)]
pub enum ClientError {
    /// The server has refused the client, for the reason given.
    AuthFailed(String),
    /// Bytes from the server could not be decoded.
    InvalidSerialData(String),
}

/// A [`ClientError`] with its text as a sequence of characters.
pub ghost enum ClientErrorView {
    AuthFailed(Seq<char>),
    InvalidSerialData(Seq<char>),
}

impl View for ClientError {
    type V = ClientErrorView;

    open spec fn view(&self) -> ClientErrorView {
        match self {
            ClientError::AuthFailed(reason) => ClientErrorView::AuthFailed(reason@),
            ClientError::InvalidSerialData(cause) => ClientErrorView::InvalidSerialData(cause@),
        }
    }
}

impl ClientErrorView {
    /// The error as a user reads it.
    pub open spec fn message(self) -> Seq<char> {
        match self {
            ClientErrorView::AuthFailed(reason) => "authentication failed: "@ + reason,
            ClientErrorView::InvalidSerialData(cause) => "invalid serial data from server: "@
                + cause,
        }
    }
}

impl ClientError {
    /// The error as a user reads it.
    pub fn message(&self) -> (text: String)
        ensures
            text@ == self@.message(),
    {
        match self {
            ClientError::AuthFailed(reason) => concat("authentication failed: ", reason),
            ClientError::InvalidSerialData(cause) => {
                concat("invalid serial data from server: ", cause)
            },
        }
    }
}

/// What the client does about a frame: a line for the user, bytes for the terminal, and whether it
/// may write from now on, as far as the frame tells.
#[derive(Debug)]
pub struct Effect {
    pub line: Option<String>,
    pub output: Option<Vec<u8>>,
    pub writer: Option<bool>,
}

/// An [`Effect`] with its line and its bytes as sequences.
pub ghost struct EffectView {
    pub line: Option<Seq<char>>,
    pub output: Option<Seq<u8>>,
    pub writer: Option<bool>,
}

impl View for Effect {
    type V = EffectView;

    open spec fn view(&self) -> EffectView {
        EffectView {
            line: text_view(self.line),
            output: bytes_view(self.output),
            writer: self.writer,
        }
    }
}

/// A line for the user, and no more.
pub open spec fn tell(line: Seq<char>) -> EffectView {
    EffectView { line: Some(line), output: None, writer: None }
}

/// The line that tells the user of a status.
pub open spec fn status_line(status: StatusView) -> Seq<char> {
    match status {
        StatusView::Connected { client_id } => "connected as "@ + client_id,
        StatusView::Disconnected { client_id } => "client disconnected: "@ + client_id,
        StatusView::SerialOpened { port } => "serial opened: "@ + port,
        StatusView::SerialClosed { port } => "serial closed: "@ + port,
        StatusView::WriterClaimed { client_id } => "writer claimed by "@ + client_id,
        StatusView::WriterReleased => "writer released"@,
        StatusView::ReadOnly { owner } => match owner {
            Some(owner) => "read-only mode; writer owned by "@ + owner,
            None => "read-only mode"@,
        },
        StatusView::Error { message } => "status error: "@ + message,
    }
}

/// Whether a client may write after a status, as far as the status tells.
pub open spec fn writer_after(client_id: Option<Seq<char>>, status: StatusView) -> Option<bool> {
    match status {
        StatusView::WriterClaimed { client_id: owner } => Some(client_id == Some(owner)),
        StatusView::WriterReleased => Some(false),
        StatusView::ReadOnly { .. } => Some(false),
        _ => None,
    }
}

/// The name that a client has after a frame.
pub open spec fn client_id_after(client_id: Option<Seq<char>>, frame: ServerFrameView) -> Option<
    Seq<char>,
> {
    match frame {
        ServerFrameView::Status { status: StatusView::Connected { client_id: id } } => Some(id),
        _ => client_id,
    }
}

/// What the client does with a payload from the server, once it is decoded.
pub open spec fn payload_effect(decoded: Result<Seq<u8>, Seq<char>>) -> Result<
    EffectView,
    ClientErrorView,
> {
    match decoded {
        Ok(bytes) => Ok(EffectView { line: None, output: Some(bytes), writer: None }),
        Err(cause) => Err(ClientErrorView::InvalidSerialData(cause)),
    }
}

/// The line that tells the user of the server's ports.
pub open spec fn ports_line(ports: Seq<SerialPortInfoView>) -> Seq<char> {
    "server ports: "@ + joined(
        ports.map_values(|port: SerialPortInfoView| port.port_name),
        ", "@,
    )
}

/// What the client does about a frame of the server.
pub open spec fn frame_effect(client_id: Option<Seq<char>>, frame: ServerFrameView) -> Result<
    EffectView,
    ClientErrorView,
> {
    match frame {
        ServerFrameView::AuthOk => Ok(tell("authenticated"@)),
        ServerFrameView::AuthFailed { reason } => Err(ClientErrorView::AuthFailed(reason)),
        ServerFrameView::Ports { ports } => Ok(tell(ports_line(ports))),
        ServerFrameView::Opened { config } => Ok(
            tell(
                "opened remote serial port "@ + config.port + " at "@ + decimal(
                    config.baud_rate as nat,
                ) + " baud"@,
            ),
        ),
        ServerFrameView::SerialData { data, .. } => payload_effect(base64_bytes(data)),
        ServerFrameView::Status { status } => Ok(
            EffectView {
                line: Some(status_line(status)),
                output: None,
                writer: writer_after(client_id, status),
            },
        ),
        ServerFrameView::Pong => Ok(EffectView { line: None, output: None, writer: None }),
        ServerFrameView::Error { message } => Ok(tell("server error: "@ + message)),
    }
}

/// What the client did about a frame, as a value of the model.
pub open spec fn effect_view(outcome: Result<Effect, ClientError>) -> Result<
    EffectView,
    ClientErrorView,
> {
    match outcome {
        Ok(effect) => Ok(effect@),
        Err(error) => Err(error@),
    }
}

/// A line for the user, and no more.
fn told(line: String) -> (effect: Effect)
    ensures
        effect@ == tell(line@),
{
    Effect { line: Some(line), output: None, writer: None }
}

/// The line that tells the user of a status.
pub fn print_status(status: &Status) -> (line: String)
    ensures
        line@ == status_line(status@),
{
    match status {
        Status::Connected { client_id } => concat("connected as ", client_id),
        Status::Disconnected { client_id } => concat("client disconnected: ", client_id),
        Status::SerialOpened { port } => concat("serial opened: ", port),
        Status::SerialClosed { port } => concat("serial closed: ", port),
        Status::WriterClaimed { client_id } => concat("writer claimed by ", client_id),
        Status::WriterReleased => "writer released".to_owned(),
        Status::ReadOnly { owner } => match owner {
            Some(owner) => concat("read-only mode; writer owned by ", owner),
            None => "read-only mode".to_owned(),
        },
        Status::Error { message } => concat("status error: ", message),
    }
}

/// The line that tells the user of the server's ports.
fn print_ports(ports: &Vec<SerialPortInfo>) -> (line: String)
    ensures
        line@ == ports_line(ports_view(ports@)),
{
    let ghost names = ports_view(ports@).map_values(|port: SerialPortInfoView| port.port_name);
    let mut text = String::new();
    let mut i: usize = 0;
    assert(names.take(0) =~= seq![]);
    while i < ports.len()
        invariant
            i <= ports.len(),
            names == ports_view(ports@).map_values(|port: SerialPortInfoView| port.port_name),
            text@ == joined(names.take(i as int), ", "@),
        decreases ports.len() - i,
    {
        let name = &ports[i].port_name;
        proof {
            lemma_joined_push(names.take(i as int), name@, ", "@);
            assert(names.take(i as int).push(name@) =~= names.take(i + 1));
        }
        if i > 0 {
            text.append(", ");
        }
        text.append(name);
        i += 1;
    }
    assert(names.take(i as int) =~= names);
    concat("server ports: ", &text)
}

/// The client's side of a connection: the name that the server has given it.
#[derive(Debug)]
pub struct TerminalClient {
    client_id: Option<String>,
}

impl View for TerminalClient {
    type V = Option<Seq<char>>;

    closed spec fn view(&self) -> Option<Seq<char>> {
        text_view(self.client_id)
    }
}

impl TerminalClient {
    /// A client that the server has not named yet.
    pub fn new() -> (client: Self)
        ensures
            client@ is None,
    {
        TerminalClient { client_id: None }
    }

    /// Whether the client has the name given.
    fn is_named(&self, name: &str) -> (named: bool)
        ensures
            named == (self@ == Some(name@)),
    {
        match &self.client_id {
            Some(client_id) => same_text(client_id, name),
            None => false,
        }
    }

    /// Handles a frame of the server.
    pub fn handle_server_frame(&mut self, frame: ServerFrame) -> (outcome: Result<
        Effect,
        ClientError,
    >)
        ensures
            effect_view(outcome) == frame_effect(old(self)@, frame@),
            final(self)@ == client_id_after(old(self)@, frame@),
    {
        match frame {
            ServerFrame::AuthOk => Ok(told("authenticated".to_owned())),
            ServerFrame::AuthFailed { reason } => Err(ClientError::AuthFailed(reason)),
            ServerFrame::Ports { ports } => Ok(told(print_ports(&ports))),
            ServerFrame::Opened { config } => {
                let mut line = concat("opened remote serial port ", &config.port);
                line.append(" at ");
                line.append(&decimal_text(config.baud_rate as u64));
                line.append(" baud");
                Ok(told(line))
            },
            ServerFrame::SerialData { data, .. } => handle_payload(decode_payload(&data)),
            ServerFrame::Status { status } => {
                let line = Some(print_status(&status));
                let writer = match &status {
                    Status::WriterClaimed { client_id } => Some(self.is_named(client_id)),
                    Status::WriterReleased => Some(false),
                    Status::ReadOnly { .. } => Some(false),
                    _ => None,
                };
                if let Status::Connected { client_id } = status {
                    self.client_id = Some(client_id);
                }
                Ok(Effect { line, output: None, writer })
            },
            ServerFrame::Pong => Ok(Effect { line: None, output: None, writer: None }),
            ServerFrame::Error { message } => Ok(told(concat("server error: ", &message))),
        }
    }
}

/// Handles a payload from the server, once it is decoded.
pub fn handle_payload(decoded: Result<Vec<u8>, String>) -> (outcome: Result<Effect, ClientError>)
    ensures
        effect_view(outcome) == payload_effect(decoded_view(decoded)),
{
    match decoded {
        Ok(bytes) => Ok(Effect { line: None, output: Some(bytes), writer: None }),
        Err(cause) => Err(ClientError::InvalidSerialData(cause)),
    }
}

/// Whether a client reads what the user types: only while it may write, as far as it has been told.
#[derive(Debug)]
pub struct InputGate {
    open: bool,
}

impl View for InputGate {
    type V = bool;

    closed spec fn view(&self) -> bool {
        self.open
    }
}

/// Whether input is read after a frame that told, or did not tell, whether the client may write.
pub open spec fn gate_after(open: bool, writer: Option<bool>) -> bool {
    match writer {
        Some(writer) => writer,
        None => open,
    }
}

/// Whether input is read after some frames, one after the other.
pub open spec fn gate_after_all(told: Seq<Option<bool>>) -> bool
    decreases told.len(),
{
    if told.len() == 0 {
        false
    } else {
        gate_after(gate_after_all(told.drop_last()), told.last())
    }
}

impl InputGate {
    /// No input is read before the server has let the client write.
    pub fn new() -> (gate: Self)
        ensures
            gate@ == false,
    {
        InputGate { open: false }
    }

    /// Takes in what a frame told, as [`Effect`] has it.
    pub fn told(&mut self, writer: Option<bool>)
        ensures
            final(self)@ == gate_after(old(self)@, writer),
    {
        if let Some(writer) = writer {
            self.open = writer;
        }
    }

    /// Whether input is read.
    pub fn may_read(&self) -> (open: bool)
        ensures
            open == self@,
    {
        self.open
    }
}

/// What the client does after reading from the terminal.
#[derive(Debug)]
pub enum InputStep {
    /// Sends the frame, and reads on.
    Send(ClientFrame),
    /// Stops reading.
    Stop,
    /// Tells the user why, and stops reading.
    Fail(String),
}

/// Handles what came of reading from the terminal: bytes go to the server, and the end of the input
/// or an error ends the reading. The frame for some bytes gives the bytes back.
pub fn input_step(read: Result<Vec<u8>, String>) -> (step: InputStep)
    requires
        read matches Ok(bytes) ==> encodable(bytes@.len()),
    ensures
        match (read, step) {
            (Ok(bytes), InputStep::Send(frame)) => {
                &&& bytes@.len() > 0
                &&& frame@ == (ClientFrameView::SerialData { data: base64_text(bytes@) })
                &&& frame@.serial_bytes() == Some(bytes@)
            },
            (Ok(bytes), InputStep::Stop) => bytes@.len() == 0,
            (Err(cause), InputStep::Fail(line)) => line@ == "stdin read failed: "@ + cause@,
            _ => false,
        },
{
    match read {
        Ok(bytes) => {
            if bytes.len() == 0 {
                InputStep::Stop
            } else {
                InputStep::Send(ClientFrame::serial_data(bytes.as_slice()))
            }
        },
        Err(cause) => InputStep::Fail(concat("stdin read failed: ", &cause)),
    }
}

/// Input is read exactly if the last frame that told anything told the client that it may write.
pub proof fn the_last_word_opens_the_gate(
    before: Seq<Option<bool>>,
    writer: bool,
    silence: Seq<Option<bool>>,
)
    requires
        forall|i: int| 0 <= i < silence.len() ==> (#[trigger] silence[i]) is None,
    ensures
        gate_after_all(before + seq![Some(writer)] + silence) == writer,
        !gate_after_all(silence),
    decreases silence.len(),
{
    let told = before + seq![Some(writer)] + silence;
    if silence.len() == 0 {
        assert(told.last() == Some(writer));
    } else {
        let front = silence.drop_last();
        assert(told.last() == silence.last());
        assert(silence[silence.len() - 1] is None);
        assert(told.drop_last() =~= before + seq![Some(writer)] + front);
        assert forall|i: int| 0 <= i < front.len() implies (#[trigger] front[i]) is None by {
            assert(front[i] == silence[i]);
        }
        the_last_word_opens_the_gate(before, writer, front);
    }
}

/// A client that only reads never asks for the right to write, and any other asks for it.
pub proof fn only_a_writer_claims(token: Seq<char>, config: SerialConfigView, claim_writer: bool)
    ensures
        opening(token, config, claim_writer).contains(ClientFrameView::ClaimWriter) <==> claim_writer,
{
    let frames = opening(token, config, claim_writer);
    if claim_writer {
        assert(frames[2] == ClientFrameView::ClaimWriter);
    }
}

/// A client begins by authenticating, and the server lets it in exactly if it has the server's
/// token.
pub proof fn a_client_with_the_token_is_admitted(
    server_token: Seq<char>,
    token: Seq<char>,
    config: SerialConfigView,
    claim_writer: bool,
)
    ensures
        frame_admission(server_token, opening(token, config, claim_writer)[0])
            == AdmissionView::Admitted <==> token == server_token,
{
}

/// The answer to a claim tells a client that it may write exactly if the server lets it write.
pub proof fn a_claim_is_answered_truly(lease: Option<Seq<char>>, client: Seq<char>)
    ensures
        frame_effect(Some(client), claim_reply(lease, client).frame) matches Ok(effect)
            && effect.writer == Some(after_claim(lease, client) == Some(client)),
{
}

/// The answer to a release never leaves a client thinking that it may write, and the server does
/// not let it.
pub proof fn a_release_is_answered_truly(lease: Option<Seq<char>>, client: Seq<char>)
    ensures
        after_release(lease, client) != Some(client),
        frame_effect(Some(client), release_reply(lease, client).frame) matches Ok(effect)
            && effect.writer != Some(true),
{
}

/// Bytes that the port took leave the client that sent them knowing that it may write, and a port
/// that failed leaves it thinking what it thought.
pub proof fn a_write_is_answered_truly(client: Seq<char>, failure: Option<Seq<char>>)
    ensures
        frame_effect(Some(client), write_reply(client, failure).frame) matches Ok(effect)
            && effect.writer == if failure is None {
            Some(true)
        } else {
            None
        },
{
}

/// When a writer has gone, every reader of the port learns that it may not write, and the port is
/// free.
pub proof fn a_departure_is_told_truly(
    hubs: Seq<SerialHubView>,
    gone: Seq<char>,
    k: int,
    reader: Seq<char>,
)
    requires
        0 <= k < disconnect_broadcasts(hubs, gone).len(),
    ensures
        ({
            let told = disconnect_broadcasts(hubs, gone)[k];
            &&& 0 <= told.hub < hubs.len()
            &&& after_disconnect(hubs, gone)[told.hub].writer is None
            &&& frame_effect(Some(reader), told.frame) matches Ok(effect)
            &&& effect.writer == Some(false)
        }),
{
    lemma_disconnect_broadcasts(hubs, gone);
}

/// What every reader of a port is told about the writer is true for each of them: after a broadcast
/// answer to a claim or a release, a reader takes itself for the writer exactly if it is.
pub proof fn a_broadcast_is_true_for_every_reader(
    lease: Option<Seq<char>>,
    client: Seq<char>,
    reader: Seq<char>,
)
    ensures
        claim_reply(lease, client).broadcast ==> {
            &&& frame_effect(Some(reader), claim_reply(lease, client).frame) matches Ok(effect)
            &&& effect.writer == Some(after_claim(lease, client) == Some(reader))
        },
        release_reply(lease, client).broadcast ==> {
            &&& frame_effect(Some(reader), release_reply(lease, client).frame) matches Ok(effect)
            &&& effect.writer == Some(after_release(lease, client) == Some(reader))
        },
{
}

/// The bytes that a server's frame carries are what the terminal shows, and nothing else comes of
/// the frame.
pub proof fn carried_bytes_are_shown(
    client_id: Option<Seq<char>>,
    frame: ServerFrameView,
    bytes: Seq<u8>,
)
    requires
        frame.serial_bytes() == Some(bytes),
    ensures
        frame_effect(client_id, frame) matches Ok(effect) && effect == (EffectView {
            line: None,
            output: Some(bytes),
            writer: None,
        }),
        client_id_after(client_id, frame) == client_id,
{
}

/// What a port has sent reaches every client that reads it: the frame that carries the bytes goes to
/// the client as it is, and the terminal shows the bytes.
pub proof fn read_bytes_reach_every_terminal(
    session: SessionView,
    hubs: Seq<SerialHubView>,
    frame: ServerFrame,
    bytes: Seq<u8>,
    client_id: Option<Seq<char>>,
)
    requires
        frame@.serial_bytes() == Some(bytes),
    ensures
        event_action(session, hubs, SessionEvent::HubFrame(frame)) == ActionView::Send(frame@),
        frame_effect(client_id, frame@) matches Ok(effect) && effect.output == Some(bytes),
{
}

/// An error of the client and an effect are seen with everything that they hold, and so are frames.
pub proof fn an_effect_is_seen_whole(
    text: String,
    effect: Effect,
    bytes: Vec<u8>,
    error: ClientError,
    frames: Seq<ClientFrame>,
)
    ensures
        ClientError::AuthFailed(text)@ == ClientErrorView::AuthFailed(text@),
        ClientError::InvalidSerialData(text)@ == ClientErrorView::InvalidSerialData(text@),
        effect@.line == text_view(effect.line),
        effect@.output == bytes_view(effect.output),
        effect@.writer == effect.writer,
        bytes_view(Some(bytes)) == Some(bytes@),
        bytes_view(None) == None::<Seq<u8>>,
        effect_view(Ok(effect)) == Ok::<EffectView, ClientErrorView>(effect@),
        effect_view(Err(error)) == Err::<EffectView, ClientErrorView>(error@),
        client_frames_view(frames).len() == frames.len(),
        forall|i: int|
            0 <= i < frames.len() ==> (#[trigger] client_frames_view(frames)[i]) == frames[i]@,
{
}

/// A client begins with its token, then asks for the port with every setting as it was told, and
/// then claims it unless it only reads; it sends nothing else.
pub proof fn a_client_asks_for_what_it_was_told(
    token: Seq<char>,
    config: SerialConfigView,
    claim_writer: bool,
)
    ensures
        ({
            let frames = opening(token, config, claim_writer);
            &&& frames.len() == if claim_writer {
                3nat
            } else {
                2nat
            }
            &&& frames[0] == (ClientFrameView::Auth { token })
            &&& frames[1] matches ClientFrameView::Open { config: asked }
            &&& asked.port == config.port
            &&& asked.baud_rate == config.baud_rate
            &&& asked.data_bits == config.data_bits
            &&& asked.stop_bits == config.stop_bits
            &&& asked.parity == config.parity
            &&& claim_writer ==> frames[2] is ClaimWriter
        }),
{
}

/// Whether a frame tells the client its name.
pub open spec fn names_the_client(frame: ServerFrameView) -> bool {
    frame matches ServerFrameView::Status { status } && status is Connected
}

/// The name that a client has after some frames, one after the other.
pub open spec fn client_id_after_all(
    client_id: Option<Seq<char>>,
    frames: Seq<ServerFrameView>,
) -> Option<Seq<char>>
    decreases frames.len(),
{
    if frames.len() == 0 {
        client_id
    } else {
        client_id_after(client_id_after_all(client_id, frames.drop_last()), frames.last())
    }
}

/// A client gets its name from the frame that tells it, and every other frame leaves it the name
/// that it has.
pub proof fn a_client_is_named_by_the_server(
    client_id: Option<Seq<char>>,
    name: Seq<char>,
    frame: ServerFrameView,
)
    requires
        !names_the_client(frame),
    ensures
        client_id_after(
            client_id,
            ServerFrameView::Status { status: StatusView::Connected { client_id: name } },
        ) == Some(name),
        client_id_after(client_id, frame) == client_id,
{
}

/// A client keeps its name until it is given another: after any other frames, it takes itself for
/// the writer exactly if the writer has its name.
pub proof fn a_client_keeps_its_name(
    client_id: Option<Seq<char>>,
    name: Seq<char>,
    frames: Seq<ServerFrameView>,
    owner: Seq<char>,
)
    requires
        forall|i: int| 0 <= i < frames.len() ==> !names_the_client(#[trigger] frames[i]),
    ensures
        ({
            let connected = ServerFrameView::Status {
                status: StatusView::Connected { client_id: name },
            };
            let claimed = ServerFrameView::Status {
                status: StatusView::WriterClaimed { client_id: owner },
            };
            let known = client_id_after_all(client_id, seq![connected] + frames);
            &&& client_id_after_all(client_id, frames) == client_id
            &&& known == Some(name)
            &&& frame_effect(known, claimed) matches Ok(effect)
            &&& effect.writer == Some(owner == name)
        }),
    decreases frames.len(),
{
    let connected = ServerFrameView::Status { status: StatusView::Connected { client_id: name } };
    let all = seq![connected] + frames;
    if frames.len() == 0 {
        assert(all.drop_last() =~= seq![]);
        assert(all.last() == connected);
        assert(client_id_after_all(client_id, all.drop_last()) == client_id);
    } else {
        let front = frames.drop_last();
        assert forall|i: int| 0 <= i < front.len() implies !names_the_client(
            #[trigger] front[i],
        ) by {
            assert(front[i] == frames[i]);
        }
        a_client_keeps_its_name(client_id, name, front, owner);
        assert(!names_the_client(frames[frames.len() - 1]));
        assert(all.drop_last() =~= seq![connected] + front);
        assert(all.last() == frames.last());
    }
}

/// What is shown on the terminal is what frames carry: a frame shows some bytes exactly if it
/// carries them.
pub proof fn only_carried_bytes_are_shown(
    client_id: Option<Seq<char>>,
    frame: ServerFrameView,
    bytes: Seq<u8>,
)
    ensures
        (frame_effect(client_id, frame) matches Ok(effect) && effect.output == Some(bytes)) <==> (
        frame.serial_bytes() == Some(bytes)),
{
}

/// A client gives up exactly if it is refused or gets a payload that is not base64, and then with
/// the reason that it was given.
pub proof fn a_client_gives_up_for_a_reason(client_id: Option<Seq<char>>, frame: ServerFrameView)
    ensures
        match frame {
            ServerFrameView::AuthFailed { reason } => frame_effect(client_id, frame) == Err::<
                EffectView,
                ClientErrorView,
            >(ClientErrorView::AuthFailed(reason)),
            ServerFrameView::SerialData { data, .. } => match base64_bytes(data) {
                Ok(_) => frame_effect(client_id, frame) is Ok,
                Err(cause) => frame_effect(client_id, frame) == Err::<EffectView, ClientErrorView>(
                    ClientErrorView::InvalidSerialData(cause),
                ),
            },
            _ => frame_effect(client_id, frame) is Ok,
        },
{
}

/// A client learns whether it may write from a frame about the writer and from no other: it may if
/// the writer named is itself, and it may not if there is none or it may only read.
pub proof fn a_client_learns_whether_it_may_write(
    client_id: Option<Seq<char>>,
    frame: ServerFrameView,
)
    ensures
        frame_effect(client_id, frame) matches Ok(effect) ==> match effect.writer {
            Some(writer) => {
                &&& frame matches ServerFrameView::Status { status }
                &&& match status {
                    StatusView::WriterClaimed { client_id: owner } => writer <==> client_id == Some(
                        owner,
                    ),
                    StatusView::WriterReleased => !writer,
                    StatusView::ReadOnly { .. } => !writer,
                    _ => false,
                }
            },
            None => !(frame matches ServerFrameView::Status { status } && (status is WriterClaimed
                || status is WriterReleased || status is ReadOnly)),
        },
{
}

/// Every frame but a heartbeat's answer and serial data is told in a line, and serial data in none.
pub proof fn a_line_tells_of_each_frame(client_id: Option<Seq<char>>, frame: ServerFrameView)
    ensures
        frame_effect(client_id, frame) matches Ok(effect) ==> {
            &&& effect.line is None <==> frame is Pong || frame is SerialData
            &&& effect.line matches Some(line) ==> match frame {
                ServerFrameView::AuthOk => line == "authenticated"@,
                ServerFrameView::Opened { config } => line == "opened remote serial port "@
                    + config.port + " at "@ + decimal(config.baud_rate as nat) + " baud"@,
                ServerFrameView::Error { message } => line == "server error: "@ + message,
                ServerFrameView::Ports { ports } => line == ports_line(ports),
                ServerFrameView::Status { status } => line == status_line(status),
                _ => false,
            }
        },
{
}

/// The line about a status ends with the client, the port or the message that the status is about,
/// and says the same before it whatever that is.
pub proof fn a_status_line_ends_with_its_subject(text: Seq<char>)
    ensures
        status_line(StatusView::Connected { client_id: text }) == "connected as "@ + text,
        status_line(StatusView::Disconnected { client_id: text }) == "client disconnected: "@
            + text,
        status_line(StatusView::SerialOpened { port: text }) == "serial opened: "@ + text,
        status_line(StatusView::SerialClosed { port: text }) == "serial closed: "@ + text,
        status_line(StatusView::WriterClaimed { client_id: text }) == "writer claimed by "@ + text,
        status_line(StatusView::ReadOnly { owner: Some(text) })
            == "read-only mode; writer owned by "@ + text,
        status_line(StatusView::Error { message: text }) == "status error: "@ + text,
{
}

/// The line about the server's ports names each of them in order: one more port adds its name, after
/// a comma unless it is the first.
pub proof fn a_line_names_every_port(
    ports: Seq<SerialPortInfoView>,
    port: SerialPortInfoView,
)
    ensures
        ports_line(seq![]) == "server ports: "@,
        ports_line(ports.push(port)) == if ports.len() == 0 {
            ports_line(ports) + port.port_name
        } else {
            ports_line(ports) + ", "@ + port.port_name
        },
{
    let names = ports.map_values(|port: SerialPortInfoView| port.port_name);
    let none = Seq::<SerialPortInfoView>::empty().map_values(
        |port: SerialPortInfoView| port.port_name,
    );
    assert(none =~= seq![]);
    assert(ports_line(seq![]) =~= "server ports: "@);
    assert(ports.push(port).map_values(|port: SerialPortInfoView| port.port_name) =~= names.push(
        port.port_name,
    ));
    lemma_joined_push(names, port.port_name, ", "@);
    if ports.len() == 0 {
        assert(ports_line(ports.push(port)) =~= ports_line(ports) + port.port_name);
    } else {
        assert(ports_line(ports.push(port)) =~= ports_line(ports) + ", "@ + port.port_name);
    }
}

/// An error of the client ends with the reason that it was given.
pub proof fn a_client_error_ends_with_its_reason(text: Seq<char>)
    ensures
        ClientErrorView::AuthFailed(text).message() == "authentication failed: "@ + text,
        ClientErrorView::InvalidSerialData(text).message() == "invalid serial data from server: "@
            + text,
{
}

/// A client that has been greeted knows its name and the ports, and does not take itself for the
/// writer yet.
pub proof fn a_greeted_client_knows_its_name(
    client_id: Option<Seq<char>>,
    name: Seq<char>,
    ports: Seq<SerialPortInfoView>,
)
    ensures
        client_id_after_all(client_id, greeting(name, ports)) == Some(name),
        forall|i: int|
            0 <= i < greeting(name, ports).len() ==> {
                &&& frame_effect(client_id, #[trigger] greeting(name, ports)[i]) matches Ok(effect)
                &&& effect.writer is None
            },
{
    assert(greeting(name, ports).last() == status_frame(
        StatusView::Connected { client_id: name },
    ));
}

} // verus!

//! The protocol: serial parameters, and the frames that a client and a server exchange.
use crate::payload::{base64_encode, decode_payload};
#[allow(unused_imports)]
use crate::payload::{
    a_text_stands_for_one_payload, base64_bytes, base64_text, encodable, encoded_bytes_come_back,
    is_base64,
};
use crate::text::{decimal_text, same_text};
#[allow(unused_imports)]
use crate::text::{decimal, decimal_is_injective, lemma_decimal_has_no_colon, text_view};
use vstd::prelude::*;
#[allow(unused_imports)]
use vstd::std_specs::cmp::PartialEqSpec;

verus! {

/// How many data bits a character has.
#[derive(Debug, Clone, Copy, PartialEq, Eq, Structural)]
pub enum DataBits {
    Five,
    Six,
    Seven,
    Eight,
}

/// How many stop bits end a character.
#[derive(Debug, Clone, Copy, PartialEq, Eq, Structural)]
pub enum StopBits {
    One,
    Two,
}

/// How a character is checked for errors.
#[derive(Debug, Clone, Copy, PartialEq, Eq, Structural)]
pub enum Parity {
    NoParity,
    Odd,
    Even,
}

impl DataBits {
    /// The name of the setting.
    pub open spec fn spec_name(self) -> Seq<char> {
        match self {
            DataBits::Five => "Five"@,
            DataBits::Six => "Six"@,
            DataBits::Seven => "Seven"@,
            DataBits::Eight => "Eight"@,
        }
    }

    /// The name of the setting.
    fn name(self) -> (name: &'static str)
        ensures
            name@ == self.spec_name(),
    {
        match self {
            DataBits::Five => "Five",
            DataBits::Six => "Six",
            DataBits::Seven => "Seven",
            DataBits::Eight => "Eight",
        }
    }
}

impl StopBits {
    /// The name of the setting.
    pub open spec fn spec_name(self) -> Seq<char> {
        match self {
            StopBits::One => "One"@,
            StopBits::Two => "Two"@,
        }
    }

    /// The name of the setting.
    fn name(self) -> (name: &'static str)
        ensures
            name@ == self.spec_name(),
    {
        match self {
            StopBits::One => "One",
            StopBits::Two => "Two",
        }
    }
}

impl Parity {
    /// The name of the setting.
    pub open spec fn spec_name(self) -> Seq<char> {
        match self {
            Parity::NoParity => "None"@,
            Parity::Odd => "Odd"@,
            Parity::Even => "Even"@,
        }
    }

    /// The name of the setting.
    fn name(self) -> (name: &'static str)
        ensures
            name@ == self.spec_name(),
    {
        match self {
            Parity::NoParity => "None",
            Parity::Odd => "Odd",
            Parity::Even => "Even",
        }
    }
}

/// A serial port and how to talk to it.
#[derive(Debug)]
pub struct SerialConfig {
    pub port: String,
    pub baud_rate: u32,
    pub data_bits: DataBits,
    pub stop_bits: StopBits,
    pub parity: Parity,
}

/// A [`SerialConfig`] with the port's name as a sequence of characters.
pub ghost struct SerialConfigView {
    pub port: Seq<char>,
    pub baud_rate: u32,
    pub data_bits: DataBits,
    pub stop_bits: StopBits,
    pub parity: Parity,
}

impl View for SerialConfig {
    type V = SerialConfigView;

    open spec fn view(&self) -> SerialConfigView {
        SerialConfigView {
            port: self.port@,
            baud_rate: self.baud_rate,
            data_bits: self.data_bits,
            stop_bits: self.stop_bits,
            parity: self.parity,
        }
    }
}

impl Clone for SerialConfig {
    fn clone(&self) -> (copy: Self)
        ensures
            copy@ == self@,
    {
        SerialConfig {
            port: self.port.clone(),
            baud_rate: self.baud_rate,
            data_bits: self.data_bits,
            stop_bits: self.stop_bits,
            parity: self.parity,
        }
    }
}

impl PartialEq for SerialConfig {
    fn eq(&self, other: &Self) -> (same: bool) {
        same_text(&self.port, &other.port) && self.baud_rate == other.baud_rate && self.data_bits
            == other.data_bits && self.stop_bits == other.stop_bits && self.parity == other.parity
    }
}

impl vstd::std_specs::cmp::PartialEqSpecImpl for SerialConfig {
    open spec fn obeys_eq_spec() -> bool {
        true
    }

    open spec fn eq_spec(&self, other: &Self) -> bool {
        self@ == other@
    }
}

impl Eq for SerialConfig {

}

/// The field separated by a colon from what comes before it.
pub open spec fn with_field(before: Seq<char>, field: Seq<char>) -> Seq<char> {
    before + ":"@ + field
}

impl SerialConfigView {
    /// Port, baud rate, data bits, stop bits and parity, with colons between them.
    pub open spec fn service_key(self) -> Seq<char> {
        let port_and_rate = with_field(self.port, decimal(self.baud_rate as nat));
        let with_data_bits = with_field(port_and_rate, self.data_bits.spec_name());
        let with_stop_bits = with_field(with_data_bits, self.stop_bits.spec_name());
        with_field(with_stop_bits, self.parity.spec_name())
    }
}

impl SerialConfig {
    /// The key that tells one opened port from another.
    pub fn service_key(&self) -> (key: String)
        ensures
            key@ == self@.service_key(),
    {
        let mut key = self.port.clone();
        key.append(":");
        key.append(&decimal_text(self.baud_rate as u64));
        key.append(":");
        key.append(self.data_bits.name());
        key.append(":");
        key.append(self.stop_bits.name());
        key.append(":");
        key.append(self.parity.name());
        key
    }
}

/// The parameters that a port has unless others are given: `115200 8N1`, on no port.
pub open spec fn default_config() -> SerialConfigView {
    SerialConfigView {
        port: seq![],
        baud_rate: 115200,
        data_bits: DataBits::Eight,
        stop_bits: StopBits::One,
        parity: Parity::NoParity,
    }
}

impl Default for SerialConfig {
    fn default() -> (config: Self)
        ensures
            config@ == default_config(),
    {
        SerialConfig {
            port: String::new(),
            baud_rate: default_baud_rate(),
            data_bits: default_data_bits(),
            stop_bits: default_stop_bits(),
            parity: default_parity(),
        }
    }
}

pub fn default_baud_rate() -> (baud_rate: u32)
    ensures
        baud_rate == default_config().baud_rate,
        baud_rate == 115200,
{
    115200
}

pub fn default_data_bits() -> (data_bits: DataBits)
    ensures
        data_bits == default_config().data_bits,
        data_bits == DataBits::Eight,
{
    DataBits::Eight
}

pub fn default_stop_bits() -> (stop_bits: StopBits)
    ensures
        stop_bits == default_config().stop_bits,
        stop_bits == StopBits::One,
{
    StopBits::One
}

pub fn default_parity() -> (parity: Parity)
    ensures
        parity == default_config().parity,
        parity == Parity::NoParity,
{
    Parity::NoParity
}

/// What a client sends.
#[derive(Debug)]
pub enum ClientFrame {
    /// The token to authenticate with; the first frame of a connection.
    Auth { token: String },
    /// The port to open, and how.
    Open { config: SerialConfig },
    /// Asks for the right to write.
    ClaimWriter,
    /// Gives the right to write back.
    ReleaseWriter,
    /// Bytes to write to the serial port, in base64.
    SerialData { data: String },
    /// Asks for a sign of life.
    Ping,
}

/// A [`ClientFrame`] with its texts as sequences of characters.
pub ghost enum ClientFrameView {
    Auth { token: Seq<char> },
    Open { config: SerialConfigView },
    ClaimWriter,
    ReleaseWriter,
    SerialData { data: Seq<char> },
    Ping,
}

impl View for ClientFrame {
    type V = ClientFrameView;

    open spec fn view(&self) -> ClientFrameView {
        match self {
            ClientFrame::Auth { token } => ClientFrameView::Auth { token: token@ },
            ClientFrame::Open { config } => ClientFrameView::Open { config: config@ },
            ClientFrame::ClaimWriter => ClientFrameView::ClaimWriter,
            ClientFrame::ReleaseWriter => ClientFrameView::ReleaseWriter,
            ClientFrame::SerialData { data } => ClientFrameView::SerialData { data: data@ },
            ClientFrame::Ping => ClientFrameView::Ping,
        }
    }
}

impl Clone for ClientFrame {
    fn clone(&self) -> (copy: Self)
        ensures
            copy@ == self@,
    {
        match self {
            ClientFrame::Auth { token } => ClientFrame::Auth { token: token.clone() },
            ClientFrame::Open { config } => ClientFrame::Open { config: config.clone() },
            ClientFrame::ClaimWriter => ClientFrame::ClaimWriter,
            ClientFrame::ReleaseWriter => ClientFrame::ReleaseWriter,
            ClientFrame::SerialData { data } => ClientFrame::SerialData { data: data.clone() },
            ClientFrame::Ping => ClientFrame::Ping,
        }
    }
}

/// The bytes that a base64 text stands for, if it stands for any.
pub open spec fn payload_bytes(data: Seq<char>) -> Option<Seq<u8>> {
    match base64_bytes(data) {
        Ok(bytes) => Some(bytes),
        Err(_) => None,
    }
}

/// A decoded payload as a sequence of bytes.
pub open spec fn bytes_view(bytes: Option<Vec<u8>>) -> Option<Seq<u8>> {
    match bytes {
        Some(bytes) => Some(bytes@),
        None => None,
    }
}

impl ClientFrameView {
    /// The serial bytes that the frame carries: none if it carries no payload, or one that is not
    /// base64.
    pub open spec fn serial_bytes(self) -> Option<Seq<u8>> {
        match self {
            ClientFrameView::SerialData { data } => payload_bytes(data),
            _ => None,
        }
    }
}

impl ClientFrame {
    /// A frame that carries the bytes; [`ClientFrame::decode_data`] gives them back.
    pub fn serial_data(data: &[u8]) -> (frame: Self)
        requires
            encodable(data@.len()),
        ensures
            frame@ == (ClientFrameView::SerialData { data: base64_text(data@) }),
            frame@.serial_bytes() == Some(data@),
    {
        proof {
            encoded_bytes_come_back(data@);
        }
        ClientFrame::SerialData { data: base64_encode(data) }
    }

    /// The serial bytes that the frame carries; [`ClientFrame::serial_data`] gives the frame back.
    pub fn decode_data(&self) -> (bytes: Option<Vec<u8>>)
        ensures
            bytes_view(bytes) == self@.serial_bytes(),
            bytes is Some <==> (self matches ClientFrame::SerialData { data } && is_base64(data@)),
            bytes matches Some(bytes) ==> self@ == (ClientFrameView::SerialData {
                data: base64_text(bytes@),
            }),
    {
        match self {
            ClientFrame::SerialData { data } => match decode_payload(data) {
                Ok(bytes) => Some(bytes),
                Err(_) => None,
            },
            _ => None,
        }
    }
}

/// A serial port that the server sees.
#[derive(Debug)]
pub struct SerialPortInfo {
    pub port_name: String,
    pub port_type: String,
}

/// A [`SerialPortInfo`] with its texts as sequences of characters.
pub ghost struct SerialPortInfoView {
    pub port_name: Seq<char>,
    pub port_type: Seq<char>,
}

impl View for SerialPortInfo {
    type V = SerialPortInfoView;

    open spec fn view(&self) -> SerialPortInfoView {
        SerialPortInfoView { port_name: self.port_name@, port_type: self.port_type@ }
    }
}

impl Clone for SerialPortInfo {
    fn clone(&self) -> (copy: Self)
        ensures
            copy@ == self@,
    {
        SerialPortInfo { port_name: self.port_name.clone(), port_type: self.port_type.clone() }
    }
}

impl PartialEq for SerialPortInfo {
    fn eq(&self, other: &Self) -> (same: bool) {
        same_text(&self.port_name, &other.port_name) && same_text(&self.port_type, &other.port_type)
    }
}

impl vstd::std_specs::cmp::PartialEqSpecImpl for SerialPortInfo {
    open spec fn obeys_eq_spec() -> bool {
        true
    }

    open spec fn eq_spec(&self, other: &Self) -> bool {
        self@ == other@
    }
}

impl Eq for SerialPortInfo {

}

/// A list of ports with the texts of each as sequences of characters.
pub open spec fn ports_view(ports: Seq<SerialPortInfo>) -> Seq<SerialPortInfoView> {
    ports.map_values(|port: SerialPortInfo| port@)
}

/// A copy of a list of ports.
fn clone_ports(ports: &Vec<SerialPortInfo>) -> (copy: Vec<SerialPortInfo>)
    ensures
        ports_view(copy@) == ports_view(ports@),
{
    let mut copy: Vec<SerialPortInfo> = Vec::new();
    let mut i: usize = 0;
    while i < ports.len()
        invariant
            i <= ports.len(),
            copy.len() == i,
            forall|j: int| 0 <= j < i ==> (#[trigger] copy[j])@ == ports[j]@,
        decreases ports.len() - i,
    {
        copy.push(ports[i].clone());
        i += 1;
    }
    assert(ports_view(copy@) =~= ports_view(ports@));
    copy
}

/// What has happened to a connection, a port or the right to write.
#[derive(Debug)]
pub enum Status {
    /// The client is connected, under the name given.
    Connected { client_id: String },
    /// A client has gone.
    Disconnected { client_id: String },
    /// The port has been opened.
    SerialOpened { port: String },
    /// The port is no longer read.
    SerialClosed { port: String },
    /// The client named may write.
    WriterClaimed { client_id: String },
    /// Nobody may write any more.
    WriterReleased,
    /// The client may only read; the owner, if there is one, may write.
    ReadOnly { owner: Option<String> },
    /// The port, or the connection to it, has failed.
    Error { message: String },
}

/// A [`Status`] with its texts as sequences of characters.
pub ghost enum StatusView {
    Connected { client_id: Seq<char> },
    Disconnected { client_id: Seq<char> },
    SerialOpened { port: Seq<char> },
    SerialClosed { port: Seq<char> },
    WriterClaimed { client_id: Seq<char> },
    WriterReleased,
    ReadOnly { owner: Option<Seq<char>> },
    Error { message: Seq<char> },
}

impl View for Status {
    type V = StatusView;

    open spec fn view(&self) -> StatusView {
        match self {
            Status::Connected { client_id } => StatusView::Connected { client_id: client_id@ },
            Status::Disconnected { client_id } => StatusView::Disconnected {
                client_id: client_id@,
            },
            Status::SerialOpened { port } => StatusView::SerialOpened { port: port@ },
            Status::SerialClosed { port } => StatusView::SerialClosed { port: port@ },
            Status::WriterClaimed { client_id } => StatusView::WriterClaimed {
                client_id: client_id@,
            },
            Status::WriterReleased => StatusView::WriterReleased,
            Status::ReadOnly { owner } => StatusView::ReadOnly { owner: text_view(*owner) },
            Status::Error { message } => StatusView::Error { message: message@ },
        }
    }
}

impl Clone for Status {
    fn clone(&self) -> (copy: Self)
        ensures
            copy@ == self@,
    {
        match self {
            Status::Connected { client_id } => Status::Connected { client_id: client_id.clone() },
            Status::Disconnected { client_id } => Status::Disconnected {
                client_id: client_id.clone(),
            },
            Status::SerialOpened { port } => Status::SerialOpened { port: port.clone() },
            Status::SerialClosed { port } => Status::SerialClosed { port: port.clone() },
            Status::WriterClaimed { client_id } => Status::WriterClaimed {
                client_id: client_id.clone(),
            },
            Status::WriterReleased => Status::WriterReleased,
            Status::ReadOnly { owner } => match owner {
                Some(client) => Status::ReadOnly { owner: Some(client.clone()) },
                None => Status::ReadOnly { owner: None },
            },
            Status::Error { message } => Status::Error { message: message.clone() },
        }
    }
}

impl PartialEq for Status {
    fn eq(&self, other: &Self) -> (same: bool) {
        match (self, other) {
            (Status::Connected { client_id: left }, Status::Connected { client_id: right }) => {
                same_text(left, right)
            },
            (
                Status::Disconnected { client_id: left },
                Status::Disconnected { client_id: right },
            ) => same_text(left, right),
            (Status::SerialOpened { port: left }, Status::SerialOpened { port: right }) => {
                same_text(left, right)
            },
            (Status::SerialClosed { port: left }, Status::SerialClosed { port: right }) => {
                same_text(left, right)
            },
            (
                Status::WriterClaimed { client_id: left },
                Status::WriterClaimed { client_id: right },
            ) => same_text(left, right),
            (Status::WriterReleased, Status::WriterReleased) => true,
            (Status::ReadOnly { owner: left }, Status::ReadOnly { owner: right }) => {
                match (left, right) {
                    (Some(left), Some(right)) => same_text(left, right),
                    (None, None) => true,
                    _ => false,
                }
            },
            (Status::Error { message: left }, Status::Error { message: right }) => {
                same_text(left, right)
            },
            _ => false,
        }
    }
}

impl vstd::std_specs::cmp::PartialEqSpecImpl for Status {
    open spec fn obeys_eq_spec() -> bool {
        true
    }

    open spec fn eq_spec(&self, other: &Self) -> bool {
        self@ == other@
    }
}

impl Eq for Status {

}

/// What a server sends.
#[derive(Debug)]
pub enum ServerFrame {
    /// The token is right.
    AuthOk,
    /// The client is refused, for the reason given.
    AuthFailed { reason: String },
    /// The serial ports that the server sees.
    Ports { ports: Vec<SerialPortInfo> },
    /// The port asked for is open.
    Opened { config: SerialConfig },
    /// Bytes read from the serial port, in base64.
    SerialData { port: String, data: String },
    /// Something has happened.
    Status { status: Status },
    /// The answer to a ping.
    Pong,
    /// A frame of the client could not be obeyed.
    Error { message: String },
}

/// A [`ServerFrame`] with its texts and lists as sequences.
pub ghost enum ServerFrameView {
    AuthOk,
    AuthFailed { reason: Seq<char> },
    Ports { ports: Seq<SerialPortInfoView> },
    Opened { config: SerialConfigView },
    SerialData { port: Seq<char>, data: Seq<char> },
    Status { status: StatusView },
    Pong,
    Error { message: Seq<char> },
}

impl View for ServerFrame {
    type V = ServerFrameView;

    open spec fn view(&self) -> ServerFrameView {
        match self {
            ServerFrame::AuthOk => ServerFrameView::AuthOk,
            ServerFrame::AuthFailed { reason } => ServerFrameView::AuthFailed { reason: reason@ },
            ServerFrame::Ports { ports } => ServerFrameView::Ports { ports: ports_view(ports@) },
            ServerFrame::Opened { config } => ServerFrameView::Opened { config: config@ },
            ServerFrame::SerialData { port, data } => ServerFrameView::SerialData {
                port: port@,
                data: data@,
            },
            ServerFrame::Status { status } => ServerFrameView::Status { status: status@ },
            ServerFrame::Pong => ServerFrameView::Pong,
            ServerFrame::Error { message } => ServerFrameView::Error { message: message@ },
        }
    }
}

impl Clone for ServerFrame {
    fn clone(&self) -> (copy: Self)
        ensures
            copy@ == self@,
    {
        match self {
            ServerFrame::AuthOk => ServerFrame::AuthOk,
            ServerFrame::AuthFailed { reason } => ServerFrame::AuthFailed {
                reason: reason.clone(),
            },
            ServerFrame::Ports { ports } => ServerFrame::Ports { ports: clone_ports(ports) },
            ServerFrame::Opened { config } => ServerFrame::Opened { config: config.clone() },
            ServerFrame::SerialData { port, data } => ServerFrame::SerialData {
                port: port.clone(),
                data: data.clone(),
            },
            ServerFrame::Status { status } => ServerFrame::Status { status: status.clone() },
            ServerFrame::Pong => ServerFrame::Pong,
            ServerFrame::Error { message } => ServerFrame::Error { message: message.clone() },
        }
    }
}

impl ServerFrameView {
    /// The serial bytes that the frame carries: none if it carries no payload, or one that is not
    /// base64.
    pub open spec fn serial_bytes(self) -> Option<Seq<u8>> {
        match self {
            ServerFrameView::SerialData { data, .. } => payload_bytes(data),
            _ => None,
        }
    }
}

impl ServerFrame {
    /// A frame that carries bytes read from the port; [`ServerFrame::decode_data`] gives them
    /// back.
    pub fn serial_data(port: impl Into<String>, data: &[u8]) -> (frame: Self)
        requires
            encodable(data@.len()),
        ensures
            exists|name: String| #[trigger]
                call_ensures(Into::into, (port,), name) && frame@ == (ServerFrameView::SerialData {
                    port: name@,
                    data: base64_text(data@),
                }),
            frame@.serial_bytes() == Some(data@),
    {
        proof {
            encoded_bytes_come_back(data@);
        }
        ServerFrame::SerialData { port: port.into(), data: base64_encode(data) }
    }

    /// The serial bytes that the frame carries; [`ServerFrame::serial_data`] gives the frame back.
    pub fn decode_data(&self) -> (bytes: Option<Vec<u8>>)
        ensures
            bytes_view(bytes) == self@.serial_bytes(),
            bytes is Some <==> (self matches ServerFrame::SerialData { data, .. } && is_base64(
                data@,
            )),
            bytes matches Some(bytes) ==> self@ == (ServerFrameView::SerialData {
                port: self@->SerialData_port,
                data: base64_text(bytes@),
            }),
    {
        match self {
            ServerFrame::SerialData { data, .. } => match decode_payload(data) {
                Ok(bytes) => Some(bytes),
                Err(_) => None,
            },
            _ => None,
        }
    }
}

/// What follows the last colon can be told from what comes before it.
proof fn lemma_last_field(
    before: Seq<char>,
    field: Seq<char>,
    other_before: Seq<char>,
    other_field: Seq<char>,
)
    requires
        !field.contains(':'),
        !other_field.contains(':'),
        with_field(before, field) == with_field(other_before, other_field),
    ensures
        before == other_before,
        field == other_field,
{
    reveal_strlit(":");
    let whole = with_field(before, field);
    assert(":"@.len() == 1 && ":"@[0] == ':');
    assert(whole.len() == before.len() + 1 + field.len());
    assert(whole.len() == other_before.len() + 1 + other_field.len());
    assert(whole[before.len() as int] == ':');
    assert(whole[other_before.len() as int] == ':');
    if before.len() < other_before.len() {
        let k = other_before.len() - before.len() - 1;
        assert(whole[before.len() as int + 1 + k] == field[k]);
    } else if other_before.len() < before.len() {
        let k = before.len() - other_before.len() - 1;
        assert(whole[other_before.len() as int + 1 + k] == other_field[k]);
    }
    assert(before =~= whole.take(before.len() as int));
    assert(other_before =~= whole.take(before.len() as int));
    assert(field =~= whole.skip(before.len() as int + 1));
    assert(other_field =~= whole.skip(before.len() as int + 1));
}

/// The names of the settings hold no colon and tell the settings apart.
proof fn lemma_names(left: SerialConfigView, right: SerialConfigView)
    ensures
        !left.data_bits.spec_name().contains(':'),
        !left.stop_bits.spec_name().contains(':'),
        !left.parity.spec_name().contains(':'),
        left.data_bits.spec_name() == right.data_bits.spec_name() ==> left.data_bits
            == right.data_bits,
        left.stop_bits.spec_name() == right.stop_bits.spec_name() ==> left.stop_bits
            == right.stop_bits,
        left.parity.spec_name() == right.parity.spec_name() ==> left.parity == right.parity,
{
    reveal_strlit("Five");
    reveal_strlit("Six");
    reveal_strlit("Seven");
    reveal_strlit("Eight");
    reveal_strlit("One");
    reveal_strlit("Two");
    reveal_strlit("None");
    reveal_strlit("Odd");
    reveal_strlit("Even");
    assert("Five"@.len() == 4);
    assert("Six"@.len() == 3);
    assert("Seven"@.len() == 5 && "Seven"@[0] == 'S');
    assert("Eight"@.len() == 5 && "Eight"@[0] == 'E');
    assert("One"@[0] == 'O');
    assert("Two"@[0] == 'T');
    assert("None"@[0] == 'N');
    assert("Odd"@[0] == 'O');
    assert("Even"@[0] == 'E');
}

/// Two configurations have the same key exactly if they are the same, whatever their ports are
/// called.
pub proof fn service_key_is_injective(left: SerialConfigView, right: SerialConfigView)
    ensures
        left.service_key() == right.service_key() <==> left == right,
{
    if left.service_key() == right.service_key() {
        lemma_names(left, right);
        lemma_names(right, left);
        lemma_decimal_has_no_colon(left.baud_rate as nat);
        lemma_decimal_has_no_colon(right.baud_rate as nat);
        let left_rate = with_field(left.port, decimal(left.baud_rate as nat));
        let right_rate = with_field(right.port, decimal(right.baud_rate as nat));
        let left_data = with_field(left_rate, left.data_bits.spec_name());
        let right_data = with_field(right_rate, right.data_bits.spec_name());
        let left_stop = with_field(left_data, left.stop_bits.spec_name());
        let right_stop = with_field(right_data, right.stop_bits.spec_name());
        lemma_last_field(
            left_stop,
            left.parity.spec_name(),
            right_stop,
            right.parity.spec_name(),
        );
        lemma_last_field(
            left_data,
            left.stop_bits.spec_name(),
            right_data,
            right.stop_bits.spec_name(),
        );
        lemma_last_field(
            left_rate,
            left.data_bits.spec_name(),
            right_rate,
            right.data_bits.spec_name(),
        );
        lemma_last_field(
            left.port,
            decimal(left.baud_rate as nat),
            right.port,
            decimal(right.baud_rate as nat),
        );
        decimal_is_injective(left.baud_rate as nat, right.baud_rate as nat);
    }
}

/// A configuration is seen with every setting that it has.
pub proof fn a_configuration_is_seen_whole(config: SerialConfig)
    ensures
        config@.port == config.port@,
        config@.baud_rate == config.baud_rate,
        config@.data_bits == config.data_bits,
        config@.stop_bits == config.stop_bits,
        config@.parity == config.parity,
{
}

/// A client's frame is seen with everything that it holds.
pub proof fn a_client_frame_is_seen_whole(text: String, config: SerialConfig)
    ensures
        (ClientFrame::Auth { token: text })@ == (ClientFrameView::Auth { token: text@ }),
        (ClientFrame::Open { config })@ == (ClientFrameView::Open { config: config@ }),
        ClientFrame::ClaimWriter@ is ClaimWriter,
        ClientFrame::ReleaseWriter@ is ReleaseWriter,
        (ClientFrame::SerialData { data: text })@ == (ClientFrameView::SerialData { data: text@ }),
        ClientFrame::Ping@ is Ping,
{
}

/// A list of ports is seen whole and in order: every port with its name and its type.
pub proof fn ports_are_seen_whole(ports: Seq<SerialPortInfo>)
    ensures
        ports_view(ports).len() == ports.len(),
        forall|i: int|
            0 <= i < ports.len() ==> {
                &&& (#[trigger] ports_view(ports)[i]).port_name == ports[i].port_name@
                &&& ports_view(ports)[i].port_type == ports[i].port_type@
            },
{
}

/// A status is seen with everything that it holds.
pub proof fn a_status_is_seen_whole(text: String)
    ensures
        (Status::Connected { client_id: text })@ == (StatusView::Connected { client_id: text@ }),
        (Status::Disconnected { client_id: text })@ == (StatusView::Disconnected {
            client_id: text@,
        }),
        (Status::SerialOpened { port: text })@ == (StatusView::SerialOpened { port: text@ }),
        (Status::SerialClosed { port: text })@ == (StatusView::SerialClosed { port: text@ }),
        (Status::WriterClaimed { client_id: text })@ == (StatusView::WriterClaimed {
            client_id: text@,
        }),
        Status::WriterReleased@ is WriterReleased,
        (Status::ReadOnly { owner: Some(text) })@ == (StatusView::ReadOnly { owner: Some(text@) }),
        (Status::ReadOnly { owner: None })@ == (StatusView::ReadOnly { owner: None }),
        (Status::Error { message: text })@ == (StatusView::Error { message: text@ }),
{
}

/// A server's frame is seen with everything that it holds.
pub proof fn a_server_frame_is_seen_whole(
    text: String,
    data: String,
    ports: Vec<SerialPortInfo>,
    config: SerialConfig,
    status: Status,
)
    ensures
        ServerFrame::AuthOk@ is AuthOk,
        (ServerFrame::AuthFailed { reason: text })@ == (ServerFrameView::AuthFailed {
            reason: text@,
        }),
        (ServerFrame::Ports { ports })@ == (ServerFrameView::Ports { ports: ports_view(ports@) }),
        (ServerFrame::Opened { config })@ == (ServerFrameView::Opened { config: config@ }),
        (ServerFrame::SerialData { port: text, data })@ == (ServerFrameView::SerialData {
            port: text@,
            data: data@,
        }),
        (ServerFrame::Status { status })@ == (ServerFrameView::Status { status: status@ }),
        ServerFrame::Pong@ is Pong,
        (ServerFrame::Error { message: text })@ == (ServerFrameView::Error { message: text@ }),
{
}

/// A frame carries some bytes exactly if it is a frame of serial data whose text is the base64 of
/// these bytes.
pub proof fn a_frame_carries_its_payload(
    sent: ClientFrameView,
    received: ServerFrameView,
    bytes: Seq<u8>,
)
    ensures
        sent.serial_bytes() == Some(bytes) <==> sent == (ClientFrameView::SerialData {
            data: base64_text(bytes),
        }),
        received.serial_bytes() == Some(bytes) <==> {
            &&& received matches ServerFrameView::SerialData { data, .. }
            &&& data == base64_text(bytes)
        },
{
    if let ClientFrameView::SerialData { data } = sent {
        a_text_stands_for_one_payload(data, bytes);
    }
    if let ServerFrameView::SerialData { data, .. } = received {
        a_text_stands_for_one_payload(data, bytes);
    }
}

/// A key begins with the port and the baud rate, and how it goes on depends on the other settings
/// alone.
pub proof fn a_key_begins_with_port_and_rate(config: SerialConfigView, other: SerialConfigView)
    requires
        config.data_bits == other.data_bits,
        config.stop_bits == other.stop_bits,
        config.parity == other.parity,
    ensures
        ({
            let start = config.port + ":"@ + decimal(config.baud_rate as nat) + ":"@;
            let other_start = other.port + ":"@ + decimal(other.baud_rate as nat) + ":"@;
            let key = config.service_key();
            let other_key = other.service_key();
            &&& key.take(start.len() as int) == start
            &&& key.skip(start.len() as int) == other_key.skip(other_start.len() as int)
        }),
{
    let rest = config.data_bits.spec_name() + ":"@ + config.stop_bits.spec_name() + ":"@
        + config.parity.spec_name();
    let start = config.port + ":"@ + decimal(config.baud_rate as nat) + ":"@;
    let other_start = other.port + ":"@ + decimal(other.baud_rate as nat) + ":"@;
    assert(config.service_key() =~= start + rest);
    assert(other.service_key() =~= other_start + rest);
    assert((start + rest).take(start.len() as int) =~= start);
    assert((start + rest).skip(start.len() as int) =~= rest);
    assert((other_start + rest).skip(other_start.len() as int) =~= rest);
}

/// Two configurations, two descriptions of a port or two statuses are equal exactly if they agree
/// in everything that they hold.
pub proof fn equal_values_agree_in_everything(
    config: SerialConfig,
    other_config: SerialConfig,
    info: SerialPortInfo,
    other_info: SerialPortInfo,
    status: Status,
    other_status: Status,
)
    ensures
        config.eq_spec(&other_config) <==> {
            &&& config.port@ == other_config.port@
            &&& config.baud_rate == other_config.baud_rate
            &&& config.data_bits == other_config.data_bits
            &&& config.stop_bits == other_config.stop_bits
            &&& config.parity == other_config.parity
        },
        info.eq_spec(&other_info) <==> {
            &&& info.port_name@ == other_info.port_name@
            &&& info.port_type@ == other_info.port_type@
        },
        status.eq_spec(&other_status) <==> match (status, other_status) {
            (Status::Connected { client_id: left }, Status::Connected { client_id: right }) => left@
                == right@,
            (
                Status::Disconnected { client_id: left },
                Status::Disconnected { client_id: right },
            ) => left@ == right@,
            (Status::SerialOpened { port: left }, Status::SerialOpened { port: right }) => left@
                == right@,
            (Status::SerialClosed { port: left }, Status::SerialClosed { port: right }) => left@
                == right@,
            (
                Status::WriterClaimed { client_id: left },
                Status::WriterClaimed { client_id: right },
            ) => left@ == right@,
            (Status::WriterReleased, Status::WriterReleased) => true,
            (Status::ReadOnly { owner: Some(left) }, Status::ReadOnly { owner: Some(right) }) => {
                left@ == right@
            },
            (Status::ReadOnly { owner: None }, Status::ReadOnly { owner: None }) => true,
            (Status::Error { message: left }, Status::Error { message: right }) => left@ == right@,
            _ => false,
        },
{
}

} // verus!

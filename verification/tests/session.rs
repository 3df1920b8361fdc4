use uart_remote::auth::TokenAuth;
use uart_remote::error::CoreError;
use uart_remote::hubs::HubTable;
use uart_remote::message::Message;
use uart_remote::protocol::{ClientFrame, SerialConfig, SerialPortInfo, ServerFrame, Status};
use uart_remote::session::{
    authenticate, receive_first, Action, Admission, Connection, FirstMessage, Session,
    SessionError, SessionEvent, AUTH_TIMEOUT_SECS,
};

fn config(port: &str) -> SerialConfig {
    SerialConfig {
        port: port.to_string(),
        ..SerialConfig::default()
    }
}

fn auth_frame(token: &str) -> ClientFrame {
    ClientFrame::Auth {
        token: token.to_string(),
    }
}

fn session(client_id: &str) -> Session {
    Session::new(client_id.to_string())
}

/// The table with COM3 open, and two clients that have opened it.
fn two_clients() -> (HubTable, Session, Session) {
    let mut hubs = HubTable::new();
    let mut a = session("a");
    let mut b = session("b");
    a.opened(&mut hubs, config("COM3"), Ok(())).unwrap();
    b.opened(&mut hubs, config("COM3"), Ok(())).unwrap();
    (hubs, a, b)
}

/// The session of a client with the right token.
fn admitted() -> Session {
    let auth = TokenAuth::new("secret");
    let mut connection = Connection::new();
    let first = FirstMessage::Received(Message::Text(Ok(auth_frame("secret"))));
    assert!(matches!(
        connection.first(&auth, first),
        Admission::Admitted
    ));
    connection.into_session().unwrap()
}

fn reason(admission: Admission) -> String {
    match admission {
        Admission::Refused(ServerFrame::AuthFailed { reason }) => reason,
        other => panic!("unexpected admission: {other:?}"),
    }
}

fn complaint(action: Action) -> String {
    match action {
        Action::Send(ServerFrame::Error { message }) => message,
        other => panic!("unexpected action: {other:?}"),
    }
}

#[test]
fn the_token_admits() {
    let auth = TokenAuth::new("secret");
    assert!(matches!(
        authenticate(&auth, &auth_frame("secret")),
        Admission::Admitted
    ));
    assert_eq!(
        reason(authenticate(&auth, &auth_frame("wrong"))),
        "authentication failed"
    );
}

#[test]
fn the_first_frame_must_be_auth() {
    let auth = TokenAuth::new("secret");
    for frame in [
        ClientFrame::Ping,
        ClientFrame::ClaimWriter,
        ClientFrame::ReleaseWriter,
        ClientFrame::serial_data(b"x"),
        ClientFrame::Open {
            config: config("COM3"),
        },
    ] {
        assert_eq!(
            reason(authenticate(&auth, &frame)),
            "first frame must be auth"
        );
    }
}

#[test]
fn the_first_message_decides() {
    let auth = TokenAuth::new("secret");
    let first = FirstMessage::Received(Message::Text(Ok(auth_frame("secret"))));
    assert!(matches!(receive_first(&auth, first), Admission::Admitted));
    let first = FirstMessage::Received(Message::Binary(Ok(auth_frame("wrong"))));
    assert_eq!(reason(receive_first(&auth, first)), "authentication failed");
    let first = FirstMessage::Received(Message::Ping);
    assert_eq!(
        reason(receive_first(&auth, first)),
        "first frame must be auth"
    );
}

#[test]
fn a_client_that_does_not_authenticate_is_dropped() {
    let auth = TokenAuth::new("secret");
    let cases = [
        (
            FirstMessage::TimedOut("deadline has elapsed".to_string()),
            "auth timeout: deadline has elapsed",
        ),
        (
            FirstMessage::Disconnected,
            "client disconnected before auth",
        ),
        (FirstMessage::Failed("reset".to_string()), "reset"),
        (
            FirstMessage::Received(Message::Close),
            "client closed connection",
        ),
        (
            FirstMessage::Received(Message::Text(Err("eof".to_string()))),
            "invalid client frame: eof",
        ),
    ];
    for (first, message) in cases {
        match receive_first(&auth, first) {
            Admission::Failed(error) => assert_eq!(error.message(), message),
            other => panic!("unexpected admission: {other:?}"),
        }
    }
}

#[test]
fn a_client_has_ten_seconds_to_authenticate() {
    assert_eq!(AUTH_TIMEOUT_SECS, 10);
}

#[test]
fn only_an_admitted_client_has_a_session() {
    assert!(Connection::new().into_session().is_none());
    let auth = TokenAuth::new("secret");
    for first in [
        FirstMessage::TimedOut("deadline has elapsed".to_string()),
        FirstMessage::Disconnected,
        FirstMessage::Failed("reset".to_string()),
        FirstMessage::Received(Message::Close),
        FirstMessage::Received(Message::Ping),
        FirstMessage::Received(Message::Text(Ok(auth_frame("wrong")))),
        FirstMessage::Received(Message::Text(Ok(ClientFrame::ClaimWriter))),
    ] {
        let mut connection = Connection::new();
        assert!(!matches!(
            connection.first(&auth, first),
            Admission::Admitted
        ));
        assert!(connection.into_session().is_none());
    }
}

#[test]
fn a_new_session_has_no_port() {
    let mut hubs = HubTable::new();
    hubs.get_or_open_hub(config("COM3"), Ok(())).unwrap();
    assert_eq!(
        complaint(admitted().handle_frame(&mut hubs, ClientFrame::ClaimWriter)),
        "open a serial port before claiming writer"
    );
}

#[test]
fn whatever_ends_a_session_its_ports_are_freed() {
    for event in [
        SessionEvent::Disconnected,
        SessionEvent::HubClosed,
        SessionEvent::ReceiveFailed("reset".to_string()),
        SessionEvent::Received(Message::Close),
        SessionEvent::Received(Message::Text(Err("eof".to_string()))),
    ] {
        let (mut hubs, a, b) = two_clients();
        a.handle_frame(&mut hubs, ClientFrame::ClaimWriter);
        assert!(matches!(
            a.handle_event(&mut hubs, event),
            Action::End | Action::Fail(_)
        ));
        let broadcasts = a.leave(&mut hubs);
        assert_eq!(broadcasts.len(), 1);
        assert_eq!(broadcasts[0].hub, 0);
        assert!(hubs.authorize_write(0, "a").is_err());
        assert!(b.leave(&mut hubs).is_empty());
    }
}

#[test]
fn session_errors_have_a_brief_form() {
    let open = SessionError::Open {
        port: "COM3".to_string(),
        error: CoreError::Serial("busy".to_string()),
    };
    assert_eq!(
        open.message(),
        "failed to open serial port COM3: serial error: busy"
    );
    assert_eq!(open.brief(), "serial error: busy");
    let timeout = SessionError::AuthTimeout("deadline has elapsed".to_string());
    assert_eq!(timeout.message(), "auth timeout: deadline has elapsed");
    assert_eq!(timeout.brief(), "auth timeout");
    let handshake = SessionError::Handshake {
        peer: "127.0.0.1:50000".to_string(),
        cause: "reset".to_string(),
    };
    assert_eq!(
        handshake.message(),
        "websocket handshake failed for 127.0.0.1:50000: reset"
    );
    assert_eq!(handshake.brief(), "websocket handshake failed: reset");
    assert_eq!(
        SessionError::DisconnectedBeforeAuth.brief(),
        "client disconnected before auth"
    );
    assert_eq!(SessionError::Receive("reset".to_string()).brief(), "reset");
}

#[test]
fn an_accepted_client_has_a_random_name() {
    let first = admitted();
    let second = admitted();
    assert_ne!(first.client_id(), second.client_id());
    let id = first.client_id();
    assert_eq!(id.len(), 36);
    for (i, c) in id.chars().enumerate() {
        match i {
            8 | 13 | 18 | 23 => assert_eq!(c, '-'),
            14 => assert_eq!(c, '4'),
            19 => assert!("89ab".contains(c)),
            _ => assert!("0123456789abcdef".contains(c)),
        }
    }
}

#[test]
fn an_admitted_client_is_greeted() {
    let ports = vec![SerialPortInfo {
        port_name: "COM3".to_string(),
        port_type: "pci".to_string(),
    }];
    let frames = session("a").greet(Ok(ports));
    assert_eq!(frames.len(), 3);
    assert!(matches!(&frames[0], ServerFrame::AuthOk));
    assert!(
        matches!(&frames[1], ServerFrame::Ports { ports } if ports[0].port_name == "COM3" && ports.len() == 1)
    );
    assert!(
        matches!(&frames[2], ServerFrame::Status { status: Status::Connected { client_id } } if client_id == "a")
    );
}

#[test]
fn ports_that_cannot_be_listed_are_none() {
    let frames = session("a").greet(Err(CoreError::Serial("denied".to_string())));
    assert!(matches!(&frames[1], ServerFrame::Ports { ports } if ports.is_empty()));
}

#[test]
fn a_port_is_opened_once_and_shared() {
    let mut hubs = HubTable::new();
    let mut a = session("a");
    let mut b = session("b");
    let frame = ClientFrame::Open {
        config: config("COM3"),
    };
    match a.handle_frame(&mut hubs, frame) {
        Action::Open { config: asked } => assert_eq!(asked, config("COM3")),
        other => panic!("unexpected action: {other:?}"),
    }
    let first = a.opened(&mut hubs, config("COM3"), Ok(())).unwrap();
    assert_eq!(first.hub, 0);
    assert!(matches!(&first.frame, ServerFrame::Opened { config: opened } if *opened == config("COM3")));
    assert!(
        matches!(first.announcement, Some(ServerFrame::Status { status: Status::SerialOpened { port } }) if port == "COM3")
    );
    let second = b.opened(&mut hubs, config("COM3"), Ok(())).unwrap();
    assert_eq!(second.hub, 0);
    assert!(second.announcement.is_none());
    assert_eq!(hubs.len(), 1);
}

#[test]
fn a_port_that_cannot_be_opened_ends_the_session() {
    let mut hubs = HubTable::new();
    let mut a = session("a");
    let error = a
        .opened(
            &mut hubs,
            config("COM3"),
            Err(CoreError::Serial("busy".to_string())),
        )
        .unwrap_err();
    assert_eq!(
        error.message(),
        "failed to open serial port COM3: serial error: busy"
    );
    assert_eq!(
        complaint(a.handle_frame(&mut hubs, ClientFrame::ClaimWriter)),
        "open a serial port before claiming writer"
    );
}

#[test]
fn a_client_without_a_port_is_told_to_open_one() {
    let mut hubs = HubTable::new();
    let a = session("a");
    assert_eq!(
        complaint(a.handle_frame(&mut hubs, ClientFrame::ClaimWriter)),
        "open a serial port before claiming writer"
    );
    assert_eq!(
        complaint(a.handle_frame(&mut hubs, ClientFrame::serial_data(b"x"))),
        "open a serial port before writing"
    );
    assert!(matches!(
        a.handle_frame(&mut hubs, ClientFrame::ReleaseWriter),
        Action::Ignore
    ));
    assert_eq!(
        complaint(a.handle_frame(&mut hubs, auth_frame("secret"))),
        "already authenticated"
    );
}

#[test]
fn heartbeats_are_answered() {
    let (mut hubs, a, _) = two_clients();
    for message in [
        Message::Text(Ok(ClientFrame::Ping)),
        Message::Ping,
        Message::Pong,
    ] {
        assert!(matches!(
            a.handle_event(&mut hubs, SessionEvent::Received(message)),
            Action::Send(ServerFrame::Pong)
        ));
    }
}

#[test]
fn the_first_to_claim_writes() {
    let (mut hubs, a, b) = two_clients();
    match a.handle_frame(&mut hubs, ClientFrame::ClaimWriter) {
        Action::SendAndBroadcast {
            hub,
            frame:
                ServerFrame::Status {
                    status: Status::WriterClaimed { client_id },
                },
        } => {
            assert_eq!(hub, 0);
            assert_eq!(client_id, "a");
        }
        other => panic!("unexpected action: {other:?}"),
    }
    match b.handle_frame(&mut hubs, ClientFrame::ClaimWriter) {
        Action::Send(ServerFrame::Status {
            status: Status::ReadOnly { owner },
        }) => assert_eq!(owner.as_deref(), Some("a")),
        other => panic!("unexpected action: {other:?}"),
    }
    match a.handle_frame(&mut hubs, ClientFrame::serial_data(b"\x00hello\xff")) {
        Action::Write { hub, bytes } => {
            assert_eq!(hub, 0);
            assert_eq!(bytes, b"\x00hello\xff");
        }
        other => panic!("unexpected action: {other:?}"),
    }
    assert_eq!(
        complaint(b.handle_frame(&mut hubs, ClientFrame::serial_data(b"x"))),
        "client does not own writer permission"
    );
}

#[test]
fn a_payload_must_be_base64() {
    let (mut hubs, a, _) = two_clients();
    a.handle_frame(&mut hubs, ClientFrame::ClaimWriter);
    let frame = ClientFrame::SerialData {
        data: "****".to_string(),
    };
    assert_eq!(
        complaint(a.handle_frame(&mut hubs, frame)),
        "invalid serial_data payload: Invalid symbol 42, offset 0."
    );
}

#[test]
fn a_decoded_payload_is_written_by_the_writer_alone() {
    let (mut hubs, a, b) = two_clients();
    a.handle_frame(&mut hubs, ClientFrame::ClaimWriter);
    assert!(matches!(
        a.handle_payload(&hubs, Ok(b"x".to_vec())),
        Action::Write { hub: 0, bytes } if bytes == b"x"
    ));
    assert_eq!(
        complaint(b.handle_payload(&hubs, Ok(b"x".to_vec()))),
        "client does not own writer permission"
    );
    assert_eq!(
        complaint(a.handle_payload(&hubs, Err("bad".to_string()))),
        "invalid serial_data payload: bad"
    );
    assert_eq!(
        complaint(session("c").handle_payload(&hubs, Ok(b"x".to_vec()))),
        "open a serial port before writing"
    );
}

#[test]
fn a_write_is_acknowledged() {
    let a = session("a");
    assert!(matches!(
        a.written(0, Ok(())),
        Action::Send(ServerFrame::Status { status: Status::WriterClaimed { client_id } }) if client_id == "a"
    ));
    assert!(matches!(
        a.written(3, Err("broken pipe".to_string())),
        Action::SendAndBroadcast { hub: 3, frame: ServerFrame::Status { status: Status::Error { message } } }
            if message == "serial write failed: broken pipe"
    ));
}

#[test]
fn a_release_makes_room_for_the_next() {
    let (mut hubs, a, b) = two_clients();
    a.handle_frame(&mut hubs, ClientFrame::ClaimWriter);
    assert_eq!(
        complaint(b.handle_frame(&mut hubs, ClientFrame::ReleaseWriter)),
        "writer is not owned by b"
    );
    assert!(matches!(
        a.handle_frame(&mut hubs, ClientFrame::ReleaseWriter),
        Action::SendAndBroadcast {
            hub: 0,
            frame: ServerFrame::Status {
                status: Status::WriterReleased
            }
        }
    ));
    assert!(matches!(
        a.handle_frame(&mut hubs, ClientFrame::ReleaseWriter),
        Action::Send(ServerFrame::Status {
            status: Status::ReadOnly { owner: None }
        })
    ));
    assert!(matches!(
        b.handle_frame(&mut hubs, ClientFrame::ClaimWriter),
        Action::SendAndBroadcast { .. }
    ));
}

#[test]
fn a_departed_writer_makes_room_for_the_next() {
    let (mut hubs, a, b) = two_clients();
    a.handle_frame(&mut hubs, ClientFrame::ClaimWriter);
    let broadcasts = hubs.disconnect(a.client_id());
    assert_eq!(broadcasts.len(), 1);
    b.handle_frame(&mut hubs, ClientFrame::ClaimWriter);
    assert!(matches!(
        b.handle_frame(&mut hubs, ClientFrame::serial_data(b"x")),
        Action::Write { .. }
    ));
}

#[test]
fn a_client_works_on_the_port_that_it_opened_last() {
    let (mut hubs, mut a, b) = two_clients();
    a.handle_frame(&mut hubs, ClientFrame::ClaimWriter);
    a.opened(&mut hubs, config("COM4"), Ok(())).unwrap();
    assert!(matches!(
        a.handle_frame(&mut hubs, ClientFrame::ClaimWriter),
        Action::SendAndBroadcast { hub: 1, .. }
    ));
    assert!(matches!(
        b.handle_frame(&mut hubs, ClientFrame::ClaimWriter),
        Action::Send(_)
    ));
    let hubs_freed: Vec<usize> = hubs
        .disconnect("a")
        .iter()
        .map(|broadcast| broadcast.hub)
        .collect();
    assert_eq!(hubs_freed, [0, 1]);
}

#[test]
fn events_of_the_port_are_handed_on() {
    let (mut hubs, a, _) = two_clients();
    let frame = ServerFrame::serial_data("COM3", b"x");
    assert!(matches!(
        a.handle_event(&mut hubs, SessionEvent::HubFrame(frame)),
        Action::Send(ServerFrame::SerialData { port, data }) if port == "COM3" && data == "eA=="
    ));
    assert!(matches!(
        a.handle_event(&mut hubs, SessionEvent::HubLagged(12)),
        Action::Send(ServerFrame::Status { status: Status::Error { message } })
            if message == "client skipped 12 serial events"
    ));
}

#[test]
fn a_session_ends() {
    let (mut hubs, a, _) = two_clients();
    assert!(matches!(
        a.handle_event(&mut hubs, SessionEvent::Disconnected),
        Action::End
    ));
    assert!(matches!(
        a.handle_event(&mut hubs, SessionEvent::HubClosed),
        Action::End
    ));
    assert!(matches!(
        a.handle_event(&mut hubs, SessionEvent::ReceiveFailed("reset".to_string())),
        Action::Fail(SessionError::Receive(cause)) if cause == "reset"
    ));
    match a.handle_event(&mut hubs, SessionEvent::Received(Message::Close)) {
        Action::Fail(error) => assert_eq!(error.message(), "client closed connection"),
        other => panic!("unexpected action: {other:?}"),
    }
}

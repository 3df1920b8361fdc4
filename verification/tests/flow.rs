use uart_remote::client::{input_step, InputStep, TerminalClient};
use uart_remote::hub::{reader_step, ReadOutcome, ReaderStep};
use uart_remote::hubs::HubTable;
use uart_remote::protocol::{ClientFrame, SerialConfig, ServerFrame};
use uart_remote::session::{Action, Session, SessionEvent};

fn config(port: &str) -> SerialConfig {
    SerialConfig {
        port: port.to_string(),
        ..SerialConfig::default()
    }
}

fn opened(hubs: &mut HubTable, client_id: &str, port: &str) -> Session {
    let mut session = Session::new(client_id.to_string());
    session.opened(hubs, config(port), Ok(())).unwrap();
    session
}

fn frame_of(action: Action) -> ServerFrame {
    match action {
        Action::Send(frame) | Action::SendAndBroadcast { frame, .. } => frame,
        other => panic!("unexpected action: {other:?}"),
    }
}

fn writer(client: &mut TerminalClient, frame: ServerFrame) -> Option<bool> {
    client.handle_server_frame(frame).unwrap().writer
}

/// A terminal client that has been greeted by the session.
fn greeted(session: &Session) -> TerminalClient {
    let mut client = TerminalClient::new();
    for frame in session.greet(Ok(Vec::new())) {
        client.handle_server_frame(frame).unwrap();
    }
    client
}

#[test]
fn read_bytes_reach_every_client() {
    let mut hubs = HubTable::new();
    let bytes = b"\x00boot\xff".to_vec();
    let frame = match reader_step("COM3", ReadOutcome::Read(bytes.clone())) {
        ReaderStep::Broadcast(frame) => frame,
        other => panic!("unexpected step: {other:?}"),
    };
    for client_id in ["a", "b", "c"] {
        let session = opened(&mut hubs, client_id, "COM3");
        let mut client = greeted(&session);
        let action = session.handle_event(&mut hubs, SessionEvent::HubFrame(frame.clone()));
        let effect = client.handle_server_frame(frame_of(action)).unwrap();
        assert_eq!(effect.output.unwrap(), bytes);
    }
}

#[test]
fn typed_bytes_reach_the_port() {
    let mut hubs = HubTable::new();
    let session = opened(&mut hubs, "a", "COM3");
    session.handle_frame(&mut hubs, ClientFrame::ClaimWriter);
    let frame = match input_step(Ok(b"reset\r\n".to_vec())) {
        InputStep::Send(frame) => frame,
        other => panic!("unexpected step: {other:?}"),
    };
    match session.handle_frame(&mut hubs, frame) {
        Action::Write { hub, bytes } => {
            assert_eq!(hub, 0);
            assert_eq!(bytes, b"reset\r\n");
        }
        other => panic!("unexpected action: {other:?}"),
    }
}

#[test]
fn clients_know_who_writes() {
    let mut hubs = HubTable::new();
    let a = opened(&mut hubs, "a", "COM3");
    let b = opened(&mut hubs, "b", "COM3");
    let mut at_a = greeted(&a);
    let mut at_b = greeted(&b);

    let claimed = frame_of(a.handle_frame(&mut hubs, ClientFrame::ClaimWriter));
    assert_eq!(writer(&mut at_a, claimed.clone()), Some(true));
    assert_eq!(writer(&mut at_b, claimed), Some(false));

    let late = frame_of(b.handle_frame(&mut hubs, ClientFrame::ClaimWriter));
    assert_eq!(writer(&mut at_b, late), Some(false));

    assert_eq!(writer(&mut at_a, frame_of(a.written(0, Ok(())))), Some(true));
    let failed = frame_of(a.written(0, Err("broken pipe".to_string())));
    assert_eq!(writer(&mut at_a, failed), None);

    let freed = hubs.disconnect("a").remove(0).frame;
    assert_eq!(writer(&mut at_b, freed), Some(false));
    let claimed = frame_of(b.handle_frame(&mut hubs, ClientFrame::ClaimWriter));
    assert_eq!(writer(&mut at_b, claimed), Some(true));
}

#[test]
fn others_do_not_change_who_writes() {
    let mut hubs = HubTable::new();
    let a = opened(&mut hubs, "a", "COM3");
    a.handle_frame(&mut hubs, ClientFrame::ClaimWriter);
    for client_id in ["b", "c"] {
        let other = opened(&mut hubs, client_id, "COM3");
        other.handle_frame(&mut hubs, ClientFrame::ClaimWriter);
        other.handle_frame(&mut hubs, ClientFrame::ReleaseWriter);
        other.handle_frame(&mut hubs, ClientFrame::serial_data(b"x"));
        opened(&mut hubs, client_id, "COM4");
        hubs.disconnect(client_id);
        assert!(hubs.authorize_write(0, "a").is_ok());
    }
    assert_eq!(hubs.len(), 2);
    assert_eq!(hubs.find(&config("COM3")), Some(0));
    assert_eq!(hubs.find(&config("COM4")), Some(1));
}

#[test]
fn a_client_that_has_gone_stays_gone() {
    let mut hubs = HubTable::new();
    let a = opened(&mut hubs, "a", "COM3");
    a.handle_frame(&mut hubs, ClientFrame::ClaimWriter);
    hubs.disconnect("a");
    let b = opened(&mut hubs, "b", "COM3");
    b.handle_frame(&mut hubs, ClientFrame::ClaimWriter);
    b.handle_frame(&mut hubs, ClientFrame::ReleaseWriter);
    opened(&mut hubs, "c", "COM4");
    for hub in 0..hubs.len() {
        assert!(hubs.authorize_write(hub, "a").is_err());
    }
}

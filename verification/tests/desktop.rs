use uart_remote::desktop::{
    app_status, bind_failure, connect_failure, default_serial_config, describe_status,
    handle_payload, invalid_bind, runtime_status, serial_text_frame, show_bytes, verify_token, write_status, DesktopEvent, LocalServer,
    RemoteClient, RemoteEvent, RemoteLink,
};
use uart_remote::message::Message;
use uart_remote::protocol::{SerialConfig, SerialPortInfo, ServerFrame, Status};

fn start(
    server: &mut LocalServer,
    parsed: Result<(), String>,
    bound: Result<(), String>,
) -> Result<(), String> {
    server.start("127.0.0.1:9001".to_string(), parsed, bound)
}

fn connect(link: &mut RemoteLink, reached: Result<(), String>) -> Result<(), String> {
    let url = "ws://127.0.0.1:9001".to_string();
    link.connect(url, "COM3".to_string(), reached)
}

fn told(frame: ServerFrame) -> String {
    match RemoteClient::new().handle_remote_frame(frame) {
        Some(DesktopEvent::Status { message }) => message,
        other => panic!("unexpected event: {other:?}"),
    }
}

fn failed(event: Option<DesktopEvent>) -> String {
    match event {
        Some(DesktopEvent::Error { message }) => message,
        other => panic!("unexpected event: {other:?}"),
    }
}

fn shown(event: DesktopEvent) -> (String, String) {
    match event {
        DesktopEvent::SerialData { text, hex } => (text, hex),
        other => panic!("unexpected event: {other:?}"),
    }
}

#[test]
fn the_shell_says_what_it_is() {
    let status = app_status("0.1.0");
    assert_eq!(status.app_name, "UartRemote");
    assert_eq!(status.version, "0.1.0");
    assert!(status.core_ready);
    assert!(status.server_embedded);
    assert_eq!(default_serial_config(), SerialConfig::default());
}

#[test]
fn tokens_are_verified() {
    assert!(verify_token("secret".to_string(), "secret".to_string()));
    assert!(!verify_token("secret".to_string(), "wrong".to_string()));
}

#[test]
fn one_server_runs_at_a_time() {
    let mut server = LocalServer::new();
    assert!(!server.stop());
    server.may_start().unwrap();
    start(&mut server, Ok(()), Ok(())).unwrap();
    assert_eq!(
        server.may_start().unwrap_err(),
        "local server is already running"
    );
    assert!(server.stop());
    server.may_start().unwrap();
}

#[test]
fn failures_to_start_or_connect_are_told() {
    assert_eq!(
        invalid_bind("invalid socket address syntax"),
        "invalid bind address: invalid socket address syntax"
    );
    assert_eq!(
        bind_failure("127.0.0.1:9001", "address in use"),
        "failed to bind 127.0.0.1:9001: address in use"
    );
    assert_eq!(
        connect_failure("ws://127.0.0.1:9001", "refused"),
        "failed to connect to ws://127.0.0.1:9001: refused"
    );
}

#[test]
fn one_remote_port_is_connected_at_a_time() {
    let mut link = RemoteLink::new();
    assert!(!link.disconnect());
    assert_eq!(
        link.may_send().unwrap_err(),
        "remote client is not connected"
    );
    link.may_connect().unwrap();
    connect(&mut link, Ok(())).unwrap();
    link.may_send().unwrap();
    assert_eq!(
        link.may_connect().unwrap_err(),
        "remote client is already connected"
    );
    assert!(link.disconnect());
    link.may_connect().unwrap();
    assert!(link.may_send().is_err());
}

#[test]
fn a_failed_start_changes_nothing() {
    let bad = || Err("syntax".to_string());
    let busy = || Err("in use".to_string());
    let mut server = LocalServer::new();
    let link = RemoteLink::new();
    assert_eq!(
        start(&mut server, bad(), busy()).unwrap_err(),
        "invalid bind address: syntax"
    );
    assert_eq!(
        start(&mut server, Ok(()), busy()).unwrap_err(),
        "failed to bind 127.0.0.1:9001: in use"
    );
    assert_eq!(runtime_status(&server, &link).local_server, None);
    start(&mut server, Ok(()), Ok(())).unwrap();
    let again = server.start("0.0.0.0:1".to_string(), bad(), Ok(()));
    assert_eq!(again.unwrap_err(), "local server is already running");
    assert_eq!(
        runtime_status(&server, &link).local_server.unwrap(),
        "127.0.0.1:9001"
    );
}

#[test]
fn a_failed_connection_changes_nothing() {
    let refused = || Err("refused".to_string());
    let server = LocalServer::new();
    let mut link = RemoteLink::new();
    assert_eq!(
        connect(&mut link, refused()).unwrap_err(),
        "failed to connect to ws://127.0.0.1:9001: refused"
    );
    assert_eq!(runtime_status(&server, &link).remote_client, None);
    connect(&mut link, Ok(())).unwrap();
    let again = link.connect("ws://other".to_string(), "COM4".to_string(), refused());
    assert_eq!(again.unwrap_err(), "remote client is already connected");
    assert_eq!(
        runtime_status(&server, &link).remote_client.unwrap(),
        "ws://127.0.0.1:9001 -> COM3"
    );
}

#[test]
fn the_window_shows_what_runs() {
    let mut server = LocalServer::new();
    let mut link = RemoteLink::new();
    let idle = runtime_status(&server, &link);
    assert_eq!(idle.local_server, None);
    assert_eq!(idle.remote_client, None);
    start(&mut server, Ok(()), Ok(())).unwrap();
    connect(&mut link, Ok(())).unwrap();
    let busy = runtime_status(&server, &link);
    assert_eq!(busy.local_server.unwrap(), "127.0.0.1:9001");
    assert_eq!(busy.remote_client.unwrap(), "ws://127.0.0.1:9001 -> COM3");
}

#[test]
fn statuses_are_described_as_debug_writes_them() {
    let text = || "a \"quoted\"\n端口".to_string();
    for status in [
        Status::Connected { client_id: text() },
        Status::Disconnected { client_id: text() },
        Status::SerialOpened { port: text() },
        Status::SerialClosed { port: text() },
        Status::WriterClaimed { client_id: text() },
        Status::WriterReleased,
        Status::ReadOnly {
            owner: Some(text()),
        },
        Status::ReadOnly { owner: None },
        Status::Error { message: text() },
    ] {
        assert_eq!(describe_status(&status), format!("{status:?}"));
    }
}

#[test]
fn a_status_is_written_around_its_text() {
    let released = Status::WriterReleased;
    assert_eq!(write_status(&released, "unused"), "WriterReleased");
    let nobody = Status::ReadOnly { owner: None };
    assert_eq!(write_status(&nobody, "unused"), "ReadOnly { owner: None }");
    let owned = Status::ReadOnly {
        owner: Some("a".to_string()),
    };
    assert_eq!(
        write_status(&owned, "\"a\""),
        "ReadOnly { owner: Some(\"a\") }"
    );
    let failed = Status::Error {
        message: "busy".to_string(),
    };
    assert_eq!(
        write_status(&failed, "\"busy\""),
        "Error { message: \"busy\" }"
    );
}

#[test]
fn frames_reach_the_window() {
    assert_eq!(told(ServerFrame::AuthOk), "authenticated");
    let ports = vec![
        SerialPortInfo {
            port_name: "COM1".to_string(),
            port_type: "pci".to_string(),
        };
        11
    ];
    assert_eq!(told(ServerFrame::Ports { ports }), "server ports: 11");
    let config = SerialConfig {
        port: "COM3".to_string(),
        ..SerialConfig::default()
    };
    assert_eq!(
        told(ServerFrame::Opened { config }),
        "opened COM3 at 115200 baud"
    );
    let status = Status::Connected {
        client_id: "a".to_string(),
    };
    assert_eq!(
        told(ServerFrame::Status { status }),
        "Connected { client_id: \"a\" }"
    );
    assert!(RemoteClient::new()
        .handle_remote_frame(ServerFrame::Pong)
        .is_none());
}

#[test]
fn errors_reach_the_window() {
    let mut client = RemoteClient::new();
    let reason = "authentication failed".to_string();
    assert_eq!(
        failed(client.handle_remote_frame(ServerFrame::AuthFailed { reason })),
        "authentication failed: authentication failed"
    );
    let message = "busy".to_string();
    assert_eq!(
        failed(client.handle_remote_frame(ServerFrame::Error { message })),
        "busy"
    );
    let frame = ServerFrame::SerialData {
        port: "COM3".to_string(),
        data: "****".to_string(),
    };
    assert_eq!(
        failed(client.handle_remote_frame(frame)),
        "invalid serial data: Invalid symbol 42, offset 0."
    );
}

#[test]
fn bytes_are_shown_as_text_and_in_hexadecimal() {
    let frame = ServerFrame::serial_data("COM3", b"\x00hello\xff");
    let event = RemoteClient::new().handle_remote_frame(frame).unwrap();
    let (text, hex) = shown(event);
    assert_eq!(text, "\0hello\u{fffd}");
    assert_eq!(hex, "00 68 65 6C 6C 6F FF");
    let (text, hex) = shown(handle_payload(Ok("端".as_bytes().to_vec())));
    assert_eq!(text, "端");
    assert_eq!(hex, "E7 AB AF");
    let (text, hex) = shown(show_bytes(b"hi", "as told".to_string()));
    assert_eq!(text, "as told");
    assert_eq!(hex, "68 69");
    assert_eq!(
        failed(Some(handle_payload(Err("bad".to_string())))),
        "invalid serial data: bad"
    );
}

#[test]
fn an_echoed_text_comes_back() {
    let text = "AT+GMR\r\n端口";
    let bytes = serial_text_frame(text).decode_data().unwrap();
    assert_eq!(bytes, text.as_bytes());
    let frame = ServerFrame::serial_data("COM3", &bytes);
    let event = RemoteClient::new().handle_remote_frame(frame).unwrap();
    assert_eq!(shown(event).0, text);
}

#[test]
fn the_connection_goes_on_until_it_ends() {
    let mut client = RemoteClient::new();
    let cause = || "reset".to_string();
    let cases = [
        (
            RemoteEvent::EncodeFailed(cause()),
            "encode frame failed: reset",
            false,
        ),
        (
            RemoteEvent::SendFailed(cause()),
            "remote send failed: reset",
            true,
        ),
        (
            RemoteEvent::ReceiveFailed(cause()),
            "remote receive failed: reset",
            true,
        ),
        (
            RemoteEvent::Received(Message::Text(Err("eof".to_string()))),
            "eof",
            false,
        ),
        (
            RemoteEvent::Received(Message::Close),
            "server closed connection",
            false,
        ),
        (
            RemoteEvent::Received(Message::Raw),
            "unexpected raw websocket frame",
            false,
        ),
    ];
    for (event, message, stop) in cases {
        let step = client.handle_event(event);
        assert_eq!(step.stop, stop);
        assert_eq!(failed(step.event), message);
    }
    let step = client.handle_event(RemoteEvent::OutgoingClosed);
    assert!(step.stop && step.event.is_none());
    let step = client.handle_event(RemoteEvent::Disconnected);
    assert!(step.stop);
    assert!(
        matches!(step.event, Some(DesktopEvent::Status { message }) if message == "remote disconnected")
    );
    let step = client.handle_event(RemoteEvent::Received(Message::Ping));
    assert!(!step.stop && step.event.is_none());
    let step = client.handle_event(RemoteEvent::Received(Message::Text(Ok(ServerFrame::AuthOk))));
    assert!(!step.stop);
    assert!(
        matches!(step.event, Some(DesktopEvent::Status { message }) if message == "authenticated")
    );
}

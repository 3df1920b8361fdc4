use uart_remote::client::{
    handle_payload, input_step, opening_frames, print_status, requested_config, CliDataBits,
    CliParity, CliStopBits, ClientError, Effect, InputGate, InputStep, TerminalClient,
};
use uart_remote::protocol::{
    ClientFrame, DataBits, Parity, SerialConfig, SerialPortInfo, ServerFrame, Status, StopBits,
};

fn effect(client: &mut TerminalClient, frame: ServerFrame) -> Effect {
    client.handle_server_frame(frame).unwrap()
}

fn line(frame: ServerFrame) -> Option<String> {
    effect(&mut TerminalClient::new(), frame).line
}

fn of(status: Status) -> ServerFrame {
    ServerFrame::Status { status }
}

fn named(client_id: &str) -> TerminalClient {
    let mut client = TerminalClient::new();
    let connected = of(Status::Connected {
        client_id: client_id.to_string(),
    });
    assert_eq!(effect(&mut client, connected).writer, None);
    client
}

fn port(port_name: &str) -> SerialPortInfo {
    SerialPortInfo {
        port_name: port_name.to_string(),
        port_type: "pci".to_string(),
    }
}

#[test]
fn arguments_become_a_configuration() {
    let config = requested_config(
        "COM3".to_string(),
        9600,
        CliDataBits::Seven,
        CliStopBits::Two,
        CliParity::Even,
    );
    assert_eq!(config.service_key(), "COM3:9600:Seven:Two:Even");
}

#[test]
fn every_argument_has_its_setting() {
    assert_eq!(DataBits::from(CliDataBits::Five), DataBits::Five);
    assert_eq!(DataBits::from(CliDataBits::Six), DataBits::Six);
    assert_eq!(DataBits::from(CliDataBits::Seven), DataBits::Seven);
    assert_eq!(DataBits::from(CliDataBits::Eight), DataBits::Eight);
    assert_eq!(StopBits::from(CliStopBits::One), StopBits::One);
    assert_eq!(StopBits::from(CliStopBits::Two), StopBits::Two);
    assert_eq!(Parity::from(CliParity::NoParity), Parity::NoParity);
    assert_eq!(Parity::from(CliParity::Odd), Parity::Odd);
    assert_eq!(Parity::from(CliParity::Even), Parity::Even);
}

#[test]
fn a_client_authenticates_opens_and_claims() {
    let frames = opening_frames("secret".to_string(), SerialConfig::default(), true);
    assert_eq!(frames.len(), 3);
    assert!(matches!(&frames[0], ClientFrame::Auth { token } if token == "secret"));
    assert!(matches!(&frames[1], ClientFrame::Open { config } if *config == SerialConfig::default()));
    assert!(matches!(&frames[2], ClientFrame::ClaimWriter));
}

#[test]
fn a_client_that_only_reads_does_not_claim() {
    let frames = opening_frames("secret".to_string(), SerialConfig::default(), false);
    assert_eq!(frames.len(), 2);
    assert!(matches!(&frames[1], ClientFrame::Open { .. }));
}

#[test]
fn frames_are_told_in_lines() {
    assert_eq!(line(ServerFrame::AuthOk).unwrap(), "authenticated");
    let ports = vec![port("COM1"), port("COM3"), port("COM4")];
    assert_eq!(
        line(ServerFrame::Ports { ports }).unwrap(),
        "server ports: COM1, COM3, COM4"
    );
    assert_eq!(
        line(ServerFrame::Ports { ports: Vec::new() }).unwrap(),
        "server ports: "
    );
    let config = SerialConfig {
        port: "COM3".to_string(),
        ..SerialConfig::default()
    };
    assert_eq!(
        line(ServerFrame::Opened { config }).unwrap(),
        "opened remote serial port COM3 at 115200 baud"
    );
    let message = "busy".to_string();
    assert_eq!(
        line(ServerFrame::Error { message }).unwrap(),
        "server error: busy"
    );
    assert_eq!(line(ServerFrame::Pong), None);
}

#[test]
fn statuses_are_told_in_lines() {
    let a = || "a".to_string();
    let cases = [
        (Status::Connected { client_id: a() }, "connected as a"),
        (
            Status::Disconnected { client_id: a() },
            "client disconnected: a",
        ),
        (Status::SerialOpened { port: a() }, "serial opened: a"),
        (Status::SerialClosed { port: a() }, "serial closed: a"),
        (
            Status::WriterClaimed { client_id: a() },
            "writer claimed by a",
        ),
        (Status::WriterReleased, "writer released"),
        (
            Status::ReadOnly { owner: Some(a()) },
            "read-only mode; writer owned by a",
        ),
        (Status::ReadOnly { owner: None }, "read-only mode"),
        (Status::Error { message: a() }, "status error: a"),
    ];
    for (status, text) in cases {
        assert_eq!(print_status(&status), text);
        assert_eq!(line(of(status)).unwrap(), text);
    }
}

#[test]
fn a_refused_client_gives_up() {
    let error = TerminalClient::new()
        .handle_server_frame(ServerFrame::AuthFailed {
            reason: "first frame must be auth".to_string(),
        })
        .unwrap_err();
    assert_eq!(
        error.message(),
        "authentication failed: first frame must be auth"
    );
}

#[test]
fn serial_data_is_shown() {
    let shown = effect(
        &mut TerminalClient::new(),
        ServerFrame::serial_data("COM3", b"\x00hello\xff"),
    );
    assert_eq!(shown.output.unwrap(), b"\x00hello\xff");
    assert_eq!(shown.line, None);
    assert_eq!(shown.writer, None);
}

#[test]
fn serial_data_that_is_not_base64_ends_the_client() {
    let frame = ServerFrame::SerialData {
        port: "COM3".to_string(),
        data: "aGk".to_string(),
    };
    let error = TerminalClient::new()
        .handle_server_frame(frame)
        .unwrap_err();
    assert!(matches!(&error, ClientError::InvalidSerialData(_)));
    assert_eq!(
        error.message(),
        "invalid serial data from server: Invalid padding"
    );
}

#[test]
fn a_decoded_payload_is_shown() {
    assert_eq!(
        handle_payload(Ok(b"hi".to_vec())).unwrap().output.unwrap(),
        b"hi"
    );
    assert_eq!(
        handle_payload(Err("bad".to_string())).unwrap_err().message(),
        "invalid serial data from server: bad"
    );
}

#[test]
fn a_client_writes_while_it_is_the_writer() {
    let mut client = named("a");
    let claimed = |client_id: &str| {
        of(Status::WriterClaimed {
            client_id: client_id.to_string(),
        })
    };
    assert_eq!(effect(&mut client, claimed("a")).writer, Some(true));
    assert_eq!(effect(&mut client, claimed("b")).writer, Some(false));
    assert_eq!(
        effect(&mut client, of(Status::WriterReleased)).writer,
        Some(false)
    );
    let read_only = of(Status::ReadOnly { owner: None });
    assert_eq!(effect(&mut client, read_only).writer, Some(false));
    let failed = of(Status::Error {
        message: "serial write failed: broken pipe".to_string(),
    });
    assert_eq!(effect(&mut client, failed).writer, None);
}

#[test]
fn a_client_without_a_name_is_not_the_writer() {
    let claimed = of(Status::WriterClaimed {
        client_id: "a".to_string(),
    });
    assert_eq!(
        effect(&mut TerminalClient::new(), claimed).writer,
        Some(false)
    );
}

#[test]
fn input_waits_for_the_right_to_write() {
    let mut gate = InputGate::new();
    assert!(!gate.may_read());
    for (writer, open) in [
        (None, false),
        (Some(true), true),
        (None, true),
        (Some(false), false),
        (None, false),
        (Some(true), true),
        (Some(true), true),
    ] {
        gate.told(writer);
        assert_eq!(gate.may_read(), open);
    }
}

#[test]
fn input_is_sent_until_it_ends() {
    match input_step(Ok(b"at\r\n".to_vec())) {
        InputStep::Send(frame) => assert_eq!(frame.decode_data().unwrap(), b"at\r\n"),
        other => panic!("unexpected step: {other:?}"),
    }
    assert!(matches!(input_step(Ok(Vec::new())), InputStep::Stop));
    match input_step(Err("closed".to_string())) {
        InputStep::Fail(line) => assert_eq!(line, "stdin read failed: closed"),
        other => panic!("unexpected step: {other:?}"),
    }
}

use uart_remote::error::CoreError;
use uart_remote::hub::{finish_write, reader_step, ReadOutcome, ReaderStep, SerialHub};
use uart_remote::hubs::HubTable;
use uart_remote::protocol::{SerialConfig, ServerFrame, Status};

fn config(port: &str) -> SerialConfig {
    SerialConfig {
        port: port.to_string(),
        ..SerialConfig::default()
    }
}

fn status(frame: &ServerFrame) -> &Status {
    match frame {
        ServerFrame::Status { status } => status,
        other => panic!("unexpected frame: {other:?}"),
    }
}

fn message(frame: &ServerFrame) -> &str {
    match frame {
        ServerFrame::Error { message } => message,
        other => panic!("unexpected frame: {other:?}"),
    }
}

fn claimed_by(client_id: &str) -> Status {
    Status::WriterClaimed {
        client_id: client_id.to_string(),
    }
}

#[test]
fn an_opened_port_is_announced() {
    let (hub, frame) = SerialHub::open(config("COM3"));
    assert_eq!(
        status(&frame),
        &Status::SerialOpened {
            port: "COM3".to_string()
        }
    );
    let refusal = hub.authorize_write("a").unwrap_err();
    assert_eq!(message(&refusal), "client does not own writer permission");
}

#[test]
fn a_claim_is_broadcast_and_a_late_one_is_not() {
    let (mut hub, _) = SerialHub::open(config("COM3"));
    let reply = hub.claim_writer("a");
    assert!(reply.broadcast);
    assert_eq!(status(&reply.frame), &claimed_by("a"));
    let again = hub.claim_writer("a");
    assert!(again.broadcast);
    assert_eq!(status(&again.frame), &claimed_by("a"));
    let late = hub.claim_writer("b");
    assert!(!late.broadcast);
    assert_eq!(
        status(&late.frame),
        &Status::ReadOnly {
            owner: Some("a".to_string())
        }
    );
    assert!(hub.authorize_write("a").is_ok());
    assert!(hub.authorize_write("b").is_err());
}

#[test]
fn a_release_is_broadcast_only_by_the_owner() {
    let (mut hub, _) = SerialHub::open(config("COM3"));
    let free = hub.release_writer("a");
    assert!(!free.broadcast);
    assert_eq!(status(&free.frame), &Status::ReadOnly { owner: None });
    hub.claim_writer("a");
    let stranger = hub.release_writer("b");
    assert!(!stranger.broadcast);
    assert_eq!(message(&stranger.frame), "writer is not owned by b");
    let owner = hub.release_writer("a");
    assert!(owner.broadcast);
    assert_eq!(status(&owner.frame), &Status::WriterReleased);
    assert!(hub.authorize_write("a").is_err());
}

#[test]
fn a_departed_writer_frees_the_port() {
    let (mut hub, _) = SerialHub::open(config("COM3"));
    hub.claim_writer("a");
    assert!(hub.cleanup_client("b").is_none());
    assert!(hub.authorize_write("a").is_ok());
    let frame = hub.cleanup_client("a").unwrap();
    assert_eq!(status(&frame), &Status::WriterReleased);
    assert!(hub.cleanup_client("a").is_none());
    assert!(hub.claim_writer("b").broadcast);
}

#[test]
fn a_failed_write_is_broadcast() {
    let done = finish_write("a", Ok(()));
    assert!(!done.broadcast);
    assert_eq!(status(&done.frame), &claimed_by("a"));
    let failed = finish_write("a", Err("broken pipe".to_string()));
    assert!(failed.broadcast);
    assert_eq!(
        status(&failed.frame),
        &Status::Error {
            message: "serial write failed: broken pipe".to_string()
        }
    );
}

#[test]
fn bytes_are_broadcast_and_silence_is_not() {
    assert!(matches!(
        reader_step("COM3", ReadOutcome::Read(Vec::new())),
        ReaderStep::Continue
    ));
    assert!(matches!(
        reader_step("COM3", ReadOutcome::TimedOut),
        ReaderStep::Continue
    ));
    match reader_step("COM3", ReadOutcome::Read(b"\x00hello\xff".to_vec())) {
        ReaderStep::Broadcast(ServerFrame::SerialData { port, data }) => {
            assert_eq!(port, "COM3");
            assert_eq!(data, "AGhlbGxv/w==");
        }
        other => panic!("unexpected step: {other:?}"),
    }
}

#[test]
fn a_read_error_closes_the_port() {
    match reader_step("COM3", ReadOutcome::Failed("unplugged".to_string())) {
        ReaderStep::Stop(failed, closed) => {
            assert_eq!(
                status(&failed),
                &Status::Error {
                    message: "serial read failed on COM3: unplugged".to_string()
                }
            );
            assert_eq!(
                status(&closed),
                &Status::SerialClosed {
                    port: "COM3".to_string()
                }
            );
        }
        other => panic!("unexpected step: {other:?}"),
    }
}

#[test]
fn each_configuration_has_one_hub() {
    let mut table = HubTable::new();
    assert_eq!(table.len(), 0);
    assert_eq!(table.find(&config("COM3")), None);

    let first = table.get_or_open_hub(config("COM3"), Ok(())).unwrap();
    assert_eq!(first.hub, 0);
    assert_eq!(
        status(&first.announcement.unwrap()),
        &Status::SerialOpened {
            port: "COM3".to_string()
        }
    );
    let again = table.get_or_open_hub(config("COM3"), Ok(())).unwrap();
    assert_eq!(again.hub, 0);
    assert!(again.announcement.is_none());

    let faster = SerialConfig {
        baud_rate: 230_400,
        ..config("COM3")
    };
    let second = table.get_or_open_hub(faster.clone(), Ok(())).unwrap();
    assert_eq!(second.hub, 1);
    assert_eq!(table.len(), 2);
    assert_eq!(table.find(&config("COM3")), Some(0));
    assert_eq!(table.find(&faster), Some(1));
}

#[test]
fn a_port_that_cannot_be_opened_has_no_hub() {
    let mut table = HubTable::new();
    let error = table
        .get_or_open_hub(config("COM3"), Err(CoreError::Serial("busy".to_string())))
        .unwrap_err();
    assert_eq!(error.message(), "serial error: busy");
    assert_eq!(table.len(), 0);
}

#[test]
fn an_open_port_does_not_depend_on_another_attempt() {
    let mut table = HubTable::new();
    table.get_or_open_hub(config("COM3"), Ok(())).unwrap();
    let open = table
        .get_or_open_hub(config("COM3"), Err(CoreError::Serial("busy".to_string())))
        .unwrap();
    assert_eq!(open.hub, 0);
    assert!(open.announcement.is_none());
}

#[test]
fn a_departure_frees_every_port_of_the_client() {
    let mut table = HubTable::new();
    for port in ["COM1", "COM2", "COM3"] {
        table.get_or_open_hub(config(port), Ok(())).unwrap();
    }
    table.claim_writer(0, "a");
    table.claim_writer(1, "b");
    table.claim_writer(2, "a");

    let broadcasts = table.disconnect("a");
    let hubs: Vec<usize> = broadcasts.iter().map(|broadcast| broadcast.hub).collect();
    assert_eq!(hubs, [0, 2]);
    for broadcast in &broadcasts {
        assert_eq!(status(&broadcast.frame), &Status::WriterReleased);
    }
    assert!(table.authorize_write(0, "a").is_err());
    assert!(table.authorize_write(1, "b").is_ok());
    assert!(table.disconnect("a").is_empty());
    assert!(table.claim_writer(0, "c").broadcast);
}

#[test]
fn ports_are_claimed_one_by_one() {
    let mut table = HubTable::new();
    table.get_or_open_hub(config("COM1"), Ok(())).unwrap();
    table.get_or_open_hub(config("COM2"), Ok(())).unwrap();
    assert!(table.claim_writer(0, "a").broadcast);
    assert!(table.claim_writer(1, "b").broadcast);
    assert!(!table.release_writer(1, "a").broadcast);
    assert!(table.release_writer(0, "a").broadcast);
    assert!(table.authorize_write(1, "b").is_ok());
    assert!(table.authorize_write(0, "a").is_err());
}

#[test]
fn a_run_of_reads_is_broadcast_until_one_fails() {
    let reads = [
        ReadOutcome::Read(b"bo".to_vec()),
        ReadOutcome::TimedOut,
        ReadOutcome::Read(Vec::new()),
        ReadOutcome::Read(b"ot".to_vec()),
        ReadOutcome::Failed("unplugged".to_string()),
        ReadOutcome::Read(b"lost".to_vec()),
    ];
    let mut frames: Vec<ServerFrame> = Vec::new();
    for read in reads {
        match reader_step("COM3", read) {
            ReaderStep::Continue => {}
            ReaderStep::Broadcast(frame) => frames.push(frame),
            ReaderStep::Stop(failed, closed) => {
                frames.push(failed);
                frames.push(closed);
                break;
            }
        }
    }
    assert_eq!(frames.len(), 4);
    let bytes: Vec<u8> = frames
        .iter()
        .filter_map(|frame| frame.decode_data())
        .flatten()
        .collect();
    assert_eq!(bytes, b"boot");
    assert!(matches!(status(&frames[2]), Status::Error { .. }));
    assert!(matches!(status(&frames[3]), Status::SerialClosed { .. }));
}

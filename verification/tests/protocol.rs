use uart_remote::error::CoreError;
use uart_remote::protocol::{
    default_baud_rate, default_data_bits, default_parity, default_stop_bits, ClientFrame, DataBits,
    Parity, SerialConfig, SerialPortInfo, ServerFrame, Status, StopBits,
};

fn config(port: &str) -> SerialConfig {
    SerialConfig {
        port: port.to_string(),
        ..SerialConfig::default()
    }
}

#[test]
fn serial_data_uses_base64_payloads() {
    let frame = ServerFrame::serial_data("COM1", b"\x00hello\xff");
    assert_eq!(frame.decode_data().unwrap(), b"\x00hello\xff");
}

#[test]
fn payloads_are_standard_padded_base64() {
    match ServerFrame::serial_data("COM1", b"\x00hello\xff") {
        ServerFrame::SerialData { port, data } => {
            assert_eq!(port, "COM1");
            assert_eq!(data, "AGhlbGxv/w==");
        }
        other => panic!("unexpected frame: {other:?}"),
    }
    match ClientFrame::serial_data(b"hi") {
        ClientFrame::SerialData { data } => assert_eq!(data, "aGk="),
        other => panic!("unexpected frame: {other:?}"),
    }
}

#[test]
fn every_byte_comes_back() {
    let all: Vec<u8> = (0..=255).collect();
    for len in 0..all.len() {
        let bytes = &all[..len];
        assert_eq!(ClientFrame::serial_data(bytes).decode_data().unwrap(), bytes);
        let frame = ServerFrame::serial_data(String::from("COM1"), bytes);
        assert_eq!(frame.decode_data().unwrap(), bytes);
    }
}

#[test]
fn frames_without_a_payload_carry_no_bytes() {
    assert_eq!(ClientFrame::Ping.decode_data(), None);
    assert_eq!(ClientFrame::ClaimWriter.decode_data(), None);
    assert_eq!(ServerFrame::Pong.decode_data(), None);
    assert_eq!(ServerFrame::AuthOk.decode_data(), None);
}

#[test]
fn a_payload_that_is_not_base64_carries_no_bytes() {
    for data in ["****", "aGk", "aGl=", "aGk=\n", "a"] {
        let frame = ClientFrame::SerialData {
            data: data.to_string(),
        };
        assert_eq!(frame.decode_data(), None, "{data}");
        let frame = ServerFrame::SerialData {
            port: "COM1".to_string(),
            data: data.to_string(),
        };
        assert_eq!(frame.decode_data(), None, "{data}");
    }
}

#[test]
fn the_default_is_115200_8n1() {
    assert_eq!(default_baud_rate(), 115_200);
    assert_eq!(default_data_bits(), DataBits::Eight);
    assert_eq!(default_stop_bits(), StopBits::One);
    assert_eq!(default_parity(), Parity::NoParity);
    let config = SerialConfig::default();
    assert_eq!(config.port, "");
    assert_eq!(config.baud_rate, 115_200);
    assert_eq!(config.data_bits, DataBits::Eight);
    assert_eq!(config.stop_bits, StopBits::One);
    assert_eq!(config.parity, Parity::NoParity);
}

#[test]
fn a_key_names_every_setting() {
    assert_eq!(config("COM3").service_key(), "COM3:115200:Eight:One:None");
    let other = SerialConfig {
        port: "/dev/ttyUSB0".to_string(),
        baud_rate: 9600,
        data_bits: DataBits::Seven,
        stop_bits: StopBits::Two,
        parity: Parity::Even,
    };
    assert_eq!(other.service_key(), "/dev/ttyUSB0:9600:Seven:Two:Even");
    let extreme = SerialConfig {
        port: String::new(),
        baud_rate: u32::MAX,
        data_bits: DataBits::Five,
        stop_bits: StopBits::One,
        parity: Parity::Odd,
    };
    assert_eq!(extreme.service_key(), ":4294967295:Five:One:Odd");
    let zero = SerialConfig {
        baud_rate: 0,
        data_bits: DataBits::Six,
        ..config("p")
    };
    assert_eq!(zero.service_key(), "p:0:Six:One:None");
}

#[test]
fn keys_tell_configurations_apart() {
    let configs = [
        config("COM3"),
        config("COM4"),
        config("COM3:115200:Eight:One:None"),
        SerialConfig {
            baud_rate: 11_520,
            ..config("COM3")
        },
        SerialConfig {
            data_bits: DataBits::Seven,
            ..config("COM3")
        },
        SerialConfig {
            stop_bits: StopBits::Two,
            ..config("COM3")
        },
        SerialConfig {
            parity: Parity::Odd,
            ..config("COM3")
        },
    ];
    for (i, left) in configs.iter().enumerate() {
        for (j, right) in configs.iter().enumerate() {
            assert_eq!(left == right, i == j);
            assert_eq!(left.service_key() == right.service_key(), i == j);
        }
    }
}

#[test]
fn copies_are_equal() {
    let config = config("COM3");
    assert_eq!(config.clone(), config);
    let info = SerialPortInfo {
        port_name: "COM3".to_string(),
        port_type: "pci".to_string(),
    };
    assert_eq!(info.clone(), info);
    let statuses = [
        Status::Connected {
            client_id: "a".to_string(),
        },
        Status::Disconnected {
            client_id: "a".to_string(),
        },
        Status::SerialOpened {
            port: "a".to_string(),
        },
        Status::SerialClosed {
            port: "a".to_string(),
        },
        Status::WriterClaimed {
            client_id: "a".to_string(),
        },
        Status::WriterReleased,
        Status::ReadOnly { owner: None },
        Status::ReadOnly {
            owner: Some("a".to_string()),
        },
        Status::Error {
            message: "a".to_string(),
        },
    ];
    for (i, left) in statuses.iter().enumerate() {
        assert_eq!(&left.clone(), left);
        for (j, right) in statuses.iter().enumerate() {
            assert_eq!(left == right, i == j);
        }
    }
    assert_ne!(
        Status::Error {
            message: "a".to_string()
        },
        Status::Error {
            message: "b".to_string()
        }
    );
}

#[test]
fn copies_of_frames_hold_the_same() {
    let client = [
        ClientFrame::Auth {
            token: "t".to_string(),
        },
        ClientFrame::Open {
            config: config("COM3"),
        },
        ClientFrame::ClaimWriter,
        ClientFrame::ReleaseWriter,
        ClientFrame::serial_data(b"x"),
        ClientFrame::Ping,
    ];
    for frame in &client {
        assert_eq!(format!("{:?}", frame.clone()), format!("{frame:?}"));
    }
    let server = [
        ServerFrame::AuthOk,
        ServerFrame::AuthFailed {
            reason: "r".to_string(),
        },
        ServerFrame::Ports {
            ports: vec![SerialPortInfo {
                port_name: "COM3".to_string(),
                port_type: "pci".to_string(),
            }],
        },
        ServerFrame::Opened {
            config: config("COM3"),
        },
        ServerFrame::serial_data("COM3", b"x"),
        ServerFrame::Status {
            status: Status::WriterReleased,
        },
        ServerFrame::Pong,
        ServerFrame::Error {
            message: "m".to_string(),
        },
    ];
    for frame in &server {
        assert_eq!(format!("{:?}", frame.clone()), format!("{frame:?}"));
    }
}

#[test]
fn errors_say_what_went_wrong() {
    let errors = [
        (CoreError::AuthFailed, "authentication failed"),
        (
            CoreError::WriterAlreadyClaimed("a".to_string()),
            "writer is already claimed by a",
        ),
        (
            CoreError::WriterNotOwned("b".to_string()),
            "writer is not owned by b",
        ),
        (
            CoreError::Serial("no such port".to_string()),
            "serial error: no such port",
        ),
        (
            CoreError::InvalidFrame("eof".to_string()),
            "invalid protocol frame: eof",
        ),
    ];
    for (error, message) in errors {
        assert_eq!(error.message(), message);
    }
}

#[test]
fn a_decoded_frame_is_written_the_same_again() {
    for data in ["", "eA==", "aGk=", "AGhlbGxv/w=="] {
        let frame = ClientFrame::SerialData {
            data: data.to_string(),
        };
        let again = ClientFrame::serial_data(&frame.decode_data().unwrap());
        assert_eq!(format!("{again:?}"), format!("{frame:?}"));
    }
}

use uart_remote::error::CoreError;
use uart_remote::protocol::{DataBits, Parity, SerialConfig, StopBits};
use uart_remote::serial::{
    describe_port_type, list_serial_ports, open_serial_port, to_serial_data_bits,
    to_serial_stop_bits, FoundPort, PortSettings, PortType,
};

#[test]
fn port_types_are_described() {
    let types = [
        (
            PortType::Usb {
                product: Some("CP2102".to_string()),
            },
            "usb:CP2102",
        ),
        (PortType::Usb { product: None }, "usb:USB serial"),
        (PortType::Pci, "pci"),
        (PortType::Bluetooth, "bluetooth"),
        (PortType::Unknown, "unknown"),
    ];
    for (port_type, text) in types {
        assert_eq!(describe_port_type(&port_type), text);
    }
}

#[test]
fn ports_are_listed_in_order() {
    let found = vec![
        FoundPort {
            port_name: "COM3".to_string(),
            port_type: PortType::Usb { product: None },
        },
        FoundPort {
            port_name: "COM1".to_string(),
            port_type: PortType::Pci,
        },
    ];
    let ports = list_serial_ports(Ok(found)).unwrap();
    let listed: Vec<(&str, &str)> = ports
        .iter()
        .map(|port| (port.port_name.as_str(), port.port_type.as_str()))
        .collect();
    assert_eq!(listed, [("COM3", "usb:USB serial"), ("COM1", "pci")]);
    assert!(list_serial_ports(Ok(Vec::new())).unwrap().is_empty());
}

#[test]
fn an_error_of_the_search_is_a_serial_error() {
    let error = list_serial_ports(Err("denied".to_string())).unwrap_err();
    assert!(matches!(&error, CoreError::Serial(cause) if cause == "denied"));
    assert_eq!(error.message(), "serial error: denied");
}

#[test]
fn settings_follow_the_configuration() {
    let config = SerialConfig {
        port: "/dev/ttyS0".to_string(),
        baud_rate: 9600,
        data_bits: DataBits::Seven,
        stop_bits: StopBits::Two,
        parity: Parity::Even,
    };
    let settings = PortSettings::of(&config);
    assert_eq!(settings.path, "/dev/ttyS0");
    assert_eq!(settings.baud_rate, 9600);
    assert_eq!(settings.data_bits, 7);
    assert_eq!(settings.stop_bits, 2);
    assert_eq!(settings.parity, Parity::Even);
    assert_eq!(settings.timeout_millis, 100);
}

#[test]
fn bits_are_counted() {
    assert_eq!(to_serial_data_bits(DataBits::Five), 5);
    assert_eq!(to_serial_data_bits(DataBits::Six), 6);
    assert_eq!(to_serial_data_bits(DataBits::Seven), 7);
    assert_eq!(to_serial_data_bits(DataBits::Eight), 8);
    assert_eq!(to_serial_stop_bits(StopBits::One), 1);
    assert_eq!(to_serial_stop_bits(StopBits::Two), 2);
}

#[test]
fn settings_are_ones_that_ports_have() {
    for (bits, serial) in [
        (DataBits::Five, serialport::DataBits::Five),
        (DataBits::Six, serialport::DataBits::Six),
        (DataBits::Seven, serialport::DataBits::Seven),
        (DataBits::Eight, serialport::DataBits::Eight),
    ] {
        let converted = serialport::DataBits::try_from(to_serial_data_bits(bits));
        assert_eq!(converted.unwrap(), serial);
    }
    for (bits, serial) in [
        (StopBits::One, serialport::StopBits::One),
        (StopBits::Two, serialport::StopBits::Two),
    ] {
        let converted = serialport::StopBits::try_from(to_serial_stop_bits(bits));
        assert_eq!(converted.unwrap(), serial);
    }
}

#[test]
fn an_opened_port_is_handed_on() {
    assert_eq!(open_serial_port(Ok(7)).unwrap(), 7);
    let error = open_serial_port::<u8>(Err("no such port".to_string())).unwrap_err();
    assert_eq!(error.message(), "serial error: no such port");
}

//! Serial ports as the operating system has them: which there are, and how one is opened.
use crate::error::CoreError;
#[allow(unused_imports)]
use crate::error::CoreErrorView;
use crate::protocol::{DataBits, Parity, SerialConfig, SerialPortInfo, StopBits};
#[allow(unused_imports)]
use crate::protocol::{SerialConfigView, SerialPortInfoView, ports_view};
use crate::text::concat;
use vstd::prelude::*;

verus! {

/// How a port is connected.
#[derive(Debug)]
pub enum PortType {
    /// By USB; the device may have told its product name.
    Usb { product: Option<String> },
    Pci,
    Bluetooth,
    Unknown,
}

/// A port that the operating system has found.
#[derive(Debug)]
pub struct FoundPort {
    pub port_name: String,
    pub port_type: PortType,
}

/// How a port's connection is described to a client.
pub open spec fn port_type_text(port_type: PortType) -> Seq<char> {
    match port_type {
        PortType::Usb { product } => "usb:"@ + match product {
            Some(product) => product@,
            None => "USB serial"@,
        },
        PortType::Pci => "pci"@,
        PortType::Bluetooth => "bluetooth"@,
        PortType::Unknown => "unknown"@,
    }
}

/// How a port is described to a client.
pub open spec fn port_info(port: FoundPort) -> SerialPortInfoView {
    SerialPortInfoView { port_name: port.port_name@, port_type: port_type_text(port.port_type) }
}

/// How a port's connection is described to a client.
pub fn describe_port_type(port_type: &PortType) -> (text: String)
    ensures
        text@ == port_type_text(*port_type),
{
    match port_type {
        PortType::Usb { product } => match product {
            Some(product) => concat("usb:", product),
            None => concat("usb:", "USB serial"),
        },
        PortType::Pci => String::from("pci"),
        PortType::Bluetooth => String::from("bluetooth"),
        PortType::Unknown => String::from("unknown"),
    }
}

/// The ports as a client is told of them, in the order in which they were found, or the error that
/// came of looking for them.
pub fn list_serial_ports(found: Result<Vec<FoundPort>, String>) -> (listed: Result<
    Vec<SerialPortInfo>,
    CoreError,
>)
    ensures
        match (found, listed) {
            (Ok(found), Ok(ports)) => {
                &&& ports_view(ports@) == found@.map_values(|port: FoundPort| port_info(port))
                &&& ports.len() == found.len()
                &&& forall|i: int|
                    0 <= i < ports.len() ==> (#[trigger] ports[i]).port_name@
                        == found[i].port_name@
            },
            (Err(cause), Err(error)) => error@ == CoreErrorView::Serial(cause@),
            _ => false,
        },
{
    let found = match found {
        Ok(found) => found,
        Err(cause) => return Err(CoreError::Serial(cause)),
    };
    let mut ports: Vec<SerialPortInfo> = Vec::new();
    let mut i: usize = 0;
    while i < found.len()
        invariant
            i <= found.len(),
            ports.len() == i,
            forall|j: int| 0 <= j < i ==> (#[trigger] ports[j])@ == port_info(found[j]),
        decreases found.len() - i,
    {
        let port = &found[i];
        ports.push(
            SerialPortInfo {
                port_name: port.port_name.clone(),
                port_type: describe_port_type(&port.port_type),
            },
        );
        i += 1;
    }
    assert(ports_view(ports@) =~= found@.map_values(|port: FoundPort| port_info(port)));
    Ok(ports)
}

/// What the operating system needs to know to open a port.
#[derive(Debug)]
pub struct PortSettings {
    pub path: String,
    pub baud_rate: u32,
    pub data_bits: u8,
    pub stop_bits: u8,
    pub parity: Parity,
    /// How long a read waits for bytes.
    pub timeout_millis: u64,
}

/// The number of data bits of a setting.
pub open spec fn data_bit_count(value: DataBits) -> u8 {
    match value {
        DataBits::Five => 5,
        DataBits::Six => 6,
        DataBits::Seven => 7,
        DataBits::Eight => 8,
    }
}

/// The number of stop bits of a setting.
pub open spec fn stop_bit_count(value: StopBits) -> u8 {
    match value {
        StopBits::One => 1,
        StopBits::Two => 2,
    }
}

/// The number of data bits of a setting.
pub fn to_serial_data_bits(value: DataBits) -> (count: u8)
    ensures
        count == data_bit_count(value),
{
    match value {
        DataBits::Five => 5,
        DataBits::Six => 6,
        DataBits::Seven => 7,
        DataBits::Eight => 8,
    }
}

/// The number of stop bits of a setting.
pub fn to_serial_stop_bits(value: StopBits) -> (count: u8)
    ensures
        count == stop_bit_count(value),
{
    match value {
        StopBits::One => 1,
        StopBits::Two => 2,
    }
}

impl PortSettings {
    /// How the port of a configuration is opened; a read waits a tenth of a second.
    pub fn of(config: &SerialConfig) -> (settings: PortSettings)
        ensures
            settings.path@ == config@.port,
            settings.baud_rate == config@.baud_rate,
            settings.data_bits == data_bit_count(config@.data_bits),
            settings.stop_bits == stop_bit_count(config@.stop_bits),
            settings.parity == config@.parity,
            settings.timeout_millis == 100,
    {
        PortSettings {
            path: config.port.clone(),
            baud_rate: config.baud_rate,
            data_bits: to_serial_data_bits(config.data_bits),
            stop_bits: to_serial_stop_bits(config.stop_bits),
            parity: config.parity,
            timeout_millis: 100,
        }
    }
}

/// The port that was opened with [`PortSettings::of`], or the error that came of it.
pub fn open_serial_port<P>(opened: Result<P, String>) -> (port: Result<P, CoreError>)
    ensures
        match (opened, port) {
            (Ok(opened), Ok(port)) => port == opened,
            (Err(cause), Err(error)) => error@ == CoreErrorView::Serial(cause@),
            _ => false,
        },
{
    match opened {
        Ok(port) => Ok(port),
        Err(cause) => Err(CoreError::Serial(cause)),
    }
}

/// Two configurations open a port in the same way only if they are the same.
pub proof fn settings_tell_configurations_apart(left: SerialConfigView, right: SerialConfigView)
    requires
        left.port == right.port,
        left.baud_rate == right.baud_rate,
        data_bit_count(left.data_bits) == data_bit_count(right.data_bits),
        stop_bit_count(left.stop_bits) == stop_bit_count(right.stop_bits),
        left.parity == right.parity,
    ensures
        left == right,
{
}

/// Every port that was found is listed, in its place and under its own name, however it is
/// connected; how it is described depends on its connection alone.
pub proof fn a_port_is_listed_under_its_name(found: Seq<FoundPort>, i: int, j: int)
    requires
        0 <= i < found.len(),
        0 <= j < found.len(),
    ensures
        ({
            let listed = found.map_values(|port: FoundPort| port_info(port));
            &&& listed.len() == found.len()
            &&& listed[i].port_name == found[i].port_name@
            &&& found[i].port_type == found[j].port_type ==> listed[i].port_type
                == listed[j].port_type
        }),
{
}

/// A port on USB is described as such with the whole product name, if the device has told one; no
/// other port is described as one on USB, and two ports are described alike only if they are
/// connected alike.
pub proof fn a_description_tells_the_connection(port: FoundPort, product: String)
    ensures
        port_info(port).port_type == port_type_text(port.port_type),
        port_type_text(PortType::Usb { product: Some(product) }) == "usb:"@ + product@,
        port_type_text(PortType::Usb { product: None }) == "usb:"@ + "USB serial"@,
        !(port.port_type is Usb) ==> port_type_text(port.port_type)[0] != 'u' || port_type_text(
            port.port_type,
        )[1] != 's',
        port_type_text(PortType::Pci) != port_type_text(PortType::Bluetooth),
        port_type_text(PortType::Pci) != port_type_text(PortType::Unknown),
        port_type_text(PortType::Bluetooth) != port_type_text(PortType::Unknown),
{
    reveal_strlit("pci");
    reveal_strlit("bluetooth");
    reveal_strlit("unknown");
    assert("pci"@[0] == 'p');
    assert("bluetooth"@[0] == 'b');
    assert("unknown"@[0] == 'u' && "unknown"@[1] == 'n');
}

/// The number of bits is the one that the setting is named after.
pub proof fn bits_are_what_their_names_say(data_bits: DataBits, stop_bits: StopBits)
    ensures
        5 <= data_bit_count(data_bits) <= 8,
        data_bit_count(data_bits) == 5 <==> data_bits is Five,
        data_bit_count(data_bits) == 6 <==> data_bits is Six,
        data_bit_count(data_bits) == 7 <==> data_bits is Seven,
        data_bit_count(data_bits) == 8 <==> data_bits is Eight,
        1 <= stop_bit_count(stop_bits) <= 2,
        stop_bit_count(stop_bits) == 1 <==> stop_bits is One,
        stop_bit_count(stop_bits) == 2 <==> stop_bits is Two,
{
}

} // verus!

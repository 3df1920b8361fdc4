//! A remote serial port: a server that shares its serial ports with clients over a websocket, the
//! terminal client, and the desktop shell, without their input and output.
//!
//! Any number of clients may read an open port; one at a time may write to it.
pub mod auth;
pub mod client;
pub mod desktop;
pub mod error;
pub mod hub;
pub mod hubs;
pub mod message;
pub mod payload;
pub mod protocol;
pub mod serial;
pub mod session;
pub mod text;
pub mod writer;

pub use auth::TokenAuth;
pub use error::CoreError;
pub use protocol::{
    default_baud_rate, default_data_bits, default_parity, default_stop_bits, ClientFrame, DataBits,
    Parity, SerialConfig, SerialPortInfo, ServerFrame, Status, StopBits,
};
pub use serial::{list_serial_ports, open_serial_port};
pub use writer::WriterLease;

//! Modbus protocol data units: the function codes, the requests and responses
//! that a client and a server exchange, and their byte encodings.

pub mod error;
pub mod exception_code;
pub mod pdu;

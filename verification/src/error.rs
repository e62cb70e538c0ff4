use vstd::prelude::*;

use crate::exception_code::ExceptionCode;
use crate::pdu::function_code::FunctionCode;

verus! {

/// An exception that the receiver of a malformed request or response
/// would answer with.
#[derive(Debug, PartialEq, Eq, Clone, Copy, Structural)]
pub enum ExceptionError {
    IllegalDataValue,
}

/// Why a byte buffer could not be read as a PDU.
#[derive(Debug, PartialEq, Eq, Clone, Copy)]
pub enum DecodeError {
    /// The buffer ends before the PDU does.
    IncompleteBuffer { current_size: usize, min_needed_size: usize },
    /// The buffer holds a well-sized PDU whose content is out of range.
    ModbusExceptionError(FunctionCode, ExceptionError),
    /// The buffer holds an exception response: a function code with the high
    /// bit set, followed by an exception code.
    ModbusExceptionCode(FunctionCode, Result<ExceptionCode, u8>),
}

/// Why a PDU could not be written into a buffer.
#[derive(Debug, PartialEq, Eq, Clone, Copy, Structural)]
pub enum EncodeError {
    /// The buffer is shorter than the PDU.
    InvalidBufferSize,
}

} // verus!

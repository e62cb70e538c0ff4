use vstd::prelude::*;

verus! {

/// A Modbus exception code, carried by exception responses.
#[derive(Debug, PartialEq, Eq, Clone, Copy, Structural)]
pub enum ExceptionCode {
    IllegalFunction,
    IllegalDataAddress,
    IllegalDataValue,
    ServerDeviceFailure,
    Acknowledge,
    ServerDeviceBusy,
    MemoryParityError,
    GatewayPathUnavailable,
    GatewayTargetDeviceFailedToRespond,
}

/// The exception code that a byte stands for; unknown bytes are handed back.
pub open spec fn spec_exception_code_from_u8(code: u8) -> Result<ExceptionCode, u8> {
    if code == 0x01 {
        Ok(ExceptionCode::IllegalFunction)
    } else if code == 0x02 {
        Ok(ExceptionCode::IllegalDataAddress)
    } else if code == 0x03 {
        Ok(ExceptionCode::IllegalDataValue)
    } else if code == 0x04 {
        Ok(ExceptionCode::ServerDeviceFailure)
    } else if code == 0x05 {
        Ok(ExceptionCode::Acknowledge)
    } else if code == 0x06 {
        Ok(ExceptionCode::ServerDeviceBusy)
    } else if code == 0x08 {
        Ok(ExceptionCode::MemoryParityError)
    } else if code == 0x0A {
        Ok(ExceptionCode::GatewayPathUnavailable)
    } else if code == 0x0B {
        Ok(ExceptionCode::GatewayTargetDeviceFailedToRespond)
    } else {
        Err(code)
    }
}

/// The byte that an exception code is written as.
pub open spec fn spec_exception_code_to_u8(code: ExceptionCode) -> u8 {
    match code {
        ExceptionCode::IllegalFunction => 0x01,
        ExceptionCode::IllegalDataAddress => 0x02,
        ExceptionCode::IllegalDataValue => 0x03,
        ExceptionCode::ServerDeviceFailure => 0x04,
        ExceptionCode::Acknowledge => 0x05,
        ExceptionCode::ServerDeviceBusy => 0x06,
        ExceptionCode::MemoryParityError => 0x08,
        ExceptionCode::GatewayPathUnavailable => 0x0A,
        ExceptionCode::GatewayTargetDeviceFailedToRespond => 0x0B,
    }
}

impl TryFrom<u8> for ExceptionCode {
    type Error = u8;

    fn try_from(code: u8) -> (res: Result<Self, Self::Error>) {
        match code {
            0x01 => Ok(ExceptionCode::IllegalFunction),
            0x02 => Ok(ExceptionCode::IllegalDataAddress),
            0x03 => Ok(ExceptionCode::IllegalDataValue),
            0x04 => Ok(ExceptionCode::ServerDeviceFailure),
            0x05 => Ok(ExceptionCode::Acknowledge),
            0x06 => Ok(ExceptionCode::ServerDeviceBusy),
            0x08 => Ok(ExceptionCode::MemoryParityError),
            0x0A => Ok(ExceptionCode::GatewayPathUnavailable),
            0x0B => Ok(ExceptionCode::GatewayTargetDeviceFailedToRespond),
            _ => Err(code),
        }
    }
}

impl vstd::std_specs::convert::TryFromSpecImpl<u8> for ExceptionCode {
    open spec fn obeys_try_from_spec() -> bool {
        true
    }

    open spec fn try_from_spec(code: u8) -> Result<Self, Self::Error> {
        spec_exception_code_from_u8(code)
    }
}

impl From<ExceptionCode> for u8 {
    fn from(code: ExceptionCode) -> (res: u8) {
        match code {
            ExceptionCode::IllegalFunction => 0x01,
            ExceptionCode::IllegalDataAddress => 0x02,
            ExceptionCode::IllegalDataValue => 0x03,
            ExceptionCode::ServerDeviceFailure => 0x04,
            ExceptionCode::Acknowledge => 0x05,
            ExceptionCode::ServerDeviceBusy => 0x06,
            ExceptionCode::MemoryParityError => 0x08,
            ExceptionCode::GatewayPathUnavailable => 0x0A,
            ExceptionCode::GatewayTargetDeviceFailedToRespond => 0x0B,
        }
    }
}

impl vstd::std_specs::convert::FromSpecImpl<ExceptionCode> for u8 {
    open spec fn obeys_from_spec() -> bool {
        true
    }

    open spec fn from_spec(code: ExceptionCode) -> u8 {
        spec_exception_code_to_u8(code)
    }
}

/// Reading back the byte of an exception code gives the same code, and a byte
/// that reads as a code is the byte that code is written as.
pub proof fn lemma_exception_code_roundtrip(code: ExceptionCode, byte: u8)
    ensures
        spec_exception_code_from_u8(spec_exception_code_to_u8(code)) == Ok::<ExceptionCode, u8>(
            code,
        ),
        spec_exception_code_from_u8(byte) matches Ok(c) ==> spec_exception_code_to_u8(c) == byte,
{
}

} // verus!

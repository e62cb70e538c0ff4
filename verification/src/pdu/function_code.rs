use vstd::prelude::*;

use super::request::{Request, request_function_code};
use super::response::{Response, response_function_code};

verus! {

/// A Modbus function code.
#[derive(Debug, PartialEq, Eq, Clone, Copy, Structural)]
pub enum FunctionCode {
    ReadCoils,
    ReadDiscreteInput,
    ReadHoldingRegisters,
    ReadInputRegisters,
    WriteSingleCoil,
    WriteSingleRegister,
    WriteMultipleCoils,
    WriteMultipleRegisters,
    ReadDeviceIdentification,
    MaskWriteRegister,
    ReadWriteMultipleRegisters,
    Custom(u8),
}

/// The function code that a byte stands for; bytes with the high bit set are
/// refused and handed back.
pub open spec fn spec_function_code_from_u8(code: u8) -> Result<FunctionCode, u8> {
    if code == 0x01 {
        Ok(FunctionCode::ReadCoils)
    } else if code == 0x02 {
        Ok(FunctionCode::ReadDiscreteInput)
    } else if code == 0x03 {
        Ok(FunctionCode::ReadHoldingRegisters)
    } else if code == 0x04 {
        Ok(FunctionCode::ReadInputRegisters)
    } else if code == 0x05 {
        Ok(FunctionCode::WriteSingleCoil)
    } else if code == 0x06 {
        Ok(FunctionCode::WriteSingleRegister)
    } else if code == 0x0F {
        Ok(FunctionCode::WriteMultipleCoils)
    } else if code == 0x10 {
        Ok(FunctionCode::WriteMultipleRegisters)
    } else if code == 0x2B {
        Ok(FunctionCode::ReadDeviceIdentification)
    } else if code == 0x16 {
        Ok(FunctionCode::MaskWriteRegister)
    } else if code == 0x17 {
        Ok(FunctionCode::ReadWriteMultipleRegisters)
    } else if code >= 0x80 {
        Err(code)
    } else {
        Ok(FunctionCode::Custom(code))
    }
}

/// The byte that a function code is written as.
pub open spec fn spec_function_code_to_u8(code: FunctionCode) -> u8 {
    match code {
        FunctionCode::ReadCoils => 0x01,
        FunctionCode::ReadDiscreteInput => 0x02,
        FunctionCode::ReadHoldingRegisters => 0x03,
        FunctionCode::ReadInputRegisters => 0x04,
        FunctionCode::WriteSingleCoil => 0x05,
        FunctionCode::WriteSingleRegister => 0x06,
        FunctionCode::WriteMultipleCoils => 0x0F,
        FunctionCode::WriteMultipleRegisters => 0x10,
        FunctionCode::ReadDeviceIdentification => 0x2B,
        FunctionCode::MaskWriteRegister => 0x16,
        FunctionCode::ReadWriteMultipleRegisters => 0x17,
        FunctionCode::Custom(c) => c,
    }
}

impl TryFrom<u8> for FunctionCode {
    type Error = u8;

    fn try_from(code: u8) -> (res: Result<Self, Self::Error>) {
        match code {
            0x01 => Ok(FunctionCode::ReadCoils),
            0x02 => Ok(FunctionCode::ReadDiscreteInput),
            0x03 => Ok(FunctionCode::ReadHoldingRegisters),
            0x04 => Ok(FunctionCode::ReadInputRegisters),
            0x05 => Ok(FunctionCode::WriteSingleCoil),
            0x06 => Ok(FunctionCode::WriteSingleRegister),
            0x0F => Ok(FunctionCode::WriteMultipleCoils),
            0x10 => Ok(FunctionCode::WriteMultipleRegisters),
            0x2B => Ok(FunctionCode::ReadDeviceIdentification),
            0x16 => Ok(FunctionCode::MaskWriteRegister),
            0x17 => Ok(FunctionCode::ReadWriteMultipleRegisters),
            0x80..=0xFF => Err(code),
            code => Ok(FunctionCode::Custom(code)),
        }
    }
}

impl vstd::std_specs::convert::TryFromSpecImpl<u8> for FunctionCode {
    open spec fn obeys_try_from_spec() -> bool {
        true
    }

    open spec fn try_from_spec(code: u8) -> Result<Self, Self::Error> {
        spec_function_code_from_u8(code)
    }
}

impl From<FunctionCode> for u8 {
    fn from(code: FunctionCode) -> (res: u8) {
        match code {
            FunctionCode::ReadCoils => 0x01,
            FunctionCode::ReadDiscreteInput => 0x02,
            FunctionCode::ReadHoldingRegisters => 0x03,
            FunctionCode::ReadInputRegisters => 0x04,
            FunctionCode::WriteSingleCoil => 0x05,
            FunctionCode::WriteSingleRegister => 0x06,
            FunctionCode::WriteMultipleCoils => 0x0F,
            FunctionCode::WriteMultipleRegisters => 0x10,
            FunctionCode::ReadDeviceIdentification => 0x2B,
            FunctionCode::MaskWriteRegister => 0x16,
            FunctionCode::ReadWriteMultipleRegisters => 0x17,
            FunctionCode::Custom(code) => code,
        }
    }
}

impl vstd::std_specs::convert::FromSpecImpl<FunctionCode> for u8 {
    open spec fn obeys_from_spec() -> bool {
        true
    }

    open spec fn from_spec(code: FunctionCode) -> u8 {
        spec_function_code_to_u8(code)
    }
}

/// The function codes a byte can name: a known code under its own byte, or
/// a custom code below 0x80 that no known code uses.
pub open spec fn function_code_is_wire_valid(code: FunctionCode) -> bool {
    match code {
        FunctionCode::Custom(c) => spec_function_code_from_u8(c) == Ok::<FunctionCode, u8>(code),
        _ => true,
    }
}

/// Every byte below 0x80 names a function code, each byte from 0x80 on is
/// refused and handed back; reading back the byte of a function code that a
/// byte can name gives that code, and a byte that names a code is the byte
/// that code is written as.
pub proof fn lemma_function_code_roundtrip(code: FunctionCode, byte: u8)
    ensures
        byte < 0x80 <==> spec_function_code_from_u8(byte) is Ok,
        byte >= 0x80 ==> spec_function_code_from_u8(byte) == Err::<FunctionCode, u8>(byte),
        function_code_is_wire_valid(code) ==> spec_function_code_from_u8(
            spec_function_code_to_u8(code),
        ) == Ok::<FunctionCode, u8>(code),
        spec_function_code_from_u8(byte) matches Ok(c) ==> function_code_is_wire_valid(c)
            && spec_function_code_to_u8(c) == byte,
{
}

impl<'a, 'b> From<&'b Request<'a>> for FunctionCode {
    fn from(value: &'b Request<'a>) -> (res: FunctionCode) {
        match value {
            Request::ReadCoils(_, _) => FunctionCode::ReadCoils,
            Request::ReadDiscreteInput(_, _) => FunctionCode::ReadDiscreteInput,
            Request::ReadHoldingRegisters(_, _) => FunctionCode::ReadHoldingRegisters,
            Request::ReadInputRegisters(_, _) => FunctionCode::ReadInputRegisters,
            Request::WriteSingleCoil(_, _) => FunctionCode::WriteSingleCoil,
            Request::WriteSingleRegister(_, _) => FunctionCode::WriteSingleRegister,
            Request::WriteMultipleCoils(_, _) => FunctionCode::WriteMultipleCoils,
            Request::WriteMultipleRegisters(_, _) => FunctionCode::WriteMultipleRegisters,
            Request::ReadDeviceIdentification(_, _, _) => FunctionCode::ReadDeviceIdentification,
            Request::MaskWriteRegister(_, _, _) => FunctionCode::MaskWriteRegister,
            Request::ReadWriteMultipleRegisters(_, _, _, _) => {
                FunctionCode::ReadWriteMultipleRegisters
            },
            Request::Custom(fn_code, _) => *fn_code,
        }
    }
}

impl<'a, 'b> vstd::std_specs::convert::FromSpecImpl<&'b Request<'a>> for FunctionCode {
    open spec fn obeys_from_spec() -> bool {
        true
    }

    open spec fn from_spec(value: &'b Request<'a>) -> FunctionCode {
        request_function_code(value@)
    }
}

impl<'a, 'b> From<&'b Response<'a>> for FunctionCode {
    fn from(value: &'b Response<'a>) -> (res: FunctionCode) {
        match value {
            Response::ReadCoils(_) => FunctionCode::ReadCoils,
            Response::ReadDiscreteInput(_) => FunctionCode::ReadDiscreteInput,
            Response::ReadHoldingRegisters(_) => FunctionCode::ReadHoldingRegisters,
            Response::ReadInputRegisters(_) => FunctionCode::ReadInputRegisters,
            Response::WriteSingleCoil(_, _) => FunctionCode::WriteSingleCoil,
            Response::WriteSingleRegister(_, _) => FunctionCode::WriteSingleRegister,
            Response::WriteMultipleCoils(_, _) => FunctionCode::WriteMultipleCoils,
            Response::WriteMultipleRegisters(_, _) => FunctionCode::WriteMultipleRegisters,
            Response::ReadDeviceIdentification(_, _, _, _, _, _, _, _) => {
                FunctionCode::ReadDeviceIdentification
            },
            Response::MaskWriteRegister(_, _, _) => FunctionCode::MaskWriteRegister,
            Response::ReadWriteMultipleRegisters(_) => FunctionCode::ReadWriteMultipleRegisters,
            Response::Custom(fn_code, _) => *fn_code,
        }
    }
}

impl<'a, 'b> vstd::std_specs::convert::FromSpecImpl<&'b Response<'a>> for FunctionCode {
    open spec fn obeys_from_spec() -> bool {
        true
    }

    open spec fn from_spec(value: &'b Response<'a>) -> FunctionCode {
        response_function_code(value@)
    }
}

} // verus!

use vstd::prelude::*;

verus! {

/// The kind of device identification read.
#[derive(Debug, Clone, Copy, PartialEq, Eq, Structural)]
pub enum ReadDeviceIdCode {
    Basic,
    Regular,
    Extended,
    Specific,
}

/// The value that a byte stands for; any other byte is refused with 0.
pub open spec fn spec_read_device_id_code_from_u8(code: u8) -> Result<ReadDeviceIdCode, u8> {
    if code == 1 {
        Ok(ReadDeviceIdCode::Basic)
    } else if code == 2 {
        Ok(ReadDeviceIdCode::Regular)
    } else if code == 3 {
        Ok(ReadDeviceIdCode::Extended)
    } else if code == 4 {
        Ok(ReadDeviceIdCode::Specific)
    } else {
        Err(0)
    }
}

/// The byte that a value is written as.
pub open spec fn spec_read_device_id_code_to_u8(code: ReadDeviceIdCode) -> u8 {
    match code {
        ReadDeviceIdCode::Basic => 1,
        ReadDeviceIdCode::Regular => 2,
        ReadDeviceIdCode::Extended => 3,
        ReadDeviceIdCode::Specific => 4,
    }
}

impl TryFrom<u8> for ReadDeviceIdCode {
    type Error = u8;

    fn try_from(code: u8) -> (res: Result<Self, Self::Error>) {
        match code {
            1 => Ok(ReadDeviceIdCode::Basic),
            2 => Ok(ReadDeviceIdCode::Regular),
            3 => Ok(ReadDeviceIdCode::Extended),
            4 => Ok(ReadDeviceIdCode::Specific),
            _ => Err(0),
        }
    }
}

impl vstd::std_specs::convert::TryFromSpecImpl<u8> for ReadDeviceIdCode {
    open spec fn obeys_try_from_spec() -> bool {
        true
    }

    open spec fn try_from_spec(code: u8) -> Result<Self, Self::Error> {
        spec_read_device_id_code_from_u8(code)
    }
}

impl From<ReadDeviceIdCode> for u8 {
    fn from(code: ReadDeviceIdCode) -> (res: u8) {
        match code {
            ReadDeviceIdCode::Basic => 1,
            ReadDeviceIdCode::Regular => 2,
            ReadDeviceIdCode::Extended => 3,
            ReadDeviceIdCode::Specific => 4,
        }
    }
}

impl vstd::std_specs::convert::FromSpecImpl<ReadDeviceIdCode> for u8 {
    open spec fn obeys_from_spec() -> bool {
        true
    }

    open spec fn from_spec(code: ReadDeviceIdCode) -> u8 {
        spec_read_device_id_code_to_u8(code)
    }
}

/// Reading back the byte of a value gives the same value, and a byte that
/// reads as a value is the byte that value is written as.
pub proof fn lemma_read_device_id_code_roundtrip(code: ReadDeviceIdCode, byte: u8)
    ensures
        spec_read_device_id_code_from_u8(spec_read_device_id_code_to_u8(code)) == Ok::<ReadDeviceIdCode, u8>(code),
        spec_read_device_id_code_from_u8(byte) matches Ok(c) ==> spec_read_device_id_code_to_u8(c) == byte,
{
}

} // verus!

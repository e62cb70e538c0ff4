use vstd::prelude::*;

verus! {

/// The MODBUS encapsulated interface type.
#[derive(Debug, Clone, Copy, PartialEq, Eq, Structural)]
pub enum MeiType {
    DeviceIdentification,
}

/// The value that a byte stands for; any other byte is refused with 0.
pub open spec fn spec_mei_type_from_u8(code: u8) -> Result<MeiType, u8> {
    if code == 0x0E {
        Ok(MeiType::DeviceIdentification)
    } else {
        Err(0)
    }
}

/// The byte that a value is written as.
pub open spec fn spec_mei_type_to_u8(code: MeiType) -> u8 {
    match code {
        MeiType::DeviceIdentification => 0x0E,
    }
}

impl TryFrom<u8> for MeiType {
    type Error = u8;

    fn try_from(code: u8) -> (res: Result<Self, Self::Error>) {
        match code {
            0x0E => Ok(MeiType::DeviceIdentification),
            _ => Err(0),
        }
    }
}

impl vstd::std_specs::convert::TryFromSpecImpl<u8> for MeiType {
    open spec fn obeys_try_from_spec() -> bool {
        true
    }

    open spec fn try_from_spec(code: u8) -> Result<Self, Self::Error> {
        spec_mei_type_from_u8(code)
    }
}

impl From<MeiType> for u8 {
    fn from(code: MeiType) -> (res: u8) {
        match code {
            MeiType::DeviceIdentification => 0x0E,
        }
    }
}

impl vstd::std_specs::convert::FromSpecImpl<MeiType> for u8 {
    open spec fn obeys_from_spec() -> bool {
        true
    }

    open spec fn from_spec(code: MeiType) -> u8 {
        spec_mei_type_to_u8(code)
    }
}

/// Reading back the byte of a value gives the same value, and a byte that
/// reads as a value is the byte that value is written as.
pub proof fn lemma_mei_type_roundtrip(code: MeiType, byte: u8)
    ensures
        spec_mei_type_from_u8(spec_mei_type_to_u8(code)) == Ok::<MeiType, u8>(code),
        spec_mei_type_from_u8(byte) matches Ok(c) ==> spec_mei_type_to_u8(c) == byte,
{
}

} // verus!

use vstd::prelude::*;

verus! {

/// The identification level and access kinds a device supports.
#[derive(Debug, Clone, Copy, PartialEq, Eq, Structural)]
pub enum ConformityLevel {
    BasicStreamOnly,
    RegularStreamOnly,
    ExtendedStreamOnly,
    BasicStreamAndIndividual,
    RegularStreamAndIndividual,
    ExtendedStreamAndIndividual,
}

/// The value that a byte stands for; any other byte is refused with 0.
pub open spec fn spec_conformity_level_from_u8(code: u8) -> Result<ConformityLevel, u8> {
    if code == 0x01 {
        Ok(ConformityLevel::BasicStreamOnly)
    } else if code == 0x02 {
        Ok(ConformityLevel::RegularStreamOnly)
    } else if code == 0x03 {
        Ok(ConformityLevel::ExtendedStreamOnly)
    } else if code == 0x81 {
        Ok(ConformityLevel::BasicStreamAndIndividual)
    } else if code == 0x82 {
        Ok(ConformityLevel::RegularStreamAndIndividual)
    } else if code == 0x83 {
        Ok(ConformityLevel::ExtendedStreamAndIndividual)
    } else {
        Err(0)
    }
}

/// The byte that a value is written as.
pub open spec fn spec_conformity_level_to_u8(code: ConformityLevel) -> u8 {
    match code {
        ConformityLevel::BasicStreamOnly => 0x01,
        ConformityLevel::RegularStreamOnly => 0x02,
        ConformityLevel::ExtendedStreamOnly => 0x03,
        ConformityLevel::BasicStreamAndIndividual => 0x81,
        ConformityLevel::RegularStreamAndIndividual => 0x82,
        ConformityLevel::ExtendedStreamAndIndividual => 0x83,
    }
}

impl TryFrom<u8> for ConformityLevel {
    type Error = u8;

    fn try_from(code: u8) -> (res: Result<Self, Self::Error>) {
        match code {
            0x01 => Ok(ConformityLevel::BasicStreamOnly),
            0x02 => Ok(ConformityLevel::RegularStreamOnly),
            0x03 => Ok(ConformityLevel::ExtendedStreamOnly),
            0x81 => Ok(ConformityLevel::BasicStreamAndIndividual),
            0x82 => Ok(ConformityLevel::RegularStreamAndIndividual),
            0x83 => Ok(ConformityLevel::ExtendedStreamAndIndividual),
            _ => Err(0),
        }
    }
}

impl vstd::std_specs::convert::TryFromSpecImpl<u8> for ConformityLevel {
    open spec fn obeys_try_from_spec() -> bool {
        true
    }

    open spec fn try_from_spec(code: u8) -> Result<Self, Self::Error> {
        spec_conformity_level_from_u8(code)
    }
}

impl From<ConformityLevel> for u8 {
    fn from(code: ConformityLevel) -> (res: u8) {
        match code {
            ConformityLevel::BasicStreamOnly => 0x01,
            ConformityLevel::RegularStreamOnly => 0x02,
            ConformityLevel::ExtendedStreamOnly => 0x03,
            ConformityLevel::BasicStreamAndIndividual => 0x81,
            ConformityLevel::RegularStreamAndIndividual => 0x82,
            ConformityLevel::ExtendedStreamAndIndividual => 0x83,
        }
    }
}

impl vstd::std_specs::convert::FromSpecImpl<ConformityLevel> for u8 {
    open spec fn obeys_from_spec() -> bool {
        true
    }

    open spec fn from_spec(code: ConformityLevel) -> u8 {
        spec_conformity_level_to_u8(code)
    }
}

/// Reading back the byte of a value gives the same value, and a byte that
/// reads as a value is the byte that value is written as.
pub proof fn lemma_conformity_level_roundtrip(code: ConformityLevel, byte: u8)
    ensures
        spec_conformity_level_from_u8(spec_conformity_level_to_u8(code)) == Ok::<ConformityLevel, u8>(code),
        spec_conformity_level_from_u8(byte) matches Ok(c) ==> spec_conformity_level_to_u8(c) == byte,
{
}

} // verus!

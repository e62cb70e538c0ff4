use vstd::prelude::*;

verus! {

/// Whether a device identification response is followed by more objects.
#[derive(Debug, Clone, Copy, PartialEq, Eq, Structural)]
pub enum MoreFollows {
    NoMoreObjects,
    OtherObjectsAvailable,
}

/// The value that a byte stands for; any other byte is refused with 0.
pub open spec fn spec_more_follows_from_u8(code: u8) -> Result<MoreFollows, u8> {
    if code == 0x00 {
        Ok(MoreFollows::NoMoreObjects)
    } else if code == 0xFF {
        Ok(MoreFollows::OtherObjectsAvailable)
    } else {
        Err(0)
    }
}

/// The byte that a value is written as.
pub open spec fn spec_more_follows_to_u8(code: MoreFollows) -> u8 {
    match code {
        MoreFollows::NoMoreObjects => 0x00,
        MoreFollows::OtherObjectsAvailable => 0xFF,
    }
}

impl TryFrom<u8> for MoreFollows {
    type Error = u8;

    fn try_from(code: u8) -> (res: Result<Self, Self::Error>) {
        match code {
            0x00 => Ok(MoreFollows::NoMoreObjects),
            0xFF => Ok(MoreFollows::OtherObjectsAvailable),
            _ => Err(0),
        }
    }
}

impl vstd::std_specs::convert::TryFromSpecImpl<u8> for MoreFollows {
    open spec fn obeys_try_from_spec() -> bool {
        true
    }

    open spec fn try_from_spec(code: u8) -> Result<Self, Self::Error> {
        spec_more_follows_from_u8(code)
    }
}

impl From<MoreFollows> for u8 {
    fn from(code: MoreFollows) -> (res: u8) {
        match code {
            MoreFollows::NoMoreObjects => 0x00,
            MoreFollows::OtherObjectsAvailable => 0xFF,
        }
    }
}

impl vstd::std_specs::convert::FromSpecImpl<MoreFollows> for u8 {
    open spec fn obeys_from_spec() -> bool {
        true
    }

    open spec fn from_spec(code: MoreFollows) -> u8 {
        spec_more_follows_to_u8(code)
    }
}

/// Reading back the byte of a value gives the same value, and a byte that
/// reads as a value is the byte that value is written as.
pub proof fn lemma_more_follows_roundtrip(code: MoreFollows, byte: u8)
    ensures
        spec_more_follows_from_u8(spec_more_follows_to_u8(code)) == Ok::<MoreFollows, u8>(code),
        spec_more_follows_from_u8(byte) matches Ok(c) ==> spec_more_follows_to_u8(c) == byte,
{
}

} // verus!

pub mod coil;
pub mod function_code;
pub mod identification;
pub mod laws;
pub mod request;
pub mod response;
pub mod word;

pub use coil::DataCoils;
pub use word::DataWords;

use vstd::prelude::*;

use crate::error::{DecodeError, ExceptionError};
use crate::exception_code::{ExceptionCode, spec_exception_code_from_u8};
use function_code::{FunctionCode, spec_function_code_from_u8};

verus! {

/// A register or coil address.
pub type Address = u16;

/// A number of registers or coils.
pub type Quantity = u16;

/// What a packed run of coils or registers holds: its bytes as they stand on
/// the wire, and the number of coils or registers they carry.
#[verifier::ext_equal]
pub struct DataView {
    pub bytes: Seq<u8>,
    pub quantity: u16,
}

/// The coil state that a 16-bit coil value stands for: `0x0000` is off,
/// `0xFF00` is on, anything else stands for no state.
pub open spec fn spec_u16_coil_to_coil(u16_coil: u16) -> Option<bool> {
    if u16_coil == 0x0000 {
        Some(false)
    } else if u16_coil == 0xff00 {
        Some(true)
    } else {
        None
    }
}

/// The 16-bit value that a coil state is written as.
pub open spec fn spec_coil_to_u16_coil(coil: bool) -> u16 {
    if coil {
        0xff00
    } else {
        0x0000
    }
}

pub fn u16_coil_to_coil(u16_coil: u16) -> (res: Option<bool>)
    ensures
        res == spec_u16_coil_to_coil(u16_coil),
{
    match u16_coil {
        0x0000 => Some(false),
        0xff00 => Some(true),
        _ => None,
    }
}

pub fn coil_to_u16_coil(coil: bool) -> (res: u16)
    ensures
        res == spec_coil_to_u16_coil(coil),
{
    match coil {
        false => 0x0000,
        true => 0xff00,
    }
}

/// A coil state survives being written as a 16-bit value and read back, and
/// a 16-bit value that reads as a coil state is the value that state is
/// written as.
pub proof fn lemma_coil_roundtrip(coil: bool, u16_coil: u16)
    ensures
        spec_u16_coil_to_coil(spec_coil_to_u16_coil(coil)) == Some(coil),
        spec_u16_coil_to_coil(u16_coil) matches Some(c) ==> spec_coil_to_u16_coil(c) == u16_coil,
{
}

/// The two bytes of a 16-bit value, most significant first.
pub open spec fn be_bytes(v: u16) -> Seq<u8> {
    seq![(v / 256) as u8, (v % 256) as u8]
}

/// The 16-bit value of two bytes, most significant first.
pub open spec fn be_u16(hi: u8, lo: u8) -> u16 {
    (hi * 256 + lo) as u16
}

/// Reading back the two bytes of a 16-bit value gives the value.
pub proof fn lemma_be_roundtrip(v: u16)
    ensures
        be_u16(be_bytes(v)[0], be_bytes(v)[1]) == v,
{
}

/// `buf` with the bytes from `pos` on replaced by `bytes`.
pub open spec fn splice(buf: Seq<u8>, pos: int, bytes: Seq<u8>) -> Seq<u8> {
    buf.take(pos) + bytes + buf.skip(pos + bytes.len())
}

/// Reads the 16-bit big-endian value at `pos`.
pub(crate) fn get_u16(buf: &[u8], pos: usize) -> (v: u16)
    requires
        pos + 2 <= buf@.len(),
    ensures
        v == be_u16(buf@[pos as int], buf@[pos + 1]),
{
    (buf[pos] as u16) * 256 + buf[pos + 1] as u16
}

/// Writes `v` big-endian at `pos`.
pub(crate) fn put_u16(buf: &mut [u8], pos: usize, v: u16)
    requires
        pos + 2 <= old(buf)@.len(),
    ensures
        final(buf)@ == splice(old(buf)@, pos as int, be_bytes(v)),
{
    buf[pos] = (v / 256) as u8;
    buf[pos + 1] = (v % 256) as u8;
    assert(buf@ =~= splice(old(buf)@, pos as int, be_bytes(v)));
}

/// Writes `b` at `pos`.
pub(crate) fn put_u8(buf: &mut [u8], pos: usize, b: u8)
    requires
        pos < old(buf)@.len(),
    ensures
        final(buf)@ == splice(old(buf)@, pos as int, seq![b]),
{
    buf[pos] = b;
    assert(buf@ =~= splice(old(buf)@, pos as int, seq![b]));
}

/// Copies `data` into `buf` from `pos` on.
pub(crate) fn put_slice(buf: &mut [u8], pos: usize, data: &[u8])
    requires
        pos + data@.len() <= old(buf)@.len(),
    ensures
        final(buf)@ == splice(old(buf)@, pos as int, data@),
{
    let n = data.len();
    let total = buf.len();
    let mut i: usize = 0;
    while i < n
        invariant
            i <= n,
            total == buf@.len(),
            n == data@.len(),
            pos + n <= old(buf)@.len(),
            buf@.len() == old(buf)@.len(),
            buf@ =~= splice(old(buf)@, pos as int, data@.take(i as int)),
        decreases n - i,
    {
        buf[pos + i] = data[i];
        i = i + 1;
        assert(buf@ =~= splice(old(buf)@, pos as int, data@.take(i as int)));
    }
    assert(data@.take(n as int) =~= data@);
}

/// Writing `a` at `pos` and then `b` right after it writes `a + b` at `pos`.
pub(crate) proof fn lemma_splice_then(buf: Seq<u8>, pos: int, a: Seq<u8>, b: Seq<u8>)
    requires
        0 <= pos,
        pos + a.len() + b.len() <= buf.len(),
    ensures
        splice(splice(buf, pos, a), pos + a.len(), b) == splice(buf, pos, a + b),
{
    assert(splice(splice(buf, pos, a), pos + a.len(), b) =~= splice(buf, pos, a + b));
}

/// Writes `b` right after the bytes `written` already put at the start of
/// `base`.
pub(crate) fn emit_u8(
    buf: &mut [u8],
    pos: usize,
    b: u8,
    Ghost(base): Ghost<Seq<u8>>,
    Ghost(written): Ghost<Seq<u8>>,
)
    requires
        old(buf)@ == splice(base, 0, written),
        pos == written.len(),
        pos + 1 <= base.len(),
    ensures
        final(buf)@ == splice(base, 0, written + seq![b]),
{
    put_u8(buf, pos, b);
    proof {
        lemma_splice_then(base, 0, written, seq![b]);
    }
}

/// Writes `v` big-endian right after the bytes `written` already put at the
/// start of `base`.
pub(crate) fn emit_u16(
    buf: &mut [u8],
    pos: usize,
    v: u16,
    Ghost(base): Ghost<Seq<u8>>,
    Ghost(written): Ghost<Seq<u8>>,
)
    requires
        old(buf)@ == splice(base, 0, written),
        pos == written.len(),
        pos + 2 <= base.len(),
    ensures
        final(buf)@ == splice(base, 0, written + be_bytes(v)),
{
    put_u16(buf, pos, v);
    proof {
        lemma_splice_then(base, 0, written, be_bytes(v));
    }
}

/// Copies `data` right after the bytes `written` already put at the start of
/// `base`.
pub(crate) fn emit_slice(
    buf: &mut [u8],
    pos: usize,
    data: &[u8],
    Ghost(base): Ghost<Seq<u8>>,
    Ghost(written): Ghost<Seq<u8>>,
)
    requires
        old(buf)@ == splice(base, 0, written),
        pos == written.len(),
        pos + data@.len() <= base.len(),
    ensures
        final(buf)@ == splice(base, 0, written + data@),
{
    put_slice(buf, pos, data);
    proof {
        lemma_splice_then(base, 0, written, data@);
    }
}

/// The error for a buffer that ends after `current_size` bytes when at least
/// `min_needed_size` were needed.
pub open spec fn incomplete(current_size: int, min_needed_size: int) -> DecodeError {
    DecodeError::IncompleteBuffer {
        current_size: current_size as usize,
        min_needed_size: min_needed_size as usize,
    }
}

/// The error for a PDU under `fn_code` whose content is out of range.
pub open spec fn illegal_data_value(fn_code: FunctionCode) -> DecodeError {
    DecodeError::ModbusExceptionError(fn_code, ExceptionError::IllegalDataValue)
}

/// The 16-bit big-endian value at `pos`.
pub open spec fn u16_at(buf: Seq<u8>, pos: int) -> u16 {
    be_u16(buf[pos], buf[pos + 1])
}

/// What a non-empty buffer whose first byte is no function code decodes to:
/// an exception response (the function code with its high bit cleared,
/// then the exception code) when a second byte follows, otherwise a buffer
/// too short to hold one.
pub open spec fn spec_exception_response_error(buf: Seq<u8>) -> DecodeError {
    if buf.len() > 1 {
        DecodeError::ModbusExceptionCode(
            spec_function_code_from_u8(buf[0] & 0x7f)->Ok_0,
            spec_exception_code_from_u8(buf[1]),
        )
    } else {
        incomplete(1, 2)
    }
}

/// Reads the function code at the start of a non-empty buffer.
pub(crate) fn decode_function_code(buf: &[u8]) -> (res: Result<FunctionCode, DecodeError>)
    requires
        buf@.len() >= 1,
    ensures
        res == (match spec_function_code_from_u8(buf@[0]) {
            Ok(fn_code) => Ok(fn_code),
            Err(_) => Err(spec_exception_response_error(buf@)),
        }),
{
    match FunctionCode::try_from(buf[0]) {
        Ok(fn_code) => Ok(fn_code),
        Err(c) => {
            if buf.len() > 1 {
                let low = c & 0x7f;
                assert(c & 0x7f < 0x80) by (bit_vector);
                let fn_code = FunctionCode::try_from(low).unwrap();
                Err(DecodeError::ModbusExceptionCode(fn_code, ExceptionCode::try_from(buf[1])))
            } else {
                Err(DecodeError::IncompleteBuffer { current_size: 1, min_needed_size: 2 })
            }
        },
    }
}

} // verus!

use vstd::prelude::*;

use crate::error::{DecodeError, EncodeError, ExceptionError};
use crate::pdu::identification::conformity_level::{
    ConformityLevel,
    spec_conformity_level_from_u8,
    spec_conformity_level_to_u8,
};
use crate::pdu::identification::devid_object::DeviceIdentificationObject;
use crate::pdu::identification::list_of_id_objects::{ListOfIdObjects, objects_bytes};
use crate::pdu::identification::mei_type::{MeiType, spec_mei_type_from_u8, spec_mei_type_to_u8};
use crate::pdu::identification::more_follows::{
    MoreFollows,
    spec_more_follows_from_u8,
    spec_more_follows_to_u8,
};
use crate::pdu::identification::read_device_id_code::{
    ReadDeviceIdCode,
    spec_read_device_id_code_from_u8,
    spec_read_device_id_code_to_u8,
};
use crate::pdu::identification::{NextObjectId, NumberOfObjects};

use super::function_code::{
    FunctionCode,
    function_code_is_wire_valid,
    lemma_function_code_roundtrip,
    spec_function_code_from_u8,
    spec_function_code_to_u8,
};
use super::{
    Address,
    DataCoils,
    DataView,
    DataWords,
    Quantity,
    be_bytes,
    coil_to_u16_coil,
    lemma_be_roundtrip,
    lemma_coil_roundtrip,
    decode_function_code,
    emit_slice,
    emit_u16,
    emit_u8,
    get_u16,
    illegal_data_value,
    incomplete,
    spec_coil_to_u16_coil,
    spec_exception_response_error,
    spec_u16_coil_to_coil,
    splice,
    u16_at,
};

verus! {

/// A response PDU, as a server sends it.
#[derive(Debug, PartialEq, Eq)]
pub enum Response<'a> {
    ReadCoils(DataCoils<'a>),
    ReadDiscreteInput(DataCoils<'a>),
    ReadHoldingRegisters(DataWords<'a>),
    ReadInputRegisters(DataWords<'a>),
    WriteSingleCoil(Address, bool),
    WriteSingleRegister(Address, u16),
    WriteMultipleCoils(Address, Quantity),
    WriteMultipleRegisters(Address, Quantity),
    ReadDeviceIdentification(
        FunctionCode,
        MeiType,
        ReadDeviceIdCode,
        ConformityLevel,
        MoreFollows,
        NextObjectId,
        NumberOfObjects,
        ListOfIdObjects,
    ),
    MaskWriteRegister(Address, u16, u16),
    ReadWriteMultipleRegisters(DataWords<'a>),
    Custom(FunctionCode, &'a [u8]),
}

/// What a response holds, with its byte runs as sequences.
#[verifier::ext_equal]
pub enum ResponseView {
    ReadCoils(DataView),
    ReadDiscreteInput(DataView),
    ReadHoldingRegisters(DataView),
    ReadInputRegisters(DataView),
    WriteSingleCoil(Address, bool),
    WriteSingleRegister(Address, u16),
    WriteMultipleCoils(Address, Quantity),
    WriteMultipleRegisters(Address, Quantity),
    ReadDeviceIdentification(
        FunctionCode,
        MeiType,
        ReadDeviceIdCode,
        ConformityLevel,
        MoreFollows,
        NextObjectId,
        NumberOfObjects,
        Seq<DeviceIdentificationObject>,
    ),
    MaskWriteRegister(Address, u16, u16),
    ReadWriteMultipleRegisters(DataView),
    Custom(FunctionCode, Seq<u8>),
}

impl<'a> View for Response<'a> {
    type V = ResponseView;

    open spec fn view(&self) -> ResponseView {
        match *self {
            Response::ReadCoils(c) => ResponseView::ReadCoils(c@),
            Response::ReadDiscreteInput(c) => ResponseView::ReadDiscreteInput(c@),
            Response::ReadHoldingRegisters(w) => ResponseView::ReadHoldingRegisters(w@),
            Response::ReadInputRegisters(w) => ResponseView::ReadInputRegisters(w@),
            Response::WriteSingleCoil(a, c) => ResponseView::WriteSingleCoil(a, c),
            Response::WriteSingleRegister(a, w) => ResponseView::WriteSingleRegister(a, w),
            Response::WriteMultipleCoils(a, q) => ResponseView::WriteMultipleCoils(a, q),
            Response::WriteMultipleRegisters(a, q) => ResponseView::WriteMultipleRegisters(a, q),
            Response::ReadDeviceIdentification(f, m, c, l, more, next, n, list) =>
                ResponseView::ReadDeviceIdentification(
                f,
                m,
                c,
                l,
                more,
                next,
                n,
                list.list_of_id_objects@,
            ),
            Response::MaskWriteRegister(a, x, y) => ResponseView::MaskWriteRegister(a, x, y),
            Response::ReadWriteMultipleRegisters(w) => ResponseView::ReadWriteMultipleRegisters(w@),
            Response::Custom(f, d) => ResponseView::Custom(f, d@),
        }
    }
}

/// The function code a response is sent under.
pub open spec fn response_function_code(r: ResponseView) -> FunctionCode {
    match r {
        ResponseView::ReadCoils(..) => FunctionCode::ReadCoils,
        ResponseView::ReadDiscreteInput(..) => FunctionCode::ReadDiscreteInput,
        ResponseView::ReadHoldingRegisters(..) => FunctionCode::ReadHoldingRegisters,
        ResponseView::ReadInputRegisters(..) => FunctionCode::ReadInputRegisters,
        ResponseView::WriteSingleCoil(..) => FunctionCode::WriteSingleCoil,
        ResponseView::WriteSingleRegister(..) => FunctionCode::WriteSingleRegister,
        ResponseView::WriteMultipleCoils(..) => FunctionCode::WriteMultipleCoils,
        ResponseView::WriteMultipleRegisters(..) => FunctionCode::WriteMultipleRegisters,
        ResponseView::ReadDeviceIdentification(..) => FunctionCode::ReadDeviceIdentification,
        ResponseView::MaskWriteRegister(..) => FunctionCode::MaskWriteRegister,
        ResponseView::ReadWriteMultipleRegisters(..) => FunctionCode::ReadWriteMultipleRegisters,
        ResponseView::Custom(f, _) => f,
    }
}

/// The length of a response PDU in bytes.
pub open spec fn response_pdu_len(r: ResponseView) -> int {
    match r {
        ResponseView::ReadCoils(d) | ResponseView::ReadDiscreteInput(d) => 2 + d.bytes.len() as int,
        ResponseView::ReadHoldingRegisters(d)
        | ResponseView::ReadInputRegisters(d)
        | ResponseView::ReadWriteMultipleRegisters(d) => 2 + d.bytes.len() as int,
        ResponseView::WriteSingleCoil(..)
        | ResponseView::WriteSingleRegister(..)
        | ResponseView::WriteMultipleCoils(..)
        | ResponseView::WriteMultipleRegisters(..) => 5,
        ResponseView::ReadDeviceIdentification(_, _, _, _, _, _, _, objects) => 7 + objects_bytes(
            objects,
        ).len() as int,
        ResponseView::MaskWriteRegister(..) => 7,
        ResponseView::Custom(_, d) => 1 + d.len() as int,
    }
}

/// The bytes that encoding a response writes, from the start of the buffer:
/// the function code, then the fields big-endian, with a byte count before
/// read data; a device identification response writes its header bytes and
/// then every object of its list.
pub open spec fn response_bytes(r: ResponseView) -> Seq<u8> {
    let fc = spec_function_code_to_u8(response_function_code(r));
    match r {
        ResponseView::ReadCoils(d)
        | ResponseView::ReadDiscreteInput(d)
        | ResponseView::ReadHoldingRegisters(d)
        | ResponseView::ReadInputRegisters(d)
        | ResponseView::ReadWriteMultipleRegisters(d) => seq![fc, (d.bytes.len() % 256) as u8]
            + d.bytes,
        ResponseView::WriteSingleCoil(a, c) => seq![fc] + be_bytes(a) + be_bytes(
            spec_coil_to_u16_coil(c),
        ),
        ResponseView::WriteSingleRegister(a, v)
        | ResponseView::WriteMultipleCoils(a, v)
        | ResponseView::WriteMultipleRegisters(a, v) => seq![fc] + be_bytes(a) + be_bytes(v),
        ResponseView::ReadDeviceIdentification(_, m, c, l, more, next, n, objects) => seq![
            fc,
            spec_mei_type_to_u8(m),
            spec_read_device_id_code_to_u8(c),
            spec_conformity_level_to_u8(l),
            spec_more_follows_to_u8(more),
            next,
            n,
        ] + objects_bytes(objects),
        ResponseView::MaskWriteRegister(a, x, y) => seq![fc] + be_bytes(a) + be_bytes(x)
            + be_bytes(y),
        ResponseView::Custom(_, d) => seq![fc] + d,
    }
}

/// Whether `count` more objects can be read from `buf`, each from the window
/// of `len` bytes at `start` that the previous object's length field gives,
/// as decoding a device identification response reads them: the window must
/// lie in the buffer, hold an id and a length, and hold as many value bytes
/// as that length gives.
pub open spec fn object_walk_fits(buf: Seq<u8>, start: int, len: int, count: nat) -> bool
    decreases count,
{
    if count == 0 {
        true
    } else {
        &&& 0 <= start
        &&& start + len <= buf.len()
        &&& len >= 2
        &&& buf[start + 1] + 2 <= len
        &&& object_walk_fits(buf, start + len, buf[start + 1] as int, (count - 1) as nat)
    }
}

/// Each object read shrinks the window by at least two bytes, so reading
/// `count` objects (one or more) needs a first window of at least
/// `2 * count` bytes.
pub proof fn lemma_object_walk_needs_room(buf: Seq<u8>, start: int, len: int, count: nat)
    requires
        object_walk_fits(buf, start, len, count),
    ensures
        count == 0 || len >= 2 * count,
    decreases count,
{
    if count > 0 {
        let next = buf[start + 1] as int;
        assert(next + 2 <= len);
        lemma_object_walk_needs_room(buf, start + len, next, (count - 1) as nat);
    }
}

/// The inputs on which decoding a response is defined: a device
/// identification response must hold its header with known field values
/// and its whole list of 256 objects.
pub open spec fn response_decodable(buf: Seq<u8>) -> bool {
    (buf.len() >= 1 && buf[0] == 0x2B) ==> {
        &&& buf.len() >= 9
        &&& spec_mei_type_from_u8(buf[1]) is Ok
        &&& spec_read_device_id_code_from_u8(buf[2]) is Ok
        &&& spec_conformity_level_from_u8(buf[3]) is Ok
        &&& spec_more_follows_from_u8(buf[4]) is Ok
        &&& object_walk_fits(buf, 9, buf[8] as int, 256)
    }
}

/// No buffer under the device identification function code can be decoded
/// as a response: its first object window is at most 255 bytes long, and
/// 256 objects would need 512.
pub proof fn lemma_device_identification_response_never_decodes(buf: Seq<u8>)
    requires
        buf.len() >= 1,
        buf[0] == 0x2B,
    ensures
        !response_decodable(buf),
{
    if buf.len() >= 9 && object_walk_fits(buf, 9, buf[8] as int, 256) {
        lemma_object_walk_needs_room(buf, 9, buf[8] as int, 256);
    }
}

/// A response carrying read data: a byte count, then that many bytes.
pub open spec fn spec_decode_read_data(buf: Seq<u8>) -> Result<Seq<u8>, DecodeError> {
    if buf.len() < 2 {
        Err(incomplete(1, 2))
    } else {
        let byte_count = buf[1] as int;
        if byte_count + 2 > buf.len() {
            Err(incomplete(buf.len() as int, byte_count + 2))
        } else {
            Ok(buf.subrange(2, byte_count + 2))
        }
    }
}

/// What the body of a response under `fn_code` decodes to. Coil data
/// counts eight coils per byte and register data one register per two
/// bytes; the quantity of a multiple write response is taken as it stands.
pub open spec fn spec_decode_response_body(fn_code: FunctionCode, buf: Seq<u8>) -> Result<
    ResponseView,
    DecodeError,
> {
    match fn_code {
        FunctionCode::ReadCoils | FunctionCode::ReadDiscreteInput => match spec_decode_read_data(
            buf,
        ) {
            Err(e) => Err(e),
            Ok(bytes) => {
                let d = DataView { bytes, quantity: (bytes.len() * 8) as u16 };
                Ok(
                    if fn_code is ReadCoils {
                        ResponseView::ReadCoils(d)
                    } else {
                        ResponseView::ReadDiscreteInput(d)
                    },
                )
            },
        },
        FunctionCode::ReadHoldingRegisters
        | FunctionCode::ReadInputRegisters
        | FunctionCode::ReadWriteMultipleRegisters => match spec_decode_read_data(buf) {
            Err(e) => Err(e),
            Ok(bytes) => {
                let d = DataView { bytes, quantity: (bytes.len() / 2) as u16 };
                Ok(
                    if fn_code is ReadHoldingRegisters {
                        ResponseView::ReadHoldingRegisters(d)
                    } else if fn_code is ReadInputRegisters {
                        ResponseView::ReadInputRegisters(d)
                    } else {
                        ResponseView::ReadWriteMultipleRegisters(d)
                    },
                )
            },
        },
        FunctionCode::WriteSingleCoil
        | FunctionCode::WriteSingleRegister
        | FunctionCode::WriteMultipleCoils
        | FunctionCode::WriteMultipleRegisters => if buf.len() < 5 {
            Err(incomplete(buf.len() as int, 5))
        } else {
            let a = u16_at(buf, 1);
            let v = u16_at(buf, 3);
            match fn_code {
                FunctionCode::WriteSingleCoil => match spec_u16_coil_to_coil(v) {
                    Some(c) => Ok(ResponseView::WriteSingleCoil(a, c)),
                    None => Err(illegal_data_value(fn_code)),
                },
                FunctionCode::WriteSingleRegister => Ok(ResponseView::WriteSingleRegister(a, v)),
                FunctionCode::WriteMultipleCoils => Ok(ResponseView::WriteMultipleCoils(a, v)),
                _ => Ok(ResponseView::WriteMultipleRegisters(a, v)),
            }
        },
        FunctionCode::ReadDeviceIdentification => arbitrary(),
        FunctionCode::MaskWriteRegister => if buf.len() < 7 {
            Err(incomplete(buf.len() as int, 7))
        } else {
            Ok(ResponseView::MaskWriteRegister(u16_at(buf, 1), u16_at(buf, 3), u16_at(buf, 5)))
        },
        FunctionCode::Custom(_) => Ok(
            ResponseView::Custom(fn_code, buf.subrange(1, buf.len() as int)),
        ),
    }
}

/// What a buffer decodes to as a response (unspecified under the device
/// identification function code, which `response_decodable` rules out).
pub open spec fn spec_decode_response(buf: Seq<u8>) -> Result<ResponseView, DecodeError> {
    if buf.len() == 0 {
        Err(incomplete(0, 1))
    } else {
        match spec_function_code_from_u8(buf[0]) {
            Ok(fn_code) => spec_decode_response_body(fn_code, buf),
            Err(_) => Err(spec_exception_response_error(buf)),
        }
    }
}

/// A decoding result, with the response taken by its view.
pub open spec fn response_result_view(res: Result<Response, DecodeError>) -> Result<
    ResponseView,
    DecodeError,
> {
    match res {
        Ok(r) => Ok(r@),
        Err(e) => Err(e),
    }
}

/// The responses that survive being written and read back: read data of at
/// most 255 bytes whose quantity is the one decoding derives from its byte
/// count (eight coils or half a register per byte), a custom response under
/// a custom code that a byte names, and no device identification response,
/// which no buffer decodes to.
pub open spec fn response_is_wire_valid(r: ResponseView) -> bool {
    match r {
        ResponseView::ReadCoils(d) | ResponseView::ReadDiscreteInput(d) => d.bytes.len() <= 255
            && d.quantity == d.bytes.len() * 8,
        ResponseView::ReadHoldingRegisters(d)
        | ResponseView::ReadInputRegisters(d)
        | ResponseView::ReadWriteMultipleRegisters(d) => d.bytes.len() <= 255 && d.quantity
            == d.bytes.len() / 2,
        ResponseView::ReadDeviceIdentification(..) => false,
        ResponseView::Custom(f, _) => f is Custom && function_code_is_wire_valid(f),
        _ => true,
    }
}

/// Reading back the bytes a response is written as gives the response, and
/// those bytes fill its whole PDU length.
pub proof fn lemma_response_roundtrip(r: ResponseView)
    requires
        response_is_wire_valid(r),
    ensures
        response_bytes(r).len() == response_pdu_len(r),
        response_decodable(response_bytes(r)),
        spec_decode_response(response_bytes(r)) == Ok::<ResponseView, DecodeError>(r),
{
    let bytes = response_bytes(r);
    let fc = response_function_code(r);
    lemma_function_code_roundtrip(fc, bytes[0]);
    match r {
        ResponseView::ReadCoils(d)
        | ResponseView::ReadDiscreteInput(d)
        | ResponseView::ReadHoldingRegisters(d)
        | ResponseView::ReadInputRegisters(d)
        | ResponseView::ReadWriteMultipleRegisters(d) => {
            assert(bytes[1] == d.bytes.len());
            assert(bytes.subrange(2, 2 + d.bytes.len() as int) =~= d.bytes);
        },
        ResponseView::WriteSingleCoil(a, c) => {
            lemma_be_roundtrip(a);
            lemma_be_roundtrip(spec_coil_to_u16_coil(c));
            lemma_coil_roundtrip(c, 0);
            assert(u16_at(bytes, 1) == a);
            assert(u16_at(bytes, 3) == spec_coil_to_u16_coil(c));
        },
        ResponseView::WriteSingleRegister(a, v)
        | ResponseView::WriteMultipleCoils(a, v)
        | ResponseView::WriteMultipleRegisters(a, v) => {
            lemma_be_roundtrip(a);
            lemma_be_roundtrip(v);
            assert(u16_at(bytes, 1) == a);
            assert(u16_at(bytes, 3) == v);
        },
        ResponseView::MaskWriteRegister(a, x, y) => {
            lemma_be_roundtrip(a);
            lemma_be_roundtrip(x);
            lemma_be_roundtrip(y);
            assert(u16_at(bytes, 1) == a);
            assert(u16_at(bytes, 3) == x);
            assert(u16_at(bytes, 5) == y);
        },
        ResponseView::ReadDeviceIdentification(..) => {},
        ResponseView::Custom(f, d) => {
            assert(bytes.subrange(1, bytes.len() as int) =~= d);
        },
    }
}

/// A response read from a buffer is written back as the bytes it was read
/// from.
pub proof fn lemma_response_decode_encode(buf: Seq<u8>)
    requires
        response_decodable(buf),
        spec_decode_response(buf) is Ok,
    ensures
        response_bytes(spec_decode_response(buf)->Ok_0).len() <= buf.len(),
        response_bytes(spec_decode_response(buf)->Ok_0) == buf.take(
            response_bytes(spec_decode_response(buf)->Ok_0).len() as int,
        ),
{
    let r = spec_decode_response(buf)->Ok_0;
    let bytes = response_bytes(r);
    if buf[0] == 0x2B {
        lemma_device_identification_response_never_decodes(buf);
    }
    lemma_function_code_roundtrip(response_function_code(r), buf[0]);
    match r {
        ResponseView::WriteSingleCoil(a, c) => {
            lemma_coil_roundtrip(c, u16_at(buf, 3));
        },
        _ => {},
    }
    assert(bytes =~= buf.take(bytes.len() as int));
}

impl<'a> Response<'a> {
    pub fn pdu_len(&self) -> (res: usize)
        requires
            response_pdu_len(self@) <= usize::MAX,
        ensures
            res == response_pdu_len(self@),
    {
        match &self {
            Response::ReadCoils(coils) | Response::ReadDiscreteInput(coils) => {
                2 + coils.data().len()
            },
            Response::ReadHoldingRegisters(words)
            | Response::ReadInputRegisters(words)
            | Response::ReadWriteMultipleRegisters(words) => 2 + words.data().len(),
            Response::WriteSingleCoil(_, _)
            | Response::WriteSingleRegister(_, _)
            | Response::WriteMultipleCoils(_, _)
            | Response::WriteMultipleRegisters(_, _) => 5,
            Response::ReadDeviceIdentification(_, _, _, _, _, _, _, list_of_id_objects) => {
                7 + list_of_id_objects.bytes_len()
            },
            Response::MaskWriteRegister(_, _, _) => 7,
            Response::Custom(_, d) => 1 + d.len(),
        }
    }

    /// Writes the response at the start of `buf` and returns its PDU length;
    /// a buffer shorter than that is refused and left as it was.
    pub fn encode(&self, buf: &mut [u8]) -> (res: Result<usize, EncodeError>)
        requires
            response_pdu_len(self@) <= usize::MAX,
        ensures
            response_pdu_len(self@) <= old(buf)@.len() ==> res == Ok::<usize, EncodeError>(
                response_pdu_len(self@) as usize,
            ) && final(buf)@ == splice(old(buf)@, 0, response_bytes(self@)),
            response_pdu_len(self@) > old(buf)@.len() ==> res == Err::<usize, EncodeError>(
                EncodeError::InvalidBufferSize,
            ) && final(buf)@ == old(buf)@,
    {
        if self.pdu_len() > buf.len() {
            return Err(EncodeError::InvalidBufferSize);
        }
        let ghost base = buf@;
        let fc: u8 = FunctionCode::from(self).into();
        assert(splice(base, 0, Seq::<u8>::empty()) =~= base);
        emit_u8(buf, 0, fc, Ghost(base), Ghost(Seq::<u8>::empty()));
        let ghost w0: Seq<u8> = seq![fc];
        assert(Seq::<u8>::empty() + seq![fc] =~= w0);
        match &self {
            Response::ReadCoils(coils) | Response::ReadDiscreteInput(coils) => {
                let data = coils.data();
                emit_u8(buf, 1, (data.len() % 256) as u8, Ghost(base), Ghost(w0));
                let ghost w1 = w0 + seq![(data@.len() % 256) as u8];
                assert(w1 =~= seq![fc, (data@.len() % 256) as u8]);
                emit_slice(buf, 2, data, Ghost(base), Ghost(w1));
            },
            Response::ReadHoldingRegisters(words)
            | Response::ReadInputRegisters(words)
            | Response::ReadWriteMultipleRegisters(words) => {
                let data = words.data();
                emit_u8(buf, 1, (data.len() % 256) as u8, Ghost(base), Ghost(w0));
                let ghost w1 = w0 + seq![(data@.len() % 256) as u8];
                assert(w1 =~= seq![fc, (data@.len() % 256) as u8]);
                emit_slice(buf, 2, data, Ghost(base), Ghost(w1));
            },
            Response::WriteSingleCoil(address, coil) => {
                emit_u16(buf, 1, *address, Ghost(base), Ghost(w0));
                let data = coil_to_u16_coil(*coil);
                emit_u16(buf, 3, data, Ghost(base), Ghost(w0 + be_bytes(*address)));
            },
            Response::WriteSingleRegister(address, data)
            | Response::WriteMultipleCoils(address, data)
            | Response::WriteMultipleRegisters(address, data) => {
                emit_u16(buf, 1, *address, Ghost(base), Ghost(w0));
                emit_u16(buf, 3, *data, Ghost(base), Ghost(w0 + be_bytes(*address)));
            },
            Response::ReadDeviceIdentification(
                _,
                mei_type,
                read_device_id_code,
                conformity_level,
                more_follows,
                next_object_id,
                number_of_objects,
                list_of_id_objects,
            ) => {
                emit_u8(buf, 1, u8::from(*mei_type), Ghost(base), Ghost(w0));
                let ghost w1 = w0 + seq![spec_mei_type_to_u8(*mei_type)];
                emit_u8(buf, 2, u8::from(*read_device_id_code), Ghost(base), Ghost(w1));
                let ghost w2 = w1 + seq![spec_read_device_id_code_to_u8(*read_device_id_code)];
                emit_u8(buf, 3, u8::from(*conformity_level), Ghost(base), Ghost(w2));
                let ghost w3 = w2 + seq![spec_conformity_level_to_u8(*conformity_level)];
                emit_u8(buf, 4, u8::from(*more_follows), Ghost(base), Ghost(w3));
                let ghost w4 = w3 + seq![spec_more_follows_to_u8(*more_follows)];
                emit_u8(buf, 5, *next_object_id, Ghost(base), Ghost(w4));
                let ghost w5 = w4 + seq![*next_object_id];
                emit_u8(buf, 6, *number_of_objects, Ghost(base), Ghost(w5));
                let ghost w6 = w5 + seq![*number_of_objects];
                let objects = list_of_id_objects.bytes();
                assert(w6 =~= seq![
                    fc,
                    spec_mei_type_to_u8(*mei_type),
                    spec_read_device_id_code_to_u8(*read_device_id_code),
                    spec_conformity_level_to_u8(*conformity_level),
                    spec_more_follows_to_u8(*more_follows),
                    *next_object_id,
                    *number_of_objects,
                ]);
                emit_slice(buf, 7, objects.as_slice(), Ghost(base), Ghost(w6));
            },
            Response::MaskWriteRegister(address, and_mask, or_mask) => {
                emit_u16(buf, 1, *address, Ghost(base), Ghost(w0));
                let ghost w1 = w0 + be_bytes(*address);
                emit_u16(buf, 3, *and_mask, Ghost(base), Ghost(w1));
                emit_u16(buf, 5, *or_mask, Ghost(base), Ghost(w1 + be_bytes(*and_mask)));
            },
            Response::Custom(_, data) => {
                emit_slice(buf, 1, data, Ghost(base), Ghost(w0));
            },
        }
        Ok(self.pdu_len())
    }

    /// Reads a response from the start of `buf`.
    pub fn decode(buf: &'a [u8]) -> (res: Result<Self, DecodeError>)
        requires
            response_decodable(buf@),
        ensures
            response_result_view(res) == spec_decode_response(buf@),
    {
        if buf.is_empty() {
            return Err(DecodeError::IncompleteBuffer { current_size: 0, min_needed_size: 1 });
        }
        let fn_code = match decode_function_code(buf) {
            Ok(fn_code) => fn_code,
            Err(e) => return Err(e),
        };

        let response = match fn_code {
            FunctionCode::ReadCoils | FunctionCode::ReadDiscreteInput => {
                if buf.len() < 2 {
                    return Err(DecodeError::IncompleteBuffer { current_size: 1, min_needed_size: 2 });
                }
                let byte_count = buf[1] as usize;
                if byte_count + 2 > buf.len() {
                    return Err(
                        DecodeError::IncompleteBuffer {
                            current_size: buf.len(),
                            min_needed_size: byte_count + 2,
                        },
                    );
                }
                let data = vstd::slice::slice_subrange(buf, 2, byte_count + 2);
                let quantity = (byte_count * 8) as u16;
                match fn_code {
                    FunctionCode::ReadCoils => Response::ReadCoils(DataCoils::new(data, quantity)),
                    _ => Response::ReadDiscreteInput(DataCoils::new(data, quantity)),
                }
            },
            FunctionCode::ReadHoldingRegisters
            | FunctionCode::ReadInputRegisters
            | FunctionCode::ReadWriteMultipleRegisters => {
                if buf.len() < 2 {
                    return Err(DecodeError::IncompleteBuffer { current_size: 1, min_needed_size: 2 });
                }
                let byte_count = buf[1] as usize;
                if byte_count + 2 > buf.len() {
                    return Err(
                        DecodeError::IncompleteBuffer {
                            current_size: buf.len(),
                            min_needed_size: byte_count + 2,
                        },
                    );
                }
                let data = vstd::slice::slice_subrange(buf, 2, byte_count + 2);
                let quantity = (byte_count / 2) as u16;
                match fn_code {
                    FunctionCode::ReadHoldingRegisters => Response::ReadHoldingRegisters(
                        DataWords::new(data, quantity),
                    ),
                    FunctionCode::ReadInputRegisters => Response::ReadInputRegisters(
                        DataWords::new(data, quantity),
                    ),
                    _ => Response::ReadWriteMultipleRegisters(DataWords::new(data, quantity)),
                }
            },
            FunctionCode::WriteSingleCoil
            | FunctionCode::WriteSingleRegister
            | FunctionCode::WriteMultipleCoils
            | FunctionCode::WriteMultipleRegisters => {
                if 5 > buf.len() {
                    return Err(
                        DecodeError::IncompleteBuffer { current_size: buf.len(), min_needed_size: 5 },
                    );
                }
                let address = get_u16(buf, 1);
                let data = get_u16(buf, 3);
                match fn_code {
                    FunctionCode::WriteSingleCoil => {
                        let value = match data {
                            0x0000 => false,
                            0xff00 => true,
                            _ => {
                                return Err(
                                    DecodeError::ModbusExceptionError(
                                        fn_code,
                                        ExceptionError::IllegalDataValue,
                                    ),
                                );
                            },
                        };
                        Response::WriteSingleCoil(address, value)
                    },
                    FunctionCode::WriteSingleRegister => Response::WriteSingleRegister(address, data),
                    FunctionCode::WriteMultipleCoils => {
                        if data >= 0x0001 || data <= 0x07b0 {
                            Response::WriteMultipleCoils(address, data)
                        } else {
                            return Err(
                                DecodeError::ModbusExceptionError(
                                    fn_code,
                                    ExceptionError::IllegalDataValue,
                                ),
                            );
                        }
                    },
                    _ => {
                        if data >= 0x0001 || data <= 0x007b {
                            Response::WriteMultipleRegisters(address, data)
                        } else {
                            return Err(
                                DecodeError::ModbusExceptionError(
                                    fn_code,
                                    ExceptionError::IllegalDataValue,
                                ),
                            );
                        }
                    },
                }
            },
            FunctionCode::ReadDeviceIdentification => {
                let mei_type = MeiType::try_from(buf[1]).unwrap();
                let read_device_id_code = ReadDeviceIdCode::try_from(buf[2]).unwrap();
                let conformity_level = ConformityLevel::try_from(buf[3]).unwrap();
                let more_follows = MoreFollows::try_from(buf[4]).unwrap();
                let next_object_id = buf[5];
                let number_of_objects = buf[6];

                let mut obj_start_byte_index: usize = 9;
                let mut obj_length: usize = buf[8] as usize;
                let mut list_of_objects = [DeviceIdentificationObject::new_empty(); 256];
                let buf_len = buf.len();
                let mut k: usize = 0;
                while k < 256
                    invariant
                        k <= 256,
                        buf_len == buf@.len(),
                        object_walk_fits(
                            buf@,
                            obj_start_byte_index as int,
                            obj_length as int,
                            (256 - k) as nat,
                        ),
                    decreases 256 - k,
                {
                    let window = vstd::slice::slice_subrange(
                        buf,
                        obj_start_byte_index,
                        obj_start_byte_index + obj_length,
                    );
                    let dio = DeviceIdentificationObject::try_from(window).unwrap();
                    obj_start_byte_index += obj_length;
                    obj_length = dio.length as usize;
                    list_of_objects[k] = dio;
                    k = k + 1;
                }
                proof {
                    lemma_device_identification_response_never_decodes(buf@);
                }
                Response::ReadDeviceIdentification(
                    fn_code,
                    mei_type,
                    read_device_id_code,
                    conformity_level,
                    more_follows,
                    next_object_id,
                    number_of_objects,
                    ListOfIdObjects { list_of_id_objects: list_of_objects },
                )
            },
            FunctionCode::MaskWriteRegister => {
                if 7 > buf.len() {
                    return Err(
                        DecodeError::IncompleteBuffer { current_size: buf.len(), min_needed_size: 7 },
                    );
                }
                let reference_address = get_u16(buf, 1);
                let and_mask = get_u16(buf, 3);
                let or_mask = get_u16(buf, 5);
                Response::MaskWriteRegister(reference_address, and_mask, or_mask)
            },
            FunctionCode::Custom(_) => Response::Custom(
                fn_code,
                vstd::slice::slice_subrange(buf, 1, buf.len()),
            ),
        };
        Ok(response)
    }

    /// Reads a response from the start of `buf`, as `decode` does.
    pub fn try_from(buf: &'a [u8]) -> (res: Result<Self, DecodeError>)
        requires
            response_decodable(buf@),
        ensures
            response_result_view(res) == spec_decode_response(buf@),
    {
        Self::decode(buf)
    }
}

} // verus!

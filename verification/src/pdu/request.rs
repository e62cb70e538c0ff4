use vstd::prelude::*;

use crate::error::{DecodeError, EncodeError, ExceptionError};
use crate::pdu::identification::ObjectId;
use crate::pdu::identification::mei_type::{
    MeiType,
    lemma_mei_type_roundtrip,
    spec_mei_type_from_u8,
    spec_mei_type_to_u8,
};
use crate::pdu::identification::read_device_id_code::{
    ReadDeviceIdCode,
    lemma_read_device_id_code_roundtrip,
    spec_read_device_id_code_from_u8,
    spec_read_device_id_code_to_u8,
};

use super::function_code::{
    FunctionCode,
    function_code_is_wire_valid,
    lemma_function_code_roundtrip,
    spec_function_code_from_u8,
    spec_function_code_to_u8,
};
use super::{
    Address,
    DataCoils,
    DataView,
    DataWords,
    Quantity,
    be_bytes,
    coil_to_u16_coil,
    lemma_be_roundtrip,
    lemma_coil_roundtrip,
    decode_function_code,
    emit_slice,
    emit_u16,
    emit_u8,
    get_u16,
    illegal_data_value,
    incomplete,
    spec_coil_to_u16_coil,
    spec_exception_response_error,
    spec_u16_coil_to_coil,
    splice,
    u16_at,
    u16_coil_to_coil,
};

verus! {

/// A request PDU, as a client sends it.
#[derive(Debug, PartialEq, Eq)]
pub enum Request<'a> {
    ReadDeviceIdentification(MeiType, ReadDeviceIdCode, ObjectId),
    ReadCoils(Address, Quantity),
    ReadDiscreteInput(Address, Quantity),
    ReadHoldingRegisters(Address, Quantity),
    ReadInputRegisters(Address, Quantity),
    WriteSingleCoil(Address, bool),
    WriteSingleRegister(Address, u16),
    WriteMultipleCoils(Address, DataCoils<'a>),
    WriteMultipleRegisters(Address, DataWords<'a>),
    MaskWriteRegister(Address, u16, u16),
    ReadWriteMultipleRegisters(Address, Quantity, Address, DataWords<'a>),
    Custom(FunctionCode, &'a [u8]),
}

/// What a request holds, with its byte runs as sequences.
#[verifier::ext_equal]
pub enum RequestView {
    ReadDeviceIdentification(MeiType, ReadDeviceIdCode, ObjectId),
    ReadCoils(Address, Quantity),
    ReadDiscreteInput(Address, Quantity),
    ReadHoldingRegisters(Address, Quantity),
    ReadInputRegisters(Address, Quantity),
    WriteSingleCoil(Address, bool),
    WriteSingleRegister(Address, u16),
    WriteMultipleCoils(Address, DataView),
    WriteMultipleRegisters(Address, DataView),
    MaskWriteRegister(Address, u16, u16),
    ReadWriteMultipleRegisters(Address, Quantity, Address, DataView),
    Custom(FunctionCode, Seq<u8>),
}

impl<'a> View for Request<'a> {
    type V = RequestView;

    open spec fn view(&self) -> RequestView {
        match *self {
            Request::ReadDeviceIdentification(m, c, o) => RequestView::ReadDeviceIdentification(
                m,
                c,
                o,
            ),
            Request::ReadCoils(a, q) => RequestView::ReadCoils(a, q),
            Request::ReadDiscreteInput(a, q) => RequestView::ReadDiscreteInput(a, q),
            Request::ReadHoldingRegisters(a, q) => RequestView::ReadHoldingRegisters(a, q),
            Request::ReadInputRegisters(a, q) => RequestView::ReadInputRegisters(a, q),
            Request::WriteSingleCoil(a, c) => RequestView::WriteSingleCoil(a, c),
            Request::WriteSingleRegister(a, w) => RequestView::WriteSingleRegister(a, w),
            Request::WriteMultipleCoils(a, c) => RequestView::WriteMultipleCoils(a, c@),
            Request::WriteMultipleRegisters(a, w) => RequestView::WriteMultipleRegisters(a, w@),
            Request::MaskWriteRegister(a, x, y) => RequestView::MaskWriteRegister(a, x, y),
            Request::ReadWriteMultipleRegisters(ra, rq, wa, w) =>
                RequestView::ReadWriteMultipleRegisters(ra, rq, wa, w@),
            Request::Custom(f, d) => RequestView::Custom(f, d@),
        }
    }
}

/// The function code a request is sent under.
pub open spec fn request_function_code(r: RequestView) -> FunctionCode {
    match r {
        RequestView::ReadDeviceIdentification(..) => FunctionCode::ReadDeviceIdentification,
        RequestView::ReadCoils(..) => FunctionCode::ReadCoils,
        RequestView::ReadDiscreteInput(..) => FunctionCode::ReadDiscreteInput,
        RequestView::ReadHoldingRegisters(..) => FunctionCode::ReadHoldingRegisters,
        RequestView::ReadInputRegisters(..) => FunctionCode::ReadInputRegisters,
        RequestView::WriteSingleCoil(..) => FunctionCode::WriteSingleCoil,
        RequestView::WriteSingleRegister(..) => FunctionCode::WriteSingleRegister,
        RequestView::WriteMultipleCoils(..) => FunctionCode::WriteMultipleCoils,
        RequestView::WriteMultipleRegisters(..) => FunctionCode::WriteMultipleRegisters,
        RequestView::MaskWriteRegister(..) => FunctionCode::MaskWriteRegister,
        RequestView::ReadWriteMultipleRegisters(..) => FunctionCode::ReadWriteMultipleRegisters,
        RequestView::Custom(f, _) => f,
    }
}

/// The length of a request PDU in bytes.
pub open spec fn request_pdu_len(r: RequestView) -> int {
    match r {
        RequestView::ReadDeviceIdentification(..) => 4,
        RequestView::ReadCoils(..)
        | RequestView::ReadDiscreteInput(..)
        | RequestView::ReadHoldingRegisters(..)
        | RequestView::ReadInputRegisters(..)
        | RequestView::WriteSingleCoil(..)
        | RequestView::WriteSingleRegister(..) => 5,
        RequestView::WriteMultipleCoils(_, d) => 6 + d.bytes.len() as int,
        RequestView::WriteMultipleRegisters(_, d) => 6 + d.bytes.len() as int,
        RequestView::MaskWriteRegister(..) => 7,
        RequestView::ReadWriteMultipleRegisters(_, _, _, d) => 10 + d.bytes.len() as int,
        RequestView::Custom(_, d) => 1 + d.len() as int,
    }
}

/// The bytes that encoding a request writes, from the start of the buffer:
/// the function code, then the fields big-endian, with the byte count before
/// the data of multiple writes. A read/write of multiple registers writes
/// its data right after the write quantity, where the byte count belongs,
/// and leaves the last byte of its PDU length as it was.
pub open spec fn request_bytes(r: RequestView) -> Seq<u8> {
    let fc = spec_function_code_to_u8(request_function_code(r));
    match r {
        RequestView::ReadDeviceIdentification(m, c, o) => seq![
            fc,
            spec_mei_type_to_u8(m),
            spec_read_device_id_code_to_u8(c),
            o,
        ],
        RequestView::ReadCoils(a, q)
        | RequestView::ReadDiscreteInput(a, q)
        | RequestView::ReadHoldingRegisters(a, q)
        | RequestView::ReadInputRegisters(a, q) => seq![fc] + be_bytes(a) + be_bytes(q),
        RequestView::WriteSingleCoil(a, c) => seq![fc] + be_bytes(a) + be_bytes(
            spec_coil_to_u16_coil(c),
        ),
        RequestView::WriteSingleRegister(a, w) => seq![fc] + be_bytes(a) + be_bytes(w),
        RequestView::WriteMultipleCoils(a, d) | RequestView::WriteMultipleRegisters(a, d) => seq![
            fc,
        ] + be_bytes(a) + be_bytes(d.quantity) + seq![(d.bytes.len() % 256) as u8] + d.bytes,
        RequestView::MaskWriteRegister(a, x, y) => seq![fc] + be_bytes(a) + be_bytes(x) + be_bytes(
            y,
        ),
        RequestView::ReadWriteMultipleRegisters(ra, rq, wa, d) => seq![fc] + be_bytes(ra)
            + be_bytes(rq) + be_bytes(wa) + be_bytes(d.quantity) + d.bytes,
        RequestView::Custom(_, d) => seq![fc] + d,
    }
}

/// The inputs on which decoding a request is defined: a device
/// identification read of at most 5 bytes must hold its 4 bytes with a
/// known MEI type and a known read code.
pub open spec fn request_decodable(buf: Seq<u8>) -> bool {
    (buf.len() >= 1 && buf[0] == 0x2B && buf.len() <= 5) ==> {
        &&& buf.len() >= 4
        &&& spec_mei_type_from_u8(buf[1]) is Ok
        &&& spec_read_device_id_code_from_u8(buf[2]) is Ok
    }
}

/// A read request: address and quantity, the quantity between 1 and
/// `max_quantity`.
pub open spec fn spec_decode_read_request(fn_code: FunctionCode, buf: Seq<u8>) -> Result<
    RequestView,
    DecodeError,
> {
    if buf.len() < 5 {
        Err(incomplete(buf.len() as int, 5))
    } else {
        let a = u16_at(buf, 1);
        let q = u16_at(buf, 3);
        let max_quantity: u16 = if fn_code is ReadCoils || fn_code is ReadDiscreteInput {
            0x07d0
        } else {
            0x7d
        };
        if q == 0 || q > max_quantity {
            Err(illegal_data_value(fn_code))
        } else {
            Ok(
                match fn_code {
                    FunctionCode::ReadCoils => RequestView::ReadCoils(a, q),
                    FunctionCode::ReadDiscreteInput => RequestView::ReadDiscreteInput(a, q),
                    FunctionCode::ReadHoldingRegisters => RequestView::ReadHoldingRegisters(a, q),
                    _ => RequestView::ReadInputRegisters(a, q),
                },
            )
        }
    }
}

/// A multiple write request: address, quantity between 1 and `max_quantity`,
/// byte count, then that many data bytes.
pub open spec fn spec_decode_multiple_write_request(
    fn_code: FunctionCode,
    buf: Seq<u8>,
) -> Result<RequestView, DecodeError> {
    if buf.len() < 6 {
        Err(incomplete(buf.len() as int, 6))
    } else {
        let a = u16_at(buf, 1);
        let q = u16_at(buf, 3);
        let max_quantity: u16 = if fn_code is WriteMultipleCoils {
            0x07b0
        } else {
            0x7b
        };
        if q == 0 || q > max_quantity {
            Err(illegal_data_value(fn_code))
        } else {
            let byte_count = buf[5] as int;
            if byte_count + 6 > buf.len() {
                Err(incomplete(buf.len() as int, byte_count + 6))
            } else {
                let d = DataView { bytes: buf.subrange(6, byte_count + 6), quantity: q };
                Ok(
                    if fn_code is WriteMultipleCoils {
                        RequestView::WriteMultipleCoils(a, d)
                    } else {
                        RequestView::WriteMultipleRegisters(a, d)
                    },
                )
            }
        }
    }
}

/// A read/write of multiple registers: read address, read quantity (1 to
/// 125), write address, write quantity (1 to 125), byte count, data.
pub open spec fn spec_decode_read_write_request(buf: Seq<u8>) -> Result<RequestView, DecodeError> {
    let fn_code = FunctionCode::ReadWriteMultipleRegisters;
    if buf.len() < 10 {
        Err(incomplete(buf.len() as int, 10))
    } else {
        let rq = u16_at(buf, 3);
        let wq = u16_at(buf, 7);
        if rq == 0 || rq > 0x7d {
            Err(illegal_data_value(fn_code))
        } else if wq == 0 || wq > 0x7d {
            Err(illegal_data_value(fn_code))
        } else {
            let byte_count = buf[9] as int;
            if byte_count + 10 > buf.len() {
                Err(incomplete(buf.len() as int, byte_count + 10))
            } else {
                Ok(
                    RequestView::ReadWriteMultipleRegisters(
                        u16_at(buf, 1),
                        rq,
                        u16_at(buf, 5),
                        DataView { bytes: buf.subrange(10, byte_count + 10), quantity: wq },
                    ),
                )
            }
        }
    }
}

/// What the body of a request under `fn_code` decodes to.
pub open spec fn spec_decode_request_body(fn_code: FunctionCode, buf: Seq<u8>) -> Result<
    RequestView,
    DecodeError,
> {
    match fn_code {
        FunctionCode::ReadCoils
        | FunctionCode::ReadDiscreteInput
        | FunctionCode::ReadHoldingRegisters
        | FunctionCode::ReadInputRegisters => spec_decode_read_request(fn_code, buf),
        FunctionCode::WriteSingleCoil => if buf.len() < 5 {
            Err(incomplete(buf.len() as int, 5))
        } else {
            match spec_u16_coil_to_coil(u16_at(buf, 3)) {
                Some(c) => Ok(RequestView::WriteSingleCoil(u16_at(buf, 1), c)),
                None => Err(illegal_data_value(fn_code)),
            }
        },
        FunctionCode::WriteSingleRegister => if buf.len() < 5 {
            Err(incomplete(buf.len() as int, 5))
        } else {
            Ok(RequestView::WriteSingleRegister(u16_at(buf, 1), u16_at(buf, 3)))
        },
        FunctionCode::WriteMultipleCoils | FunctionCode::WriteMultipleRegisters =>
            spec_decode_multiple_write_request(fn_code, buf),
        FunctionCode::ReadDeviceIdentification => if buf.len() > 5 {
            Err(incomplete(buf.len() as int, 4))
        } else {
            Ok(
                RequestView::ReadDeviceIdentification(
                    spec_mei_type_from_u8(buf[1])->Ok_0,
                    spec_read_device_id_code_from_u8(buf[2])->Ok_0,
                    buf[3],
                ),
            )
        },
        FunctionCode::MaskWriteRegister => if buf.len() < 7 {
            Err(incomplete(buf.len() as int, 7))
        } else {
            Ok(RequestView::MaskWriteRegister(u16_at(buf, 1), u16_at(buf, 3), u16_at(buf, 5)))
        },
        FunctionCode::ReadWriteMultipleRegisters => spec_decode_read_write_request(buf),
        FunctionCode::Custom(_) => Ok(RequestView::Custom(fn_code, buf.subrange(1, buf.len() as int))),
    }
}

/// What a buffer decodes to as a request.
pub open spec fn spec_decode_request(buf: Seq<u8>) -> Result<RequestView, DecodeError> {
    if buf.len() == 0 {
        Err(incomplete(0, 1))
    } else {
        match spec_function_code_from_u8(buf[0]) {
            Ok(fn_code) => spec_decode_request_body(fn_code, buf),
            Err(_) => Err(spec_exception_response_error(buf)),
        }
    }
}

/// A decoding result, with the request taken by its view.
pub open spec fn request_result_view(res: Result<Request, DecodeError>) -> Result<
    RequestView,
    DecodeError,
> {
    match res {
        Ok(r) => Ok(r@),
        Err(e) => Err(e),
    }
}

/// The requests that survive being written and read back: quantities in
/// the ranges decoding accepts, at most 255 data bytes, a custom request
/// under a custom code that a byte names, and no read/write of multiple
/// registers, whose data is written where its byte count is read from.
pub open spec fn request_is_wire_valid(r: RequestView) -> bool {
    match r {
        RequestView::ReadCoils(_, q) | RequestView::ReadDiscreteInput(_, q) => 1 <= q <= 0x07d0,
        RequestView::ReadHoldingRegisters(_, q) | RequestView::ReadInputRegisters(_, q) => 1 <= q
            <= 0x7d,
        RequestView::WriteMultipleCoils(_, d) => 1 <= d.quantity <= 0x07b0 && d.bytes.len() <= 255,
        RequestView::WriteMultipleRegisters(_, d) => 1 <= d.quantity <= 0x7b && d.bytes.len()
            <= 255,
        RequestView::ReadWriteMultipleRegisters(..) => false,
        RequestView::Custom(f, _) => f is Custom && function_code_is_wire_valid(f),
        _ => true,
    }
}

/// Reading back the bytes a request is written as gives the request, and
/// those bytes fill its whole PDU length.
pub proof fn lemma_request_roundtrip(r: RequestView)
    requires
        request_is_wire_valid(r),
    ensures
        request_bytes(r).len() == request_pdu_len(r),
        request_decodable(request_bytes(r)),
        spec_decode_request(request_bytes(r)) == Ok::<RequestView, DecodeError>(r),
{
    let bytes = request_bytes(r);
    let fc = request_function_code(r);
    lemma_function_code_roundtrip(fc, bytes[0]);
    match r {
        RequestView::ReadDeviceIdentification(m, c, o) => {
            lemma_mei_type_roundtrip(m, bytes[1]);
            lemma_read_device_id_code_roundtrip(c, bytes[2]);
        },
        RequestView::ReadCoils(a, q)
        | RequestView::ReadDiscreteInput(a, q)
        | RequestView::ReadHoldingRegisters(a, q)
        | RequestView::ReadInputRegisters(a, q) => {
            lemma_be_roundtrip(a);
            lemma_be_roundtrip(q);
            assert(u16_at(bytes, 1) == a);
            assert(u16_at(bytes, 3) == q);
        },
        RequestView::WriteSingleCoil(a, c) => {
            lemma_be_roundtrip(a);
            lemma_be_roundtrip(spec_coil_to_u16_coil(c));
            lemma_coil_roundtrip(c, 0);
            assert(u16_at(bytes, 1) == a);
            assert(u16_at(bytes, 3) == spec_coil_to_u16_coil(c));
        },
        RequestView::WriteSingleRegister(a, w) => {
            lemma_be_roundtrip(a);
            lemma_be_roundtrip(w);
            assert(u16_at(bytes, 1) == a);
            assert(u16_at(bytes, 3) == w);
        },
        RequestView::WriteMultipleCoils(a, d) | RequestView::WriteMultipleRegisters(a, d) => {
            lemma_be_roundtrip(a);
            lemma_be_roundtrip(d.quantity);
            assert(u16_at(bytes, 1) == a);
            assert(u16_at(bytes, 3) == d.quantity);
            assert(bytes[5] == d.bytes.len());
            assert(bytes.subrange(6, 6 + d.bytes.len() as int) =~= d.bytes);
        },
        RequestView::MaskWriteRegister(a, x, y) => {
            lemma_be_roundtrip(a);
            lemma_be_roundtrip(x);
            lemma_be_roundtrip(y);
            assert(u16_at(bytes, 1) == a);
            assert(u16_at(bytes, 3) == x);
            assert(u16_at(bytes, 5) == y);
        },
        RequestView::ReadWriteMultipleRegisters(..) => {},
        RequestView::Custom(f, d) => {
            assert(bytes.subrange(1, bytes.len() as int) =~= d);
        },
    }
}

/// A request read from a buffer is written back as the bytes it was read
/// from, unless it is a read/write of multiple registers, whose data is
/// written where its byte count was read from.
pub proof fn lemma_request_decode_encode(buf: Seq<u8>)
    requires
        request_decodable(buf),
        spec_decode_request(buf) is Ok,
        !(spec_decode_request(buf)->Ok_0 is ReadWriteMultipleRegisters),
    ensures
        request_bytes(spec_decode_request(buf)->Ok_0).len() <= buf.len(),
        request_bytes(spec_decode_request(buf)->Ok_0) == buf.take(
            request_bytes(spec_decode_request(buf)->Ok_0).len() as int,
        ),
{
    let r = spec_decode_request(buf)->Ok_0;
    let bytes = request_bytes(r);
    lemma_function_code_roundtrip(request_function_code(r), buf[0]);
    match r {
        RequestView::ReadDeviceIdentification(m, c, o) => {
            lemma_mei_type_roundtrip(m, buf[1]);
            lemma_read_device_id_code_roundtrip(c, buf[2]);
        },
        RequestView::WriteSingleCoil(a, c) => {
            lemma_coil_roundtrip(c, u16_at(buf, 3));
        },
        _ => {},
    }
    assert(bytes =~= buf.take(bytes.len() as int));
}

impl<'a> Request<'a> {
    pub fn pdu_len(&self) -> (res: usize)
        requires
            request_pdu_len(self@) <= usize::MAX,
        ensures
            res == request_pdu_len(self@),
    {
        match &self {
            Request::ReadDeviceIdentification(_, _, _) => 4,
            Request::ReadCoils(_, _)
            | Request::ReadDiscreteInput(_, _)
            | Request::ReadHoldingRegisters(_, _)
            | Request::ReadInputRegisters(_, _)
            | Request::WriteSingleCoil(_, _)
            | Request::WriteSingleRegister(_, _) => 5,
            Request::WriteMultipleCoils(_, coils) => 6 + coils.data().len(),
            Request::WriteMultipleRegisters(_, words) => 6 + words.data().len(),
            Request::MaskWriteRegister(_, _, _) => 7,
            Request::ReadWriteMultipleRegisters(_, _, _, words) => 10 + words.data().len(),
            Request::Custom(_, d) => 1 + d.len(),
        }
    }

    /// Writes the request at the start of `buf` and returns its PDU length;
    /// a buffer shorter than that is refused and left as it was.
    pub fn encode(&self, buf: &mut [u8]) -> (res: Result<usize, EncodeError>)
        requires
            request_pdu_len(self@) <= usize::MAX,
        ensures
            request_pdu_len(self@) <= old(buf)@.len() ==> res == Ok::<usize, EncodeError>(
                request_pdu_len(self@) as usize,
            ) && final(buf)@ == splice(old(buf)@, 0, request_bytes(self@)),
            request_pdu_len(self@) > old(buf)@.len() ==> res == Err::<usize, EncodeError>(
                EncodeError::InvalidBufferSize,
            ) && final(buf)@ == old(buf)@,
    {
        if self.pdu_len() > buf.len() {
            return Err(EncodeError::InvalidBufferSize);
        }
        let ghost base = buf@;
        let fc: u8 = FunctionCode::from(self).into();
        assert(splice(base, 0, Seq::<u8>::empty()) =~= base);
        emit_u8(buf, 0, fc, Ghost(base), Ghost(Seq::<u8>::empty()));
        let ghost w0: Seq<u8> = seq![fc];
        assert(Seq::<u8>::empty() + seq![fc] =~= w0);
        match &self {
            Request::ReadDeviceIdentification(mei_type, read_device_id_code, object_id) => {
                emit_u8(buf, 1, u8::from(*mei_type), Ghost(base), Ghost(w0));
                let ghost w1 = w0 + seq![spec_mei_type_to_u8(*mei_type)];
                emit_u8(buf, 2, u8::from(*read_device_id_code), Ghost(base), Ghost(w1));
                let ghost w2 = w1 + seq![spec_read_device_id_code_to_u8(*read_device_id_code)];
                emit_u8(buf, 3, *object_id, Ghost(base), Ghost(w2));
                assert(w2 + seq![*object_id] =~= request_bytes(self@));
            },
            Request::ReadCoils(address, quantity)
            | Request::ReadDiscreteInput(address, quantity)
            | Request::ReadHoldingRegisters(address, quantity)
            | Request::ReadInputRegisters(address, quantity) => {
                emit_u16(buf, 1, *address, Ghost(base), Ghost(w0));
                emit_u16(buf, 3, *quantity, Ghost(base), Ghost(w0 + be_bytes(*address)));
            },
            Request::WriteSingleCoil(address, coil) => {
                let data = coil_to_u16_coil(*coil);
                emit_u16(buf, 1, *address, Ghost(base), Ghost(w0));
                emit_u16(buf, 3, data, Ghost(base), Ghost(w0 + be_bytes(*address)));
            },
            Request::WriteSingleRegister(address, word) => {
                emit_u16(buf, 1, *address, Ghost(base), Ghost(w0));
                emit_u16(buf, 3, *word, Ghost(base), Ghost(w0 + be_bytes(*address)));
            },
            Request::WriteMultipleCoils(address, coils) => {
                let data = coils.data();
                emit_u16(buf, 1, *address, Ghost(base), Ghost(w0));
                let ghost w1 = w0 + be_bytes(*address);
                emit_u16(buf, 3, coils.quantity(), Ghost(base), Ghost(w1));
                let ghost w2 = w1 + be_bytes(coils@.quantity);
                emit_u8(buf, 5, (data.len() % 256) as u8, Ghost(base), Ghost(w2));
                let ghost w3 = w2 + seq![(data@.len() % 256) as u8];
                emit_slice(buf, 6, data, Ghost(base), Ghost(w3));
            },
            Request::WriteMultipleRegisters(address, words) => {
                let data = words.data();
                emit_u16(buf, 1, *address, Ghost(base), Ghost(w0));
                let ghost w1 = w0 + be_bytes(*address);
                emit_u16(buf, 3, words.quantity(), Ghost(base), Ghost(w1));
                let ghost w2 = w1 + be_bytes(words@.quantity);
                emit_u8(buf, 5, (data.len() % 256) as u8, Ghost(base), Ghost(w2));
                let ghost w3 = w2 + seq![(data@.len() % 256) as u8];
                emit_slice(buf, 6, data, Ghost(base), Ghost(w3));
            },
            Request::MaskWriteRegister(address, and_mask, or_mask) => {
                emit_u16(buf, 1, *address, Ghost(base), Ghost(w0));
                let ghost w1 = w0 + be_bytes(*address);
                emit_u16(buf, 3, *and_mask, Ghost(base), Ghost(w1));
                emit_u16(buf, 5, *or_mask, Ghost(base), Ghost(w1 + be_bytes(*and_mask)));
            },
            Request::ReadWriteMultipleRegisters(
                read_address,
                read_quantity,
                write_address,
                write_words,
            ) => {
                let data = write_words.data();
                emit_u16(buf, 1, *read_address, Ghost(base), Ghost(w0));
                let ghost w1 = w0 + be_bytes(*read_address);
                emit_u16(buf, 3, *read_quantity, Ghost(base), Ghost(w1));
                let ghost w2 = w1 + be_bytes(*read_quantity);
                emit_u16(buf, 5, *write_address, Ghost(base), Ghost(w2));
                let ghost w3 = w2 + be_bytes(*write_address);
                emit_u16(buf, 7, write_words.quantity(), Ghost(base), Ghost(w3));
                let ghost w4 = w3 + be_bytes(write_words@.quantity);
                emit_slice(buf, 9, data, Ghost(base), Ghost(w4));
            },
            Request::Custom(_, data) => {
                emit_slice(buf, 1, data, Ghost(base), Ghost(w0));
            },
        }
        Ok(self.pdu_len())
    }

    /// Reads a request from the start of `buf`.
    pub fn decode(buf: &'a [u8]) -> (res: Result<Self, DecodeError>)
        requires
            request_decodable(buf@),
        ensures
            request_result_view(res) == spec_decode_request(buf@),
    {
        if buf.is_empty() {
            return Err(DecodeError::IncompleteBuffer { current_size: 0, min_needed_size: 1 });
        }
        let fn_code = match decode_function_code(buf) {
            Ok(fn_code) => fn_code,
            Err(e) => return Err(e),
        };

        let request = match fn_code {
            FunctionCode::ReadCoils
            | FunctionCode::ReadDiscreteInput
            | FunctionCode::ReadHoldingRegisters
            | FunctionCode::ReadInputRegisters => {
                if 5 > buf.len() {
                    return Err(
                        DecodeError::IncompleteBuffer { current_size: buf.len(), min_needed_size: 5 },
                    );
                }
                let address = get_u16(buf, 1);
                let quantity = get_u16(buf, 3);
                let max_quantity: u16 = match fn_code {
                    FunctionCode::ReadCoils | FunctionCode::ReadDiscreteInput => 0x07d0,
                    _ => 0x7d,
                };
                if quantity == 0 || quantity > max_quantity {
                    return Err(
                        DecodeError::ModbusExceptionError(fn_code, ExceptionError::IllegalDataValue),
                    );
                }
                match fn_code {
                    FunctionCode::ReadCoils => Request::ReadCoils(address, quantity),
                    FunctionCode::ReadDiscreteInput => Request::ReadDiscreteInput(address, quantity),
                    FunctionCode::ReadHoldingRegisters => Request::ReadHoldingRegisters(
                        address,
                        quantity,
                    ),
                    _ => Request::ReadInputRegisters(address, quantity),
                }
            },
            FunctionCode::WriteSingleCoil | FunctionCode::WriteSingleRegister => {
                if 5 > buf.len() {
                    return Err(
                        DecodeError::IncompleteBuffer { current_size: buf.len(), min_needed_size: 5 },
                    );
                }
                let address = get_u16(buf, 1);
                let value = get_u16(buf, 3);
                match fn_code {
                    FunctionCode::WriteSingleCoil => {
                        let coil_bool = match u16_coil_to_coil(value) {
                            Some(c) => c,
                            None => {
                                return Err(
                                    DecodeError::ModbusExceptionError(
                                        fn_code,
                                        ExceptionError::IllegalDataValue,
                                    ),
                                );
                            },
                        };
                        Request::WriteSingleCoil(address, coil_bool)
                    },
                    _ => Request::WriteSingleRegister(address, value),
                }
            },
            FunctionCode::WriteMultipleCoils | FunctionCode::WriteMultipleRegisters => {
                if 6 > buf.len() {
                    return Err(
                        DecodeError::IncompleteBuffer { current_size: buf.len(), min_needed_size: 6 },
                    );
                }
                let address = get_u16(buf, 1);
                let quantity = get_u16(buf, 3);
                let max_quantity: u16 = match fn_code {
                    FunctionCode::WriteMultipleCoils => 0x07b0,
                    _ => 0x7b,
                };
                if quantity == 0 || quantity > max_quantity {
                    return Err(
                        DecodeError::ModbusExceptionError(fn_code, ExceptionError::IllegalDataValue),
                    );
                }
                let byte_count = buf[5] as usize;
                if byte_count + 6 > buf.len() {
                    return Err(
                        DecodeError::IncompleteBuffer {
                            current_size: buf.len(),
                            min_needed_size: byte_count + 6,
                        },
                    );
                }
                let data = vstd::slice::slice_subrange(buf, 6, byte_count + 6);
                match fn_code {
                    FunctionCode::WriteMultipleCoils => Request::WriteMultipleCoils(
                        address,
                        DataCoils::new(data, quantity),
                    ),
                    _ => Request::WriteMultipleRegisters(address, DataWords::new(data, quantity)),
                }
            },
            FunctionCode::ReadDeviceIdentification => {
                if 5 < buf.len() {
                    return Err(
                        DecodeError::IncompleteBuffer { current_size: buf.len(), min_needed_size: 4 },
                    );
                }
                let mei_type = MeiType::try_from(buf[1]).unwrap();
                let read_device_id_code = ReadDeviceIdCode::try_from(buf[2]).unwrap();
                let object_id = buf[3];
                Request::ReadDeviceIdentification(mei_type, read_device_id_code, object_id)
            },
            FunctionCode::MaskWriteRegister => {
                if 7 > buf.len() {
                    return Err(
                        DecodeError::IncompleteBuffer { current_size: buf.len(), min_needed_size: 7 },
                    );
                }
                let reference_address = get_u16(buf, 1);
                let and_mask = get_u16(buf, 3);
                let or_mask = get_u16(buf, 5);
                Request::MaskWriteRegister(reference_address, and_mask, or_mask)
            },
            FunctionCode::ReadWriteMultipleRegisters => {
                if 10 > buf.len() {
                    return Err(
                        DecodeError::IncompleteBuffer {
                            current_size: buf.len(),
                            min_needed_size: 10,
                        },
                    );
                }
                let read_address = get_u16(buf, 1);
                let read_quantity = get_u16(buf, 3);
                if read_quantity == 0 || read_quantity > 0x7d {
                    return Err(
                        DecodeError::ModbusExceptionError(fn_code, ExceptionError::IllegalDataValue),
                    );
                }
                let write_address = get_u16(buf, 5);
                let write_quantity = get_u16(buf, 7);
                if write_quantity == 0 || write_quantity > 0x7d {
                    return Err(
                        DecodeError::ModbusExceptionError(fn_code, ExceptionError::IllegalDataValue),
                    );
                }
                let write_byte_count = buf[9] as usize;
                if write_byte_count + 10 > buf.len() {
                    return Err(
                        DecodeError::IncompleteBuffer {
                            current_size: buf.len(),
                            min_needed_size: write_byte_count + 10,
                        },
                    );
                }
                let data = vstd::slice::slice_subrange(buf, 10, write_byte_count + 10);
                Request::ReadWriteMultipleRegisters(
                    read_address,
                    read_quantity,
                    write_address,
                    DataWords::new(data, write_quantity),
                )
            },
            FunctionCode::Custom(_) => Request::Custom(
                fn_code,
                vstd::slice::slice_subrange(buf, 1, buf.len()),
            ),
        };
        Ok(request)
    }

    /// Reads a request from the start of `buf`, as `decode` does.
    pub fn try_from(buf: &'a [u8]) -> (res: Result<Self, DecodeError>)
        requires
            request_decodable(buf@),
        ensures
            request_result_view(res) == spec_decode_request(buf@),
    {
        Self::decode(buf)
    }
}

} // verus!

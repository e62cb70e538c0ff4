//! What the byte encodings are, stated field by field in terms of the
//! bytes on the wire, and how decoding treats out-of-range and exception
//! inputs.

use vstd::prelude::*;

use crate::error::{DecodeError, ExceptionError};
use crate::exception_code::{ExceptionCode, spec_exception_code_from_u8, spec_exception_code_to_u8};
use crate::pdu::identification::conformity_level::{
    ConformityLevel,
    spec_conformity_level_from_u8,
    spec_conformity_level_to_u8,
};
use crate::pdu::identification::devid_object::DeviceIdentificationObject;
use crate::pdu::identification::list_of_id_objects::objects_bytes;
use crate::pdu::identification::mei_type::{MeiType, spec_mei_type_from_u8, spec_mei_type_to_u8};
use crate::pdu::identification::more_follows::{
    MoreFollows,
    spec_more_follows_from_u8,
    spec_more_follows_to_u8,
};
use crate::pdu::identification::read_device_id_code::{
    ReadDeviceIdCode,
    spec_read_device_id_code_from_u8,
    spec_read_device_id_code_to_u8,
};

use super::function_code::{
    FunctionCode,
    function_code_is_wire_valid,
    lemma_function_code_roundtrip,
    spec_function_code_from_u8,
    spec_function_code_to_u8,
};
use super::request::{RequestView, request_bytes, request_pdu_len, spec_decode_request};
use super::response::{ResponseView, response_bytes, response_pdu_len, spec_decode_response};
use super::{spec_coil_to_u16_coil, spec_u16_coil_to_coil};

verus! {

/// Each function code is written as the byte the Modbus specification
/// gives it, and a custom code as its own byte.
pub proof fn lemma_function_code_bytes(code: FunctionCode)
    ensures
        spec_function_code_to_u8(FunctionCode::ReadCoils) == 0x01,
        spec_function_code_to_u8(FunctionCode::ReadDiscreteInput) == 0x02,
        spec_function_code_to_u8(FunctionCode::ReadHoldingRegisters) == 0x03,
        spec_function_code_to_u8(FunctionCode::ReadInputRegisters) == 0x04,
        spec_function_code_to_u8(FunctionCode::WriteSingleCoil) == 0x05,
        spec_function_code_to_u8(FunctionCode::WriteSingleRegister) == 0x06,
        spec_function_code_to_u8(FunctionCode::WriteMultipleCoils) == 0x0F,
        spec_function_code_to_u8(FunctionCode::WriteMultipleRegisters) == 0x10,
        spec_function_code_to_u8(FunctionCode::MaskWriteRegister) == 0x16,
        spec_function_code_to_u8(FunctionCode::ReadWriteMultipleRegisters) == 0x17,
        spec_function_code_to_u8(FunctionCode::ReadDeviceIdentification) == 0x2B,
        code matches FunctionCode::Custom(c) ==> spec_function_code_to_u8(code) == c,
        spec_function_code_from_u8(0x01) == Ok::<FunctionCode, u8>(FunctionCode::ReadCoils),
        spec_function_code_from_u8(0x02) == Ok::<FunctionCode, u8>(FunctionCode::ReadDiscreteInput),
        spec_function_code_from_u8(0x03) == Ok::<FunctionCode, u8>(
            FunctionCode::ReadHoldingRegisters,
        ),
        spec_function_code_from_u8(0x04) == Ok::<FunctionCode, u8>(FunctionCode::ReadInputRegisters),
        spec_function_code_from_u8(0x05) == Ok::<FunctionCode, u8>(FunctionCode::WriteSingleCoil),
        spec_function_code_from_u8(0x06) == Ok::<FunctionCode, u8>(
            FunctionCode::WriteSingleRegister,
        ),
        spec_function_code_from_u8(0x0F) == Ok::<FunctionCode, u8>(FunctionCode::WriteMultipleCoils),
        spec_function_code_from_u8(0x10) == Ok::<FunctionCode, u8>(
            FunctionCode::WriteMultipleRegisters,
        ),
        spec_function_code_from_u8(0x16) == Ok::<FunctionCode, u8>(FunctionCode::MaskWriteRegister),
        spec_function_code_from_u8(0x17) == Ok::<FunctionCode, u8>(
            FunctionCode::ReadWriteMultipleRegisters,
        ),
        spec_function_code_from_u8(0x2B) == Ok::<FunctionCode, u8>(
            FunctionCode::ReadDeviceIdentification,
        ),
{
}

/// Each exception code is written as the byte the Modbus specification
/// gives it; the bytes 0, 7, 9 and from 0x0C on name no exception code and
/// are handed back.
pub proof fn lemma_exception_code_bytes(byte: u8)
    ensures
        spec_exception_code_to_u8(ExceptionCode::IllegalFunction) == 0x01,
        spec_exception_code_to_u8(ExceptionCode::IllegalDataAddress) == 0x02,
        spec_exception_code_to_u8(ExceptionCode::IllegalDataValue) == 0x03,
        spec_exception_code_to_u8(ExceptionCode::ServerDeviceFailure) == 0x04,
        spec_exception_code_to_u8(ExceptionCode::Acknowledge) == 0x05,
        spec_exception_code_to_u8(ExceptionCode::ServerDeviceBusy) == 0x06,
        spec_exception_code_to_u8(ExceptionCode::MemoryParityError) == 0x08,
        spec_exception_code_to_u8(ExceptionCode::GatewayPathUnavailable) == 0x0A,
        spec_exception_code_to_u8(ExceptionCode::GatewayTargetDeviceFailedToRespond) == 0x0B,
        (byte == 0 || byte == 7 || byte == 9 || byte >= 0x0C) ==> spec_exception_code_from_u8(byte)
            == Err::<ExceptionCode, u8>(byte),
{
}

/// A conformity level byte carries the identification level in its low
/// bits (1 basic, 2 regular, 3 extended) and individual access in its high
/// bit; any other byte is refused with 0.
pub proof fn lemma_conformity_level_bytes(level: ConformityLevel, byte: u8)
    ensures
        spec_conformity_level_to_u8(level) % 128 == 1 <==> (level is BasicStreamOnly
            || level is BasicStreamAndIndividual),
        spec_conformity_level_to_u8(level) % 128 == 2 <==> (level is RegularStreamOnly
            || level is RegularStreamAndIndividual),
        spec_conformity_level_to_u8(level) % 128 == 3 <==> (level is ExtendedStreamOnly
            || level is ExtendedStreamAndIndividual),
        spec_conformity_level_to_u8(level) >= 128 <==> (level is BasicStreamAndIndividual
            || level is RegularStreamAndIndividual || level is ExtendedStreamAndIndividual),
        spec_conformity_level_from_u8(byte) is Ok <==> (1 <= byte % 128 <= 3 && (byte < 4 || byte
            >= 128)),
        spec_conformity_level_from_u8(byte) is Err ==> spec_conformity_level_from_u8(byte) == Err::<
            ConformityLevel,
            u8,
        >(0),
{
}

/// The encapsulated interface type is written as 0x0E, the only byte read
/// as one; the kinds of identification read are 1 basic, 2 regular,
/// 3 extended and 4 specific; "more follows" is 0x00 for no more objects and
/// 0xFF for more. Other bytes are refused with 0.
pub proof fn lemma_identification_code_bytes(byte: u8)
    ensures
        spec_mei_type_to_u8(MeiType::DeviceIdentification) == 0x0E,
        spec_mei_type_from_u8(byte) is Ok <==> byte == 0x0E,
        spec_read_device_id_code_to_u8(ReadDeviceIdCode::Basic) == 1,
        spec_read_device_id_code_to_u8(ReadDeviceIdCode::Regular) == 2,
        spec_read_device_id_code_to_u8(ReadDeviceIdCode::Extended) == 3,
        spec_read_device_id_code_to_u8(ReadDeviceIdCode::Specific) == 4,
        spec_read_device_id_code_from_u8(byte) is Ok <==> 1 <= byte <= 4,
        spec_more_follows_to_u8(MoreFollows::NoMoreObjects) == 0x00,
        spec_more_follows_to_u8(MoreFollows::OtherObjectsAvailable) == 0xFF,
        spec_more_follows_from_u8(byte) is Ok <==> (byte == 0x00 || byte == 0xFF),
        spec_mei_type_from_u8(byte) is Err ==> spec_mei_type_from_u8(byte) == Err::<MeiType, u8>(
            0,
        ),
        spec_read_device_id_code_from_u8(byte) is Err ==> spec_read_device_id_code_from_u8(byte)
            == Err::<ReadDeviceIdCode, u8>(0),
        spec_more_follows_from_u8(byte) is Err ==> spec_more_follows_from_u8(byte) == Err::<
            MoreFollows,
            u8,
        >(0),
{
}

/// A coil that is on is written as 0xFF00 and one that is off as 0x0000;
/// those are the only values read as a coil state.
pub proof fn lemma_coil_values(v: u16)
    ensures
        spec_coil_to_u16_coil(true) == 0xFF00,
        spec_coil_to_u16_coil(false) == 0x0000,
        spec_u16_coil_to_coil(v) is Some <==> (v == 0 || v == 0xFF00),
        spec_u16_coil_to_coil(v) is Some ==> spec_u16_coil_to_coil(v)->Some_0 == (v == 0xFF00),
{
}

/// A buffer that starts with a byte from 0x80 on holds an exception
/// response: when a second byte follows, both decoders answer with the
/// function code that the first byte names with its high bit cleared (a code
/// that byte names back) and with what the second byte reads as an
/// exception code; a lone such byte is too short by one.
pub proof fn lemma_exception_response_decoding(buf: Seq<u8>)
    requires
        buf.len() >= 1,
        buf[0] >= 0x80,
    ensures
        buf.len() == 1 ==> spec_decode_request(buf) == Err::<RequestView, DecodeError>(
            DecodeError::IncompleteBuffer { current_size: 1, min_needed_size: 2 },
        ),
        buf.len() == 1 ==> spec_decode_response(buf) == Err::<ResponseView, DecodeError>(
            DecodeError::IncompleteBuffer { current_size: 1, min_needed_size: 2 },
        ),
        buf.len() >= 2 ==> (spec_decode_request(buf) matches Err(
            DecodeError::ModbusExceptionCode(fc, e),
        ) && spec_function_code_to_u8(fc) == buf[0] - 0x80 && function_code_is_wire_valid(fc)
            && e == spec_exception_code_from_u8(buf[1])),
        buf.len() >= 2 ==> (spec_decode_response(buf) matches Err(
            DecodeError::ModbusExceptionCode(fc, e),
        ) && spec_function_code_to_u8(fc) == buf[0] - 0x80 && function_code_is_wire_valid(fc)
            && e == spec_exception_code_from_u8(buf[1])),
{
    let b = buf[0];
    assert(b >= 0x80 ==> b & 0x7f == b - 0x80) by (bit_vector);
    lemma_function_code_roundtrip(FunctionCode::ReadCoils, b);
    lemma_function_code_roundtrip(FunctionCode::ReadCoils, (b - 0x80) as u8);
}

/// The bytes a request is written as, field by field: the function code
/// byte, then each 16-bit field most significant byte first; multiple
/// writes put the byte count (modulo 256) before their data, and a
/// read/write of multiple registers puts its data right after the write
/// quantity.
pub proof fn lemma_request_layout(r: RequestView)
    ensures
        ({
            let b = request_bytes(r);
            match r {
                RequestView::ReadDeviceIdentification(m, c, o) => b.len() == 4 && b[0] == 0x2B
                    && b[1] == 0x0E && b[2] == spec_read_device_id_code_to_u8(c) && b[3] == o,
                RequestView::ReadCoils(a, q) => b.len() == 5 && b[0] == 0x01 && b[1] * 256 + b[2]
                    == a && b[3] * 256 + b[4] == q,
                RequestView::ReadDiscreteInput(a, q) => b.len() == 5 && b[0] == 0x02 && b[1] * 256
                    + b[2] == a && b[3] * 256 + b[4] == q,
                RequestView::ReadHoldingRegisters(a, q) => b.len() == 5 && b[0] == 0x03 && b[1]
                    * 256 + b[2] == a && b[3] * 256 + b[4] == q,
                RequestView::ReadInputRegisters(a, q) => b.len() == 5 && b[0] == 0x04 && b[1] * 256
                    + b[2] == a && b[3] * 256 + b[4] == q,
                RequestView::WriteSingleCoil(a, c) => b.len() == 5 && b[0] == 0x05 && b[1] * 256
                    + b[2] == a && b[3] == (if c {
                    0xFFu8
                } else {
                    0u8
                }) && b[4] == 0,
                RequestView::WriteSingleRegister(a, w) => b.len() == 5 && b[0] == 0x06 && b[1] * 256
                    + b[2] == a && b[3] * 256 + b[4] == w,
                RequestView::WriteMultipleCoils(a, d) => b.len() == 6 + d.bytes.len() && b[0]
                    == 0x0F && b[1] * 256 + b[2] == a && b[3] * 256 + b[4] == d.quantity && b[5]
                    == d.bytes.len() % 256 && b.subrange(6, b.len() as int) == d.bytes,
                RequestView::WriteMultipleRegisters(a, d) => b.len() == 6 + d.bytes.len() && b[0]
                    == 0x10 && b[1] * 256 + b[2] == a && b[3] * 256 + b[4] == d.quantity && b[5]
                    == d.bytes.len() % 256 && b.subrange(6, b.len() as int) == d.bytes,
                RequestView::MaskWriteRegister(a, x, y) => b.len() == 7 && b[0] == 0x16 && b[1]
                    * 256 + b[2] == a && b[3] * 256 + b[4] == x && b[5] * 256 + b[6] == y,
                RequestView::ReadWriteMultipleRegisters(ra, rq, wa, d) => b.len() == 9
                    + d.bytes.len() && b[0] == 0x17 && b[1] * 256 + b[2] == ra && b[3] * 256 + b[4]
                    == rq && b[5] * 256 + b[6] == wa && b[7] * 256 + b[8] == d.quantity
                    && b.subrange(9, b.len() as int) == d.bytes,
                RequestView::Custom(f, d) => b.len() == 1 + d.len() && b[0]
                    == spec_function_code_to_u8(f) && b.subrange(1, b.len() as int) == d,
            }
        }),
{
    let b = request_bytes(r);
    match r {
        RequestView::WriteMultipleCoils(a, d) | RequestView::WriteMultipleRegisters(a, d) => {
            assert(b.subrange(6, b.len() as int) =~= d.bytes);
        },
        RequestView::ReadWriteMultipleRegisters(ra, rq, wa, d) => {
            assert(b.subrange(9, b.len() as int) =~= d.bytes);
        },
        RequestView::Custom(f, d) => {
            assert(b.subrange(1, b.len() as int) =~= d);
        },
        _ => {},
    }
}

/// The bytes a response is written as, field by field: the function code
/// byte, then read data behind its byte count (modulo 256), or each 16-bit
/// field most significant byte first; a device identification response
/// writes the MEI type, read code, conformity level, more-follows flag, next
/// object id and number of objects at offsets 1 to 6, then its objects.
pub proof fn lemma_response_layout(r: ResponseView)
    ensures
        ({
            let b = response_bytes(r);
            match r {
                ResponseView::ReadCoils(d) => b.len() == 2 + d.bytes.len() && b[0] == 0x01 && b[1]
                    == d.bytes.len() % 256 && b.subrange(2, b.len() as int) == d.bytes,
                ResponseView::ReadDiscreteInput(d) => b.len() == 2 + d.bytes.len() && b[0] == 0x02
                    && b[1] == d.bytes.len() % 256 && b.subrange(2, b.len() as int) == d.bytes,
                ResponseView::ReadHoldingRegisters(d) => b.len() == 2 + d.bytes.len() && b[0]
                    == 0x03 && b[1] == d.bytes.len() % 256 && b.subrange(2, b.len() as int)
                    == d.bytes,
                ResponseView::ReadInputRegisters(d) => b.len() == 2 + d.bytes.len() && b[0] == 0x04
                    && b[1] == d.bytes.len() % 256 && b.subrange(2, b.len() as int) == d.bytes,
                ResponseView::ReadWriteMultipleRegisters(d) => b.len() == 2 + d.bytes.len() && b[0]
                    == 0x17 && b[1] == d.bytes.len() % 256 && b.subrange(2, b.len() as int)
                    == d.bytes,
                ResponseView::WriteSingleCoil(a, c) => b.len() == 5 && b[0] == 0x05 && b[1] * 256
                    + b[2] == a && b[3] == (if c {
                    0xFFu8
                } else {
                    0u8
                }) && b[4] == 0,
                ResponseView::WriteSingleRegister(a, v) => b.len() == 5 && b[0] == 0x06 && b[1]
                    * 256 + b[2] == a && b[3] * 256 + b[4] == v,
                ResponseView::WriteMultipleCoils(a, v) => b.len() == 5 && b[0] == 0x0F && b[1] * 256
                    + b[2] == a && b[3] * 256 + b[4] == v,
                ResponseView::WriteMultipleRegisters(a, v) => b.len() == 5 && b[0] == 0x10 && b[1]
                    * 256 + b[2] == a && b[3] * 256 + b[4] == v,
                ResponseView::ReadDeviceIdentification(_, m, c, l, more, next, n, objects) => b[0]
                    == 0x2B && b[1] == 0x0E && b[2] == spec_read_device_id_code_to_u8(c) && b[3]
                    == spec_conformity_level_to_u8(l) && b[4] == spec_more_follows_to_u8(more)
                    && b[5] == next && b[6] == n && b.subrange(7, b.len() as int) == objects_bytes(
                    objects,
                ),
                ResponseView::MaskWriteRegister(a, x, y) => b.len() == 7 && b[0] == 0x16 && b[1]
                    * 256 + b[2] == a && b[3] * 256 + b[4] == x && b[5] * 256 + b[6] == y,
                ResponseView::Custom(f, d) => b.len() == 1 + d.len() && b[0]
                    == spec_function_code_to_u8(f) && b.subrange(1, b.len() as int) == d,
            }
        }),
{
    let b = response_bytes(r);
    match r {
        ResponseView::ReadCoils(d)
        | ResponseView::ReadDiscreteInput(d)
        | ResponseView::ReadHoldingRegisters(d)
        | ResponseView::ReadInputRegisters(d)
        | ResponseView::ReadWriteMultipleRegisters(d) => {
            assert(b.subrange(2, b.len() as int) =~= d.bytes);
        },
        ResponseView::ReadDeviceIdentification(_, m, c, l, more, next, n, objects) => {
            assert(b.subrange(7, b.len() as int) =~= objects_bytes(objects));
        },
        ResponseView::Custom(f, d) => {
            assert(b.subrange(1, b.len() as int) =~= d);
        },
        _ => {},
    }
}

/// The bytes of a run of device identification objects: object `k` takes
/// the 247 bytes from `247 * k` on, its id first, then its length, then its
/// 245-byte value area.
pub proof fn lemma_objects_layout(objects: Seq<DeviceIdentificationObject>, k: int, i: int)
    requires
        0 <= k < objects.len(),
        0 <= i < 245,
    ensures
        objects_bytes(objects).len() == 247 * objects.len(),
        objects_bytes(objects)[247 * k] == objects[k].id,
        objects_bytes(objects)[247 * k + 1] == objects[k].length,
        objects_bytes(objects)[247 * k + 2 + i] == objects[k].value[i],
    decreases objects.len(),
{
    crate::pdu::identification::list_of_id_objects::lemma_objects_bytes_len(objects);
    let prefix = objects.drop_last();
    crate::pdu::identification::list_of_id_objects::lemma_objects_bytes_len(prefix);
    if k < objects.len() - 1 {
        lemma_objects_layout(prefix, k, i);
        assert(prefix[k] == objects[k]);
    } else {
        let last = objects.last();
        assert(objects_bytes(objects) == objects_bytes(prefix) + last.spec_bytes());
        assert(last.spec_bytes()[0] == last.id);
        assert(last.spec_bytes()[1] == last.length);
        assert(last.spec_bytes()[2 + i] == last.value[i]);
    }
}

/// Decoding a read request accepts a quantity from 1 up to 2000 coils or
/// discrete inputs, or up to 125 holding or input registers, and then reads
/// back the five bytes it was given; it answers any other quantity with an
/// illegal data value exception under the request's function code.
pub proof fn lemma_read_request_quantity_limits(buf: Seq<u8>)
    requires
        buf.len() >= 5,
        0x01 <= buf[0] <= 0x04,
    ensures
        ({
            let q = buf[3] * 256 + buf[4];
            let max: int = if buf[0] <= 0x02 {
                2000
            } else {
                125
            };
            let fc = spec_function_code_from_u8(buf[0])->Ok_0;
            &&& spec_function_code_from_u8(buf[0]) is Ok
            &&& spec_function_code_to_u8(fc) == buf[0]
            &&& 1 <= q <= max ==> (spec_decode_request(buf) matches Ok(r) && request_bytes(r)
                == buf.take(5))
            &&& !(1 <= q <= max) ==> spec_decode_request(buf) == Err::<RequestView, DecodeError>(
                DecodeError::ModbusExceptionError(fc, ExceptionError::IllegalDataValue),
            )
        }),
{
    lemma_function_code_roundtrip(FunctionCode::ReadCoils, buf[0]);
    if spec_decode_request(buf) is Ok {
        super::request::lemma_request_decode_encode(buf);
    }
}

/// Decoding a multiple write request accepts a quantity from 1 up to 1968
/// coils or 123 registers; it answers any other quantity with an illegal
/// data value exception under the request's function code, and a buffer
/// that ends before the data its byte count announces as too short; it
/// reads back the bytes it was given, up to the end of that data.
pub proof fn lemma_multiple_write_request_limits(buf: Seq<u8>)
    requires
        buf.len() >= 6,
        buf[0] == 0x0F || buf[0] == 0x10,
    ensures
        ({
            let q = buf[3] * 256 + buf[4];
            let max: int = if buf[0] == 0x0F {
                1968
            } else {
                123
            };
            let byte_count = buf[5] as int;
            let fc = spec_function_code_from_u8(buf[0])->Ok_0;
            &&& spec_function_code_to_u8(fc) == buf[0]
            &&& !(1 <= q <= max) ==> spec_decode_request(buf) == Err::<RequestView, DecodeError>(
                DecodeError::ModbusExceptionError(fc, ExceptionError::IllegalDataValue),
            )
            &&& (1 <= q <= max && byte_count + 6 > buf.len()) ==> spec_decode_request(buf) == Err::<
                RequestView,
                DecodeError,
            >(
                DecodeError::IncompleteBuffer {
                    current_size: buf.len() as usize,
                    min_needed_size: (byte_count + 6) as usize,
                },
            )
            &&& (1 <= q <= max && byte_count + 6 <= buf.len()) ==> (spec_decode_request(
                buf,
            ) matches Ok(r) && request_bytes(r) == buf.take(byte_count + 6))
        }),
{
    lemma_function_code_roundtrip(FunctionCode::ReadCoils, buf[0]);
    if spec_decode_request(buf) is Ok {
        super::request::lemma_request_decode_encode(buf);
    }
}

/// Decoding a read/write of multiple registers accepts read and write
/// quantities from 1 to 125 each and answers any other with an illegal data
/// value exception; it takes the write data from behind the byte count at
/// offset 9, and a buffer that ends before that data as too short.
pub proof fn lemma_read_write_request_limits(buf: Seq<u8>)
    requires
        buf.len() >= 10,
        buf[0] == 0x17,
    ensures
        ({
            let ra = buf[1] * 256 + buf[2];
            let rq = buf[3] * 256 + buf[4];
            let wa = buf[5] * 256 + buf[6];
            let wq = buf[7] * 256 + buf[8];
            let byte_count = buf[9] as int;
            &&& !(1 <= rq <= 125 && 1 <= wq <= 125) ==> spec_decode_request(buf) == Err::<
                RequestView,
                DecodeError,
            >(
                DecodeError::ModbusExceptionError(
                    FunctionCode::ReadWriteMultipleRegisters,
                    ExceptionError::IllegalDataValue,
                ),
            )
            &&& (1 <= rq <= 125 && 1 <= wq <= 125 && byte_count + 10 > buf.len())
                ==> spec_decode_request(buf) == Err::<RequestView, DecodeError>(
                DecodeError::IncompleteBuffer {
                    current_size: buf.len() as usize,
                    min_needed_size: (byte_count + 10) as usize,
                },
            )
            &&& (1 <= rq <= 125 && 1 <= wq <= 125 && byte_count + 10 <= buf.len()) ==> (
            spec_decode_request(buf) matches Ok(
                RequestView::ReadWriteMultipleRegisters(a1, q1, a2, d),
            ) && a1 == ra && q1 == rq && a2 == wa && d.quantity == wq && d.bytes == buf.subrange(
                10,
                byte_count + 10,
            ))
        }),
{
}

/// Decoding answers a request buffer that ends before its fixed fields as
/// too short, naming the length it has and the length those fields need
/// (an empty buffer needs one byte); a device identification read longer
/// than 5 bytes is refused the same way, naming 4; a write of a single coil
/// holding any value but 0x0000 or 0xFF00 is answered with an illegal data
/// value exception; a custom function code takes all the bytes after it.
pub proof fn lemma_request_short_and_special_buffers(buf: Seq<u8>)
    ensures
        buf.len() == 0 ==> spec_decode_request(buf) == Err::<RequestView, DecodeError>(
            DecodeError::IncompleteBuffer { current_size: 0, min_needed_size: 1 },
        ),
        (1 <= buf.len() < 5 && 0x01 <= buf[0] <= 0x06) ==> spec_decode_request(buf) == Err::<
            RequestView,
            DecodeError,
        >(DecodeError::IncompleteBuffer { current_size: buf.len() as usize, min_needed_size: 5 }),
        (1 <= buf.len() < 6 && (buf[0] == 0x0F || buf[0] == 0x10)) ==> spec_decode_request(buf)
            == Err::<RequestView, DecodeError>(
            DecodeError::IncompleteBuffer { current_size: buf.len() as usize, min_needed_size: 6 },
        ),
        (1 <= buf.len() < 7 && buf[0] == 0x16) ==> spec_decode_request(buf) == Err::<
            RequestView,
            DecodeError,
        >(DecodeError::IncompleteBuffer { current_size: buf.len() as usize, min_needed_size: 7 }),
        (1 <= buf.len() < 10 && buf[0] == 0x17) ==> spec_decode_request(buf) == Err::<
            RequestView,
            DecodeError,
        >(DecodeError::IncompleteBuffer { current_size: buf.len() as usize, min_needed_size: 10 }),
        (buf.len() > 5 && buf[0] == 0x2B) ==> spec_decode_request(buf) == Err::<
            RequestView,
            DecodeError,
        >(DecodeError::IncompleteBuffer { current_size: buf.len() as usize, min_needed_size: 4 }),
        (buf.len() >= 5 && buf[0] == 0x05 && !(buf[3] * 256 + buf[4] == 0 || buf[3] * 256 + buf[4]
            == 0xFF00)) ==> spec_decode_request(buf) == Err::<RequestView, DecodeError>(
            DecodeError::ModbusExceptionError(
                FunctionCode::WriteSingleCoil,
                ExceptionError::IllegalDataValue,
            ),
        ),
        (buf.len() >= 1 && spec_function_code_from_u8(buf[0]) is Ok && spec_function_code_from_u8(
            buf[0],
        )->Ok_0 is Custom) ==> spec_decode_request(buf) == Ok::<RequestView, DecodeError>(
            RequestView::Custom(FunctionCode::Custom(buf[0]), buf.subrange(1, buf.len() as int)),
        ),
{
}

/// Decoding a response carrying read data takes the byte count at offset 1
/// and that many data bytes after it, counting eight coils per byte or one
/// register per two bytes; a buffer that ends before the byte count or
/// before the data is too short, naming the length it needs.
pub proof fn lemma_read_data_response_decoding(buf: Seq<u8>)
    requires
        buf.len() >= 1,
        (0x01 <= buf[0] <= 0x04 || buf[0] == 0x17),
    ensures
        buf.len() == 1 ==> spec_decode_response(buf) == Err::<ResponseView, DecodeError>(
            DecodeError::IncompleteBuffer { current_size: 1, min_needed_size: 2 },
        ),
        (buf.len() >= 2 && buf[1] + 2 > buf.len()) ==> spec_decode_response(buf) == Err::<
            ResponseView,
            DecodeError,
        >(
            DecodeError::IncompleteBuffer {
                current_size: buf.len() as usize,
                min_needed_size: (buf[1] + 2) as usize,
            },
        ),
        (buf.len() >= 2 && buf[1] + 2 <= buf.len()) ==> (spec_decode_response(buf) matches Ok(r)
            && response_bytes(r) == buf.take(buf[1] + 2) && match r {
            ResponseView::ReadCoils(d) | ResponseView::ReadDiscreteInput(d) => d.quantity == 8
                * buf[1] && d.bytes == buf.subrange(2, buf[1] + 2),
            ResponseView::ReadHoldingRegisters(d)
            | ResponseView::ReadInputRegisters(d)
            | ResponseView::ReadWriteMultipleRegisters(d) => d.quantity == buf[1] / 2 && d.bytes
                == buf.subrange(2, buf[1] + 2),
            _ => false,
        }),
{
    if buf.len() >= 2 && buf[1] + 2 <= buf.len() {
        super::response::lemma_response_decode_encode(buf);
    }
}

/// Decoding a write response reads the address and value at offsets 1 and
/// 3 and takes any quantity of a multiple write as it stands; a single coil
/// value other than 0x0000 or 0xFF00 is answered with an illegal data value
/// exception; a buffer shorter than 5 bytes (7 for a masked write) is too
/// short.
pub proof fn lemma_write_response_decoding(buf: Seq<u8>)
    requires
        buf.len() >= 1,
        (0x05 <= buf[0] <= 0x06 || buf[0] == 0x0F || buf[0] == 0x10 || buf[0] == 0x16),
    ensures
        (buf.len() < 5 || (buf[0] == 0x16 && buf.len() < 7)) ==> spec_decode_response(buf)
            == Err::<ResponseView, DecodeError>(
            DecodeError::IncompleteBuffer {
                current_size: buf.len() as usize,
                min_needed_size: if buf[0] == 0x16 {
                    7usize
                } else {
                    5usize
                },
            },
        ),
        (buf.len() >= 5 && buf[0] == 0x05 && !(buf[3] * 256 + buf[4] == 0 || buf[3] * 256 + buf[4]
            == 0xFF00)) ==> spec_decode_response(buf) == Err::<ResponseView, DecodeError>(
            DecodeError::ModbusExceptionError(
                FunctionCode::WriteSingleCoil,
                ExceptionError::IllegalDataValue,
            ),
        ),
        (buf.len() >= 5 && buf[0] != 0x16 && !(buf[0] == 0x05 && !(buf[3] * 256 + buf[4] == 0
            || buf[3] * 256 + buf[4] == 0xFF00))) ==> (spec_decode_response(buf) matches Ok(r)
            && response_bytes(r) == buf.take(5)),
        (buf.len() >= 7 && buf[0] == 0x16) ==> (spec_decode_response(buf) matches Ok(r)
            && response_bytes(r) == buf.take(7)),
{
    if spec_decode_response(buf) is Ok {
        super::response::lemma_response_decode_encode(buf);
    }
}

/// The PDU length of a request is the number of bytes it is written as,
/// plus one for a read/write of multiple registers (whose last byte is left
/// as it was); that of a response is the number of bytes it is written as,
/// 7 plus 247 per object for a device identification response.
pub proof fn lemma_pdu_lengths(req: RequestView, res: ResponseView)
    ensures
        req is ReadWriteMultipleRegisters ==> request_pdu_len(req) == request_bytes(req).len() + 1,
        !(req is ReadWriteMultipleRegisters) ==> request_pdu_len(req) == request_bytes(req).len(),
        response_pdu_len(res) == response_bytes(res).len(),
        res matches ResponseView::ReadDeviceIdentification(_, _, _, _, _, _, _, objects)
            ==> response_pdu_len(res) == 7 + 247 * objects.len(),
{
    lemma_request_layout(req);
    match res {
        ResponseView::ReadDeviceIdentification(_, _, _, _, _, _, _, objects) => {
            crate::pdu::identification::list_of_id_objects::lemma_objects_bytes_len(objects);
        },
        _ => {},
    }
}

} // verus!

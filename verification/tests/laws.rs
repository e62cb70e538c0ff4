use modbus::error::{DecodeError, EncodeError, ExceptionError};
use modbus::exception_code::ExceptionCode;
use modbus::pdu::function_code::FunctionCode;
use modbus::pdu::identification::conformity_level::ConformityLevel;
use modbus::pdu::identification::devid_object::DeviceIdentificationObject;
use modbus::pdu::identification::list_of_id_objects::ListOfIdObjects;
use modbus::pdu::identification::mei_type::MeiType;
use modbus::pdu::identification::more_follows::MoreFollows;
use modbus::pdu::identification::read_device_id_code::ReadDeviceIdCode;
use modbus::pdu::request::Request;
use modbus::pdu::response::Response;
use modbus::pdu::{DataCoils, DataWords, coil_to_u16_coil, u16_coil_to_coil};

#[test]
fn function_code_bytes_roundtrip() {
    for byte in 0u8..=255 {
        match FunctionCode::try_from(byte) {
            Ok(code) => {
                assert!(byte < 0x80);
                assert_eq!(u8::from(code), byte);
            }
            Err(b) => {
                assert!(byte >= 0x80);
                assert_eq!(b, byte);
            }
        }
    }
    assert_eq!(FunctionCode::try_from(0x2b), Ok(FunctionCode::ReadDeviceIdentification));
    assert_eq!(FunctionCode::try_from(0x17), Ok(FunctionCode::ReadWriteMultipleRegisters));
    assert_eq!(FunctionCode::try_from(0x00), Ok(FunctionCode::Custom(0x00)));
    assert_eq!(FunctionCode::try_from(0x7f), Ok(FunctionCode::Custom(0x7f)));
    assert_eq!(u8::from(FunctionCode::MaskWriteRegister), 0x16);
    assert_eq!(u8::from(FunctionCode::Custom(0x41)), 0x41);
}

#[test]
fn identification_codes_roundtrip() {
    for byte in 0u8..=255 {
        if let Ok(c) = ConformityLevel::try_from(byte) {
            assert_eq!(u8::from(c), byte);
        }
        if let Ok(c) = MeiType::try_from(byte) {
            assert_eq!(u8::from(c), byte);
        }
        if let Ok(c) = MoreFollows::try_from(byte) {
            assert_eq!(u8::from(c), byte);
        }
        if let Ok(c) = ReadDeviceIdCode::try_from(byte) {
            assert_eq!(u8::from(c), byte);
        }
        if let Ok(c) = ExceptionCode::try_from(byte) {
            assert_eq!(u8::from(c), byte);
        }
    }
    assert_eq!(ConformityLevel::try_from(0x82), Ok(ConformityLevel::RegularStreamAndIndividual));
    assert_eq!(ConformityLevel::try_from(0x04), Err(0));
    assert_eq!(MeiType::try_from(0x0e), Ok(MeiType::DeviceIdentification));
    assert_eq!(MeiType::try_from(0x0d), Err(0));
    assert_eq!(MoreFollows::try_from(0xff), Ok(MoreFollows::OtherObjectsAvailable));
    assert_eq!(MoreFollows::try_from(0x01), Err(0));
    assert_eq!(ReadDeviceIdCode::try_from(4), Ok(ReadDeviceIdCode::Specific));
    assert_eq!(ReadDeviceIdCode::try_from(5), Err(0));
    assert_eq!(ExceptionCode::try_from(0x0b), Ok(ExceptionCode::GatewayTargetDeviceFailedToRespond));
    assert_eq!(ExceptionCode::try_from(0x07), Err(0x07));
}

#[test]
fn coil_values_roundtrip() {
    assert_eq!(coil_to_u16_coil(true), 0xff00);
    assert_eq!(coil_to_u16_coil(false), 0x0000);
    assert_eq!(u16_coil_to_coil(coil_to_u16_coil(true)), Some(true));
    assert_eq!(u16_coil_to_coil(coil_to_u16_coil(false)), Some(false));
    assert_eq!(u16_coil_to_coil(0x00ff), None);
    assert_eq!(u16_coil_to_coil(0x0001), None);
}

fn encode_request(req: &Request) -> Vec<u8> {
    let mut buf = vec![0xAA; req.pdu_len()];
    assert_eq!(req.encode(&mut buf), Ok(req.pdu_len()));
    buf
}

#[test]
fn request_encodings() {
    assert_eq!(
        encode_request(&Request::ReadDeviceIdentification(
            MeiType::DeviceIdentification,
            ReadDeviceIdCode::Regular,
            0x05
        )),
        vec![0x2b, 0x0e, 0x02, 0x05]
    );
    assert_eq!(
        encode_request(&Request::WriteSingleCoil(0x00ac, true)),
        vec![0x05, 0x00, 0xac, 0xff, 0x00]
    );
    assert_eq!(
        encode_request(&Request::WriteSingleRegister(0x0001, 0x0003)),
        vec![0x06, 0x00, 0x01, 0x00, 0x03]
    );
    assert_eq!(
        encode_request(&Request::WriteMultipleRegisters(
            0x0001,
            DataWords::new(&[0x00, 0x0a, 0x01, 0x02], 2)
        )),
        vec![0x10, 0x00, 0x01, 0x00, 0x02, 0x04, 0x00, 0x0a, 0x01, 0x02]
    );
    assert_eq!(
        encode_request(&Request::MaskWriteRegister(0x0004, 0x00f2, 0x0025)),
        vec![0x16, 0x00, 0x04, 0x00, 0xf2, 0x00, 0x25]
    );
    assert_eq!(
        encode_request(&Request::Custom(FunctionCode::Custom(0x41), &[1, 2, 3])),
        vec![0x41, 1, 2, 3]
    );
    // The data of a read/write of multiple registers goes right after the
    // write quantity, and the last byte of the PDU length is left as it was.
    assert_eq!(
        encode_request(&Request::ReadWriteMultipleRegisters(
            0x0003,
            0x0006,
            0x000e,
            DataWords::new(&[0x00, 0xff], 1)
        )),
        vec![0x17, 0x00, 0x03, 0x00, 0x06, 0x00, 0x0e, 0x00, 0x01, 0x00, 0xff, 0xAA]
    );
}

#[test]
fn request_encode_refuses_short_buffer() {
    let req = Request::MaskWriteRegister(1, 2, 3);
    let mut buf = [9u8; 6];
    assert_eq!(req.encode(&mut buf), Err(EncodeError::InvalidBufferSize));
    assert_eq!(buf, [9u8; 6]);
    let mut longer = [9u8; 9];
    assert_eq!(req.encode(&mut longer), Ok(7));
    assert_eq!(longer, [0x16, 0, 1, 0, 2, 0, 3, 9, 9]);
}

#[test]
fn request_roundtrip_on_values() {
    let requests = [
        Request::ReadCoils(0x0013, 0x07d0),
        Request::ReadDiscreteInput(0x00c4, 0x0016),
        Request::ReadHoldingRegisters(0x006b, 0x0003),
        Request::ReadInputRegisters(0x0008, 0x007d),
        Request::WriteSingleCoil(0x00ac, false),
        Request::WriteSingleRegister(0x0001, 0xbeef),
        Request::WriteMultipleCoils(0x0013, DataCoils::new(&[0xcd, 0x01], 0x0a)),
        Request::WriteMultipleRegisters(0x0001, DataWords::new(&[0x00, 0x0a, 0x01, 0x02], 2)),
        Request::MaskWriteRegister(0x0004, 0x00f2, 0x0025),
        Request::ReadDeviceIdentification(MeiType::DeviceIdentification, ReadDeviceIdCode::Basic, 0),
        Request::Custom(FunctionCode::Custom(0x41), &[0xde, 0xad]),
    ];
    for req in requests.iter() {
        let bytes = encode_request(req);
        assert_eq!(Request::decode(&bytes).as_ref(), Ok(req));
    }
}

#[test]
fn request_read_write_does_not_roundtrip() {
    let req = Request::ReadWriteMultipleRegisters(0, 1, 0, DataWords::new(&[0x00, 0x01], 1));
    let bytes = encode_request(&req);
    assert_ne!(Request::decode(&bytes).as_ref(), Ok(&req));
}

#[test]
fn request_decode_errors() {
    let buf: &[u8] = &[0x81];
    assert_eq!(
        Request::decode(buf),
        Err(DecodeError::IncompleteBuffer { current_size: 1, min_needed_size: 2 })
    );
    let buf: &[u8] = &[0x83, 0x07];
    assert_eq!(
        Request::decode(buf),
        Err(DecodeError::ModbusExceptionCode(FunctionCode::ReadHoldingRegisters, Err(0x07)))
    );
    let buf: &[u8] = &[0x80, 0x01];
    assert_eq!(
        Request::decode(buf),
        Err(DecodeError::ModbusExceptionCode(FunctionCode::Custom(0), Ok(ExceptionCode::IllegalFunction)))
    );
    let buf: &[u8] = &[0x03, 0x00, 0x01, 0x00];
    assert_eq!(
        Request::decode(buf),
        Err(DecodeError::IncompleteBuffer { current_size: 4, min_needed_size: 5 })
    );
    let buf: &[u8] = &[0x03, 0x00, 0x01, 0x00, 0x7e];
    assert_eq!(
        Request::decode(buf),
        Err(DecodeError::ModbusExceptionError(FunctionCode::ReadHoldingRegisters, ExceptionError::IllegalDataValue))
    );
    let buf: &[u8] = &[0x02, 0x00, 0x01, 0x00, 0x00];
    assert_eq!(
        Request::decode(buf),
        Err(DecodeError::ModbusExceptionError(FunctionCode::ReadDiscreteInput, ExceptionError::IllegalDataValue))
    );
    let buf: &[u8] = &[0x05, 0x00, 0x01, 0x12, 0x34];
    assert_eq!(
        Request::decode(buf),
        Err(DecodeError::ModbusExceptionError(FunctionCode::WriteSingleCoil, ExceptionError::IllegalDataValue))
    );
    let buf: &[u8] = &[0x0f, 0x00, 0x13, 0x00, 0x0a, 0x03, 0xcd, 0x01];
    assert_eq!(
        Request::decode(buf),
        Err(DecodeError::IncompleteBuffer { current_size: 8, min_needed_size: 9 })
    );
    let buf: &[u8] = &[0x10, 0x00, 0x01, 0x00, 0x7c, 0x00];
    assert_eq!(
        Request::decode(buf),
        Err(DecodeError::ModbusExceptionError(FunctionCode::WriteMultipleRegisters, ExceptionError::IllegalDataValue))
    );
    let buf: &[u8] = &[0x2b, 0x0e, 0x01, 0x00, 0x00, 0x00];
    assert_eq!(
        Request::decode(buf),
        Err(DecodeError::IncompleteBuffer { current_size: 6, min_needed_size: 4 })
    );
    let buf: &[u8] = &[0x16, 0x00, 0x04, 0x00, 0xf2, 0x00];
    assert_eq!(
        Request::decode(buf),
        Err(DecodeError::IncompleteBuffer { current_size: 6, min_needed_size: 7 })
    );
    let buf: &[u8] = &[0x17, 0x00, 0x03, 0x00, 0x06, 0x00, 0x0e, 0x00, 0x00, 0x00];
    assert_eq!(
        Request::decode(buf),
        Err(DecodeError::ModbusExceptionError(FunctionCode::ReadWriteMultipleRegisters, ExceptionError::IllegalDataValue))
    );
    let buf: &[u8] = &[0x17, 0x00, 0x03, 0x00, 0x06, 0x00, 0x0e, 0x00, 0x01, 0x02, 0x00];
    assert_eq!(
        Request::decode(buf),
        Err(DecodeError::IncompleteBuffer { current_size: 11, min_needed_size: 12 })
    );
}

#[test]
fn request_decode_values() {
    let buf: &[u8] = &[0x17, 0x00, 0x03, 0x00, 0x06, 0x00, 0x0e, 0x00, 0x01, 0x02, 0x00, 0xff];
    assert_eq!(
        Request::decode(buf),
        Ok(Request::ReadWriteMultipleRegisters(3, 6, 14, DataWords::new(&[0x00, 0xff], 1)))
    );
    let buf: &[u8] = &[0x2b, 0x0e, 0x03, 0x07];
    assert_eq!(
        Request::decode(buf),
        Ok(Request::ReadDeviceIdentification(MeiType::DeviceIdentification, ReadDeviceIdCode::Extended, 7))
    );
    let buf: &[u8] = &[0x42];
    assert_eq!(Request::decode(buf), Ok(Request::Custom(FunctionCode::Custom(0x42), &[])));
    let buf: &[u8] = &[0x06, 0x00, 0x01, 0x00, 0x03, 0x99];
    assert_eq!(Request::decode(buf), Ok(Request::WriteSingleRegister(1, 3)));
    assert_eq!(Request::WriteMultipleCoils(1, DataCoils::new(&[1, 2, 3], 20)).pdu_len(), 9);
    assert_eq!(Request::ReadWriteMultipleRegisters(1, 1, 1, DataWords::new(&[1, 2], 1)).pdu_len(), 12);
    assert_eq!(Request::Custom(FunctionCode::Custom(0x41), &[1, 2]).pdu_len(), 3);
}

fn encode_response(res: &Response) -> Vec<u8> {
    let mut buf = vec![0xAA; res.pdu_len()];
    assert_eq!(res.encode(&mut buf), Ok(res.pdu_len()));
    buf
}

#[test]
fn response_roundtrip_on_values() {
    let responses = [
        Response::ReadCoils(DataCoils::new(&[0xcd, 0x6b, 0x05], 24)),
        Response::ReadDiscreteInput(DataCoils::new(&[0xac], 8)),
        Response::ReadHoldingRegisters(DataWords::new(&[0x02, 0x2b, 0x00, 0x00], 2)),
        Response::ReadInputRegisters(DataWords::new(&[0x00, 0x0a], 1)),
        Response::ReadWriteMultipleRegisters(DataWords::new(&[0x00, 0xfe, 0x0a, 0xcd], 2)),
        Response::WriteSingleCoil(0x00ac, true),
        Response::WriteSingleRegister(0x0001, 0x0003),
        Response::WriteMultipleCoils(0x0013, 0x000a),
        Response::WriteMultipleRegisters(0x0001, 0x0002),
        Response::MaskWriteRegister(0x0004, 0x00f2, 0x0025),
        Response::Custom(FunctionCode::Custom(0x64), &[7, 8, 9]),
    ];
    for res in responses.iter() {
        let bytes = encode_response(res);
        assert_eq!(Response::decode(&bytes).as_ref(), Ok(res));
    }
}

#[test]
fn response_decode_values_and_errors() {
    // Any quantity is taken as it stands in a multiple write response.
    let buf: &[u8] = &[0x0f, 0x00, 0x13, 0xff, 0xff];
    assert_eq!(Response::decode(buf), Ok(Response::WriteMultipleCoils(0x13, 0xffff)));
    let buf: &[u8] = &[0x10, 0x00, 0x01, 0x00, 0x00];
    assert_eq!(Response::decode(buf), Ok(Response::WriteMultipleRegisters(0x01, 0)));
    let buf: &[u8] = &[0x05, 0x00, 0xac, 0x00, 0x01];
    assert_eq!(
        Response::decode(buf),
        Err(DecodeError::ModbusExceptionError(FunctionCode::WriteSingleCoil, ExceptionError::IllegalDataValue))
    );
    let buf: &[u8] = &[0x06, 0x00, 0x01, 0x00];
    assert_eq!(
        Response::decode(buf),
        Err(DecodeError::IncompleteBuffer { current_size: 4, min_needed_size: 5 })
    );
    let buf: &[u8] = &[0x16, 0x00, 0x04, 0x00, 0xf2, 0x00, 0x25];
    assert_eq!(Response::decode(buf), Ok(Response::MaskWriteRegister(4, 0xf2, 0x25)));
    let buf: &[u8] = &[0x17, 0x03, 0x00, 0x01, 0x02];
    assert_eq!(
        Response::decode(buf),
        Ok(Response::ReadWriteMultipleRegisters(DataWords::new(&[0x00, 0x01, 0x02], 1)))
    );
    let buf: &[u8] = &[0x81];
    assert_eq!(
        Response::decode(buf),
        Err(DecodeError::IncompleteBuffer { current_size: 1, min_needed_size: 2 })
    );
    let res = Response::WriteSingleCoil(1, true);
    let mut short = [0u8; 4];
    assert_eq!(res.encode(&mut short), Err(EncodeError::InvalidBufferSize));
    assert_eq!(short, [0u8; 4]);
}

#[test]
fn device_identification_objects() {
    let empty = DeviceIdentificationObject::new_empty();
    assert_eq!(empty.id, 0);
    assert_eq!(empty.length, 0);
    assert!(empty.value.iter().all(|&b| b == 0));
    assert_eq!(empty.bytes_len(), 247);

    let code: &[u8] = &[0x01, 0x03, b'a', b'b', b'c', b'd'];
    let obj = DeviceIdentificationObject::try_from(code).unwrap();
    assert_eq!(obj.id, 1);
    assert_eq!(obj.length, 3);
    assert_eq!(&obj.value[..4], &[b'a', b'b', b'c', 0]);
    let bytes = obj.bytes();
    assert_eq!(bytes.len(), 247);
    assert_eq!(&bytes[..6], &[0x01, 0x03, b'a', b'b', b'c', 0]);

    let mut list = ListOfIdObjects { list_of_id_objects: [DeviceIdentificationObject::new_empty(); 256] };
    list.list_of_id_objects[1] = obj;
    assert_eq!(list.bytes_len(), 256 * 247);
    let all = list.bytes();
    assert_eq!(all.len(), 256 * 247);
    assert_eq!(&all[247..252], &[0x01, 0x03, b'a', b'b', b'c']);

    let res = Response::ReadDeviceIdentification(
        FunctionCode::ReadDeviceIdentification,
        MeiType::DeviceIdentification,
        ReadDeviceIdCode::Basic,
        ConformityLevel::BasicStreamAndIndividual,
        MoreFollows::NoMoreObjects,
        0,
        1,
        list,
    );
    assert_eq!(res.pdu_len(), 7 + 256 * 247);
    let encoded = encode_response(&res);
    assert_eq!(&encoded[..7], &[0x2b, 0x0e, 0x01, 0x81, 0x00, 0x00, 0x01]);
    assert_eq!(&encoded[7..], &all[..]);
}

use modbus::error::{DecodeError, ExceptionError};
use modbus::exception_code::ExceptionCode;
use modbus::pdu::function_code::FunctionCode;
use modbus::pdu::request::Request;
use modbus::pdu::response::Response;
use modbus::pdu::{DataCoils, DataWords};

#[test]
fn function_code_from_u8() {
    assert_eq!(FunctionCode::try_from(0x01), Ok(FunctionCode::ReadCoils));
    assert_eq!(
        FunctionCode::try_from(0x05),
        Ok(FunctionCode::WriteSingleCoil)
    );
    assert_eq!(FunctionCode::try_from(0x20), Ok(FunctionCode::Custom(0x20)));
    assert_eq!(FunctionCode::try_from(0x80), Err(0x80));
    assert_eq!(FunctionCode::try_from(0x9a), Err(0x9a));
    assert_eq!(FunctionCode::try_from(0xff), Err(0xff));
}

#[test]
fn request_from_buffer() {
    let buf: &[u8] = &[];
    assert_eq!(
        Request::try_from(buf),
        Err(DecodeError::IncompleteBuffer {
            current_size: 0,
            min_needed_size: 1,
        })
    );

    let buf: &[u8] = &[0x81, 0x01];
    assert_eq!(
        Request::try_from(buf),
        Err(DecodeError::ModbusExceptionCode(
            FunctionCode::ReadCoils,
            Ok(ExceptionCode::IllegalFunction)
        ))
    );
    let buf: &[u8] = &[0x90, 0x02];
    assert_eq!(
        Request::try_from(buf),
        Err(DecodeError::ModbusExceptionCode(
            FunctionCode::WriteMultipleRegisters,
            Ok(ExceptionCode::IllegalDataAddress)
        ))
    );

    let buf: &[u8] = &[0x01, 0x00, 0x06, 0x03, 0xe8];
    assert_eq!(Request::try_from(buf), Ok(Request::ReadCoils(6, 1000)));
    let buf: &[u8] = &[0x01, 0x00, 0x06, 0x80, 0x00];
    assert_eq!(
        Request::try_from(buf),
        Err(DecodeError::ModbusExceptionError(
            FunctionCode::ReadCoils,
            ExceptionError::IllegalDataValue,
        ))
    );

    let buf: &[u8] = &[0x0f, 0x00, 0x13, 0x00, 0x0a, 0x02, 0xcd, 0x01];
    assert_eq!(
        Request::try_from(buf),
        Ok(Request::WriteMultipleCoils(
            0x13,
            DataCoils::new(&[0xcd, 0x01], 0x0a)
        ))
    );
}

#[test]
fn request_buffer_from_response() {
    let res = Request::ReadCoils(0x03e8, 0x0123);
    let buf: &mut [u8] = &mut [0; 5];
    let pdu_len = res.encode(buf);
    assert_eq!(pdu_len, Ok(5));
    assert_eq!(buf, &[0x01, 0x03, 0xe8, 0x01, 0x23]);
}

#[test]
fn response_from_buffer() {
    let buf: &[u8] = &[];
    assert_eq!(
        Response::try_from(buf),
        Err(DecodeError::IncompleteBuffer {
            current_size: 0,
            min_needed_size: 1,
        })
    );

    let buf: &[u8] = &[0x81, 0x01];
    assert_eq!(
        Response::try_from(buf),
        Err(DecodeError::ModbusExceptionCode(
            FunctionCode::ReadCoils,
            Ok(ExceptionCode::IllegalFunction)
        ))
    );
    let buf: &[u8] = &[0x90, 0x02];
    assert_eq!(
        Response::try_from(buf),
        Err(DecodeError::ModbusExceptionCode(
            FunctionCode::WriteMultipleRegisters,
            Ok(ExceptionCode::IllegalDataAddress)
        ))
    );

    let buf: &[u8] = &[0x01, 0x02, 0xff, 0x7f];
    assert_eq!(
        Response::try_from(buf),
        Ok(Response::ReadCoils(DataCoils::new(&[0xff, 0x7f], 16)))
    );
    let buf: &[u8] = &[0x02, 0x02, 0xff, 0x7f];
    assert_eq!(
        Response::try_from(buf),
        Ok(Response::ReadDiscreteInput(DataCoils::new(
            &[0xff, 0x7f],
            16
        )))
    );
    let buf: &[u8] = &[0x03, 0x04, 0x00, 0x11, 0x00, 0x04];
    assert_eq!(
        Response::try_from(buf),
        Ok(Response::ReadHoldingRegisters(DataWords::new(
            &[0x00, 0x11, 0x00, 0x04],
            2
        )))
    );
    let buf: &[u8] = &[0x04, 0x04, 0x00, 0x11, 0x00, 0x04];
    assert_eq!(
        Response::try_from(buf),
        Ok(Response::ReadInputRegisters(DataWords::new(
            &[0x00, 0x11, 0x00, 0x04],
            2
        )))
    );
}

#[test]
fn response_from_incomplete_buffer() {
    let buf: &[u8] = &[0x01, 0x02, 0xff];
    assert_eq!(
        Response::try_from(buf),
        Err(DecodeError::IncompleteBuffer {
            current_size: 3,
            min_needed_size: 4,
        })
    );
    let buf: &[u8] = &[0x01];
    assert_eq!(
        Response::try_from(buf),
        Err(DecodeError::IncompleteBuffer {
            current_size: 1,
            min_needed_size: 2,
        })
    );
    let buf: &[u8] = &[0x02];
    assert_eq!(
        Response::try_from(buf),
        Err(DecodeError::IncompleteBuffer {
            current_size: 1,
            min_needed_size: 2,
        })
    );
    let buf: &[u8] = &[0x03];
    assert_eq!(
        Response::try_from(buf),
        Err(DecodeError::IncompleteBuffer {
            current_size: 1,
            min_needed_size: 2,
        })
    );
    let buf: &[u8] = &[0x04];
    assert_eq!(
        Response::try_from(buf),
        Err(DecodeError::IncompleteBuffer {
            current_size: 1,
            min_needed_size: 2,
        })
    );
    let buf: &[u8] = &[0x04, 0x04, 0x00, 0x11, 0x00];
    assert_eq!(
        Response::try_from(buf),
        Err(DecodeError::IncompleteBuffer {
            current_size: 5,
            min_needed_size: 6,
        })
    );
    let buf: &[u8] = &[0x04, 0x04, 0x00, 0x11];
    assert_eq!(
        Response::try_from(buf),
        Err(DecodeError::IncompleteBuffer {
            current_size: 4,
            min_needed_size: 6,
        })
    );
}

#[test]
fn response_buffer_from_response() {
    let res = Response::ReadCoils(DataCoils::new(&[0xff, 0x7f], 16));
    let buf: &mut [u8] = &mut [0; 4];
    let pdu_len = res.encode(buf);
    assert_eq!(pdu_len, Ok(4));
    assert_eq!(buf, &[0x01, 0x02, 0xff, 0x7f]);
}

#[test]
fn vec_buffer_from_response() {
    let res = Response::ReadCoils(DataCoils::new(&[0xff, 0x7f], 16));
    let size = res.pdu_len();
    let mut buf = vec![0; size];
    let pdu_len = res.encode(&mut buf);
    assert_eq!(pdu_len, Ok(4));
    assert_eq!(buf, &[0x01, 0x02, 0xff, 0x7f]);
}

use arctic::control::ResponseCode;
use arctic::{
    command_bytes, ControlPointCommand, ControlPointResponseCode, ControlResponse, Error,
    H10MeasurementType, StreamSettings, Transaction,
};

// Parsing the canned ECG settings response: 130 Hz, fourteen bits, no
// range.
#[test]
fn settings_ecg() {
    let data = ControlResponse::new(vec![
        0xf0, 0x01, 0x00, 0x00, 0x00, 0x00, 0x01, 0x82, 0x00, 0x01, 0x01, 0x0e, 0x00,
    ])
    .unwrap();

    let settings = StreamSettings::new(&data).unwrap();
    assert_eq!(*settings.data_type(), H10MeasurementType::Ecg);
    assert_eq!(settings.resolution(), 14);
    assert_eq!(*settings.range(), None);
    assert_eq!(*settings.sample_rate(), vec![130]);
}

// Parsing the canned acceleration settings response: four rates, sixteen
// bits, three ranges.
#[test]
fn settings_acc() {
    let data = ControlResponse::new(vec![
        0xf0, 0x01, 0x02, 0x00, 0x00, 0x00, 0x04, 0x19, 0x00, 0x32, 0x00, 0x64, 0x00, 0xC8, 0x00,
        0x01, 0x01, 0x10, 0x00, 0x02, 0x03, 0x02, 0x00, 0x04, 0x00, 0x08, 0x00,
    ])
    .unwrap();

    let settings = StreamSettings::new(&data).unwrap();
    assert_eq!(*settings.data_type(), H10MeasurementType::Acc);
    assert_eq!(settings.resolution(), 16);
    assert_eq!(*settings.range(), Some(vec![2, 4, 8]));
    assert_eq!(*settings.sample_rate(), vec![25, 50, 100, 200]);
}

// The settings parser refuses a response to any other command.
#[test]
fn settings_wrong_response() {
    let data = ControlResponse::new(vec![0xf0, 0x02, 0x00, 0x00, 0x00]).unwrap();
    assert_eq!(*data.opcode(), ControlPointCommand::RequestMeasurementStart);
    assert_eq!(StreamSettings::new(&data).unwrap_err(), Error::WrongResponse);
}

// A truncated settings payload fails the parse instead of panicking.
#[test]
fn settings_truncated_payload() {
    // tag 0, length 2, but only one value pair follows
    let data = ControlResponse::new(vec![0xf0, 0x01, 0x00, 0x00, 0x00, 0x00, 0x02, 0x19, 0x00])
        .unwrap();
    assert_eq!(StreamSettings::new(&data).unwrap_err(), Error::InvalidData);
}

// Of several resolution runs the last value wins.
#[test]
fn settings_resolution_last_wins() {
    let data = ControlResponse::new(vec![
        0xf0, 0x01, 0x00, 0x00, 0x00, 0x01, 0x01, 0x05, 0x00, 0x01, 0x01, 0x09, 0x00,
    ])
    .unwrap();
    let settings = StreamSettings::new(&data).unwrap();
    assert_eq!(settings.resolution(), 9);
}

// A zero-length run contributes nothing and parsing moves to the next tag.
#[test]
fn settings_zero_length_run() {
    let data = ControlResponse::new(vec![
        0xf0, 0x01, 0x00, 0x00, 0x00, 0x02, 0x00, 0x00, 0x01, 0x82, 0x00,
    ])
    .unwrap();
    let settings = StreamSettings::new(&data).unwrap();
    assert_eq!(*settings.range(), None);
    assert_eq!(*settings.sample_rate(), vec![130]);
}

// A first packet must carry the marker, four bytes and known codes.
#[test]
fn control_response_rejects_malformed() {
    assert_eq!(
        ControlResponse::new(vec![0xf0, 0x01, 0x00]).unwrap_err(),
        Error::InvalidData
    );
    assert_eq!(
        ControlResponse::new(vec![0x00, 0x01, 0x00, 0x00]).unwrap_err(),
        Error::InvalidData
    );
    assert_eq!(
        ControlResponse::new(vec![0xf0, 0x04, 0x00, 0x00]).unwrap_err(),
        Error::InvalidData
    );
    assert_eq!(
        ControlResponse::new(vec![0xf0, 0x01, 0x01, 0x00]).unwrap_err(),
        Error::InvalidData
    );
    assert_eq!(
        ControlResponse::new(vec![0xf0, 0x01, 0x00, 0x0e]).unwrap_err(),
        Error::InvalidData
    );
}

// A device status other than success moves the transaction to the failed
// state and the response never comes out as complete.
#[test]
fn transaction_failed_status() {
    let t = Transaction::new();
    let t = t
        .on_notification(vec![0xf0, 0x01, 0x00, 0x03, 0x00])
        .unwrap();
    match t {
        Transaction::Failed(resp) => {
            assert_eq!(*resp.status(), ControlPointResponseCode::NotSupported);
        }
        _ => panic!("a failure status must end in the failed state"),
    }
}

// A response without the more flag completes on the first packet.
#[test]
fn transaction_single_packet() {
    let t = Transaction::new();
    let t = t
        .on_notification(vec![0xf0, 0x01, 0x02, 0x00, 0x00, 0xaa, 0xbb])
        .unwrap();
    match t {
        Transaction::Complete(resp) => {
            assert_eq!(*resp.opcode(), ControlPointCommand::GetMeasurementSettings);
            assert_eq!(*resp.data_type(), H10MeasurementType::Acc);
            assert_eq!(*resp.status(), ControlPointResponseCode::Success);
            assert_eq!(*resp.parameters(), vec![0xaa, 0xbb]);
        }
        _ => panic!("a success without the more flag must complete"),
    }
}

// With the more flag set, continuation packets append their bytes until a
// zero flag byte ends the response, whose own payload is discarded.
#[test]
fn transaction_reassembles_continuations() {
    let t = Transaction::new();
    let t = t
        .on_notification(vec![0xf0, 0x01, 0x00, 0x00, 0x01, 0xaa, 0xbb])
        .unwrap();
    assert!(matches!(t, Transaction::AwaitingMore(_)));
    let t = t.on_notification(vec![0x01, 0xcc, 0xdd]).unwrap();
    assert!(matches!(t, Transaction::AwaitingMore(_)));
    let t = t.on_notification(vec![0x00, 0xee]).unwrap();
    match t {
        Transaction::Complete(resp) => {
            assert_eq!(*resp.parameters(), vec![0xaa, 0xbb, 0xcc, 0xdd]);
        }
        _ => panic!("a zero continuation flag must complete the response"),
    }
}

// A malformed first packet fails the transaction with invalid data.
#[test]
fn transaction_rejects_bad_first_packet() {
    let t = Transaction::new();
    assert_eq!(
        t.on_notification(vec![0x01, 0x00]).unwrap_err(),
        Error::InvalidData
    );
}

// The write payloads are bit exact.
#[test]
fn command_bytes_exact() {
    assert_eq!(
        command_bytes(
            ControlPointCommand::GetMeasurementSettings,
            H10MeasurementType::Ecg,
            8,
            200
        )
        .unwrap(),
        vec![0x01, 0x00]
    );
    assert_eq!(
        command_bytes(
            ControlPointCommand::GetMeasurementSettings,
            H10MeasurementType::Acc,
            8,
            200
        )
        .unwrap(),
        vec![0x01, 0x02]
    );
    assert_eq!(
        command_bytes(
            ControlPointCommand::StopMeasurement,
            H10MeasurementType::Ecg,
            8,
            200
        )
        .unwrap(),
        vec![0x03, 0x00]
    );
    assert_eq!(
        command_bytes(
            ControlPointCommand::RequestMeasurementStart,
            H10MeasurementType::Ecg,
            8,
            200
        )
        .unwrap(),
        vec![0x02, 0x00, 0x00, 0x01, 0x82, 0x00, 0x01, 0x01, 0x0e, 0x00]
    );
    assert_eq!(
        command_bytes(
            ControlPointCommand::RequestMeasurementStart,
            H10MeasurementType::Acc,
            4,
            100
        )
        .unwrap(),
        vec![0x02, 0x02, 0x02, 0x01, 0x04, 0x00, 0x00, 0x01, 0x64, 0x00, 0x01, 0x01, 0x10, 0x00]
    );
}

// The Null command is never written.
#[test]
fn command_bytes_null_rejected() {
    assert_eq!(
        command_bytes(ControlPointCommand::Null, H10MeasurementType::Ecg, 8, 200).unwrap_err(),
        Error::NullCommand
    );
}

// The attribute protocol response codes parse from their wire bytes.
#[test]
fn response_code_parses() {
    assert_eq!(ResponseCode::try_from(0), Ok(ResponseCode::Success));
    assert_eq!(ResponseCode::try_from(10), Ok(ResponseCode::AttributeNotFound));
    assert_eq!(ResponseCode::try_from(17), Ok(ResponseCode::InsufficientResources));
    assert_eq!(ResponseCode::try_from(18), Err(()));
}

// Round trip: the settings request encodes, and the canned device answer
// parses back to the expected settings.
#[test]
fn settings_round_trip_ecg() {
    let request = command_bytes(
        ControlPointCommand::GetMeasurementSettings,
        H10MeasurementType::Ecg,
        8,
        200,
    )
    .unwrap();
    assert_eq!(request, vec![0x01, 0x00]);

    // the device's canned answer to that request
    let t = Transaction::new();
    let t = t
        .on_notification(vec![
            0xf0, 0x01, 0x00, 0x00, 0x00, 0x00, 0x01, 0x82, 0x00, 0x01, 0x01, 0x0e, 0x00,
        ])
        .unwrap();
    let resp = match t {
        Transaction::Complete(resp) => resp,
        _ => panic!("expected a completed transaction"),
    };
    let settings = StreamSettings::new(&resp).unwrap();
    assert_eq!(settings.resolution(), 14);
    assert_eq!(*settings.range(), None);
    assert_eq!(*settings.sample_rate(), vec![130]);
}

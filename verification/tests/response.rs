use arctic::{battery_level, Error, H10MeasurementType, HeartRate, PmdData, PmdRead};

// Decoding a canned acceleration notification.
#[test]
fn pmd_read_acc_new() {
    let response = PmdRead::new(vec![
        0x02, 0xea, 0x54, 0xa2, 0x42, 0x8b, 0x45, 0x52, 0x08, 0x01, 0x45, 0xff, 0xe4, 0xff, 0xb5,
        0x03, 0x45, 0xff, 0xe4, 0xff, 0xb8, 03,
    ])
    .unwrap();

    assert_eq!(*response.data_type(), H10MeasurementType::Acc);
    assert_eq!(response.time_stamp(), 599618164814402794u64);
    let the_data = response.data();
    match &the_data[0] {
        PmdData::Acc(thing) => {
            let (x, y, z) = thing.data();
            assert_eq!(x, -187);
            assert_eq!(y, -28);
            assert_eq!(z, 949);
        }
        _ => panic!("Instantiated object of wrong type, expected Acc"),
    }
}

#[test]
fn pmd_read_ecg_new() {
    let response = PmdRead::new(vec![
        0x00, 0xea, 0x54, 0xa2, 0x42, 0x8b, 0x45, 0x52, 0x08, 0x00, 0xff, 0xff, 0xff,
    ])
    .unwrap();

    assert_eq!(*response.data_type(), H10MeasurementType::Ecg);
    assert_eq!(response.time_stamp(), 599618164814402794u64);
    let the_data = response.data();
    match &the_data[0] {
        PmdData::Ecg(thing) => assert_eq!(*thing.val(), -1),
        _ => panic!("Instantiated object of wrong type, expected Ecg"),
    }
}

// The second acceleration frame of the canned notification decodes too.
#[test]
fn pmd_read_acc_second_frame() {
    let response = PmdRead::new(vec![
        0x02, 0xea, 0x54, 0xa2, 0x42, 0x8b, 0x45, 0x52, 0x08, 0x01, 0x45, 0xff, 0xe4, 0xff, 0xb5,
        0x03, 0x45, 0xff, 0xe4, 0xff, 0xb8, 0x03,
    ])
    .unwrap();

    let the_data = response.data();
    assert_eq!(the_data.len(), 2);
    match &the_data[1] {
        PmdData::Acc(thing) => assert_eq!(thing.data(), (-187, -28, 952)),
        _ => panic!("expected Acc"),
    }
}

// A notification shorter than the ten-byte minimum is an invalid length,
// not a panic.
#[test]
fn pmd_read_truncated() {
    assert_eq!(
        PmdRead::new(vec![0x00, 0x01, 0x02]).unwrap_err(),
        Error::InvalidLength
    );
    assert_eq!(PmdRead::new(vec![]).unwrap_err(), Error::InvalidLength);
    assert_eq!(
        PmdRead::new(vec![0x00, 0xea, 0x54, 0xa2, 0x42, 0x8b, 0x45, 0x52, 0x08]).unwrap_err(),
        Error::InvalidLength
    );
}

// An unknown measurement type tag is invalid data.
#[test]
fn pmd_read_unknown_tag() {
    assert_eq!(
        PmdRead::new(vec![0x05, 0, 0, 0, 0, 0, 0, 0, 0, 0, 1, 2, 3]).unwrap_err(),
        Error::InvalidData
    );
}

// A body that does not split evenly into frames is an invalid length.
#[test]
fn pmd_read_ragged_body() {
    // ECG frames are three bytes; two bytes remain after the header.
    assert_eq!(
        PmdRead::new(vec![0x00, 0, 0, 0, 0, 0, 0, 0, 0, 0, 0xff, 0xff]).unwrap_err(),
        Error::InvalidLength
    );
}

// Decoding a canned heart-rate notification with two RR intervals.
#[test]
fn hr_new() {
    let hr = HeartRate::new(vec![16, 60, 55, 4, 7, 3]).unwrap();

    assert_eq!(*hr.bpm(), 60);
    assert_eq!(*hr.rr(), Some(vec![1104, 793]));
}

// Surplus bytes are ignored when the RR flag bit is clear.
#[test]
fn hr_flag_clear_ignores_surplus() {
    let hr = HeartRate::new(vec![0, 60, 55, 4, 7, 3]).unwrap();

    assert_eq!(*hr.bpm(), 60);
    assert_eq!(*hr.rr(), None);
}

// The largest raw RR value converts without panicking; the milliseconds
// value is kept to sixteen bits.
#[test]
fn hr_largest_raw_value() {
    let hr = HeartRate::new(vec![16, 60, 0xff, 0xff]).unwrap();
    // 65535 * 128 / 125 = 67107, kept to sixteen bits = 1571
    assert_eq!(*hr.rr(), Some(vec![1571]));
}

// A heart-rate notification needs at least the flag and bpm bytes.
#[test]
fn hr_truncated() {
    assert_eq!(HeartRate::new(vec![16]).unwrap_err(), Error::InvalidLength);
    assert_eq!(HeartRate::new(vec![]).unwrap_err(), Error::InvalidLength);
}

// The battery notification carries the level in its first byte.
#[test]
fn battery_level_reads_first_byte() {
    assert_eq!(battery_level(&vec![77]).unwrap(), 77);
    assert_eq!(battery_level(&vec![13, 99]).unwrap(), 13);
    assert_eq!(battery_level(&vec![]).unwrap_err(), Error::InvalidLength);
}

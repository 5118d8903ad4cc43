use arctic::{Error, H10MeasurementType, Session, SupportedFeatures};

// Pushing types: a duplicate is ignored, a third distinct type is ignored.
#[test]
fn type_push() {
    let mut polar = Session::new();

    polar.data_type_push(H10MeasurementType::Acc);
    assert_eq!(*polar.data_type(), Some(vec![H10MeasurementType::Acc]));

    polar.data_type_push(H10MeasurementType::Ecg);
    assert_eq!(
        *polar.data_type(),
        Some(vec![H10MeasurementType::Acc, H10MeasurementType::Ecg])
    );

    polar.data_type_push(H10MeasurementType::Ecg);
    assert_eq!(
        *polar.data_type(),
        Some(vec![H10MeasurementType::Acc, H10MeasurementType::Ecg])
    );

    polar.data_type_push(H10MeasurementType::Acc);
    assert_eq!(
        *polar.data_type(),
        Some(vec![H10MeasurementType::Acc, H10MeasurementType::Ecg])
    );
}

// Popping types: removing the last one collapses to the unset state.
#[test]
fn type_pop() {
    let mut polar = Session::new();

    polar.data_type_push(H10MeasurementType::Acc);
    polar.data_type_push(H10MeasurementType::Ecg);

    polar.data_type_pop(H10MeasurementType::Acc);
    assert_eq!(*polar.data_type(), Some(vec![H10MeasurementType::Ecg]));

    polar.data_type_pop(H10MeasurementType::Acc);
    assert_eq!(*polar.data_type(), Some(vec![H10MeasurementType::Ecg]));

    polar.data_type_pop(H10MeasurementType::Ecg);
    assert_eq!(*polar.data_type(), None);
}

// The range setter checks the value, then that a type is requested, then
// that acceleration is among the requested types.
#[test]
fn range_validation() {
    let mut polar = Session::new();
    assert_eq!(polar.range(3).unwrap_err(), Error::InvalidData);
    assert_eq!(polar.range(4).unwrap_err(), Error::NoDataType);

    polar.data_type_push(H10MeasurementType::Ecg);
    assert_eq!(polar.range(4).unwrap_err(), Error::WrongType);
    assert_eq!(polar.current_range(), 8);

    polar.data_type_push(H10MeasurementType::Acc);
    polar.range(4).unwrap();
    assert_eq!(polar.current_range(), 4);
}

// The sample rate setter runs the same checks over its own legal values.
#[test]
fn sample_rate_validation() {
    let mut polar = Session::new();
    assert_eq!(polar.sample_rate(60).unwrap_err(), Error::InvalidData);
    assert_eq!(polar.sample_rate(100).unwrap_err(), Error::NoDataType);

    polar.data_type_push(H10MeasurementType::Ecg);
    assert_eq!(polar.sample_rate(100).unwrap_err(), Error::WrongType);
    assert_eq!(polar.current_sample_rate(), 200);

    polar.data_type_push(H10MeasurementType::Acc);
    polar.sample_rate(25).unwrap();
    assert_eq!(polar.current_sample_rate(), 25);
}

// The feature byte decodes bit by bit; one reserved bit is skipped.
#[test]
fn supported_features_bits() {
    let f = SupportedFeatures::new(0b0100_1101);
    assert!(f.ecg);
    assert!(!f.ppg);
    assert!(f.acc);
    assert!(f.ppi);
    assert!(!f.gyro);
    assert!(f.mag);

    let none = SupportedFeatures::new(0);
    assert!(!none.ecg && !none.ppg && !none.acc && !none.ppi && !none.gyro && !none.mag);
}

// The measurement type maps to its wire tag and frame width.
#[test]
fn measurement_type_tables() {
    assert_eq!(H10MeasurementType::try_from(0x00), Ok(H10MeasurementType::Ecg));
    assert_eq!(H10MeasurementType::try_from(0x02), Ok(H10MeasurementType::Acc));
    assert_eq!(H10MeasurementType::try_from(0x01), Err(()));
    assert_eq!(H10MeasurementType::Ecg.as_u8(), 0x00);
    assert_eq!(H10MeasurementType::Acc.as_u8(), 0x02);
    assert_eq!(H10MeasurementType::Ecg.as_bytes(), 3);
    assert_eq!(H10MeasurementType::Acc.as_bytes(), 6);
}

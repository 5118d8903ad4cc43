use arctic::{NotifyStream, NotifyUuid, StringUuid};
use uuid::Uuid;

// The characteristic values match the Polar H10 GATT table.
#[test]
fn notify_uuid_values() {
    assert_eq!(
        Uuid::from_u128(NotifyUuid::BatteryLevel.as_u128()),
        Uuid::parse_str("00002a19-0000-1000-8000-00805f9b34fb").unwrap()
    );
    assert_eq!(
        Uuid::from_u128(NotifyUuid::HeartMeasurement.as_u128()),
        Uuid::parse_str("00002a37-0000-1000-8000-00805f9b34fb").unwrap()
    );
    assert_eq!(
        Uuid::from_u128(NotifyUuid::MeasurementCP.as_u128()),
        Uuid::parse_str("fb005c81-02e7-f387-1cad-8acd2d8df0c8").unwrap()
    );
    assert_eq!(
        Uuid::from_u128(NotifyUuid::MeasurementData.as_u128()),
        Uuid::parse_str("fb005c82-02e7-f387-1cad-8acd2d8df0c8").unwrap()
    );
}

// Each subscription stream maps to its characteristic.
#[test]
fn notify_stream_mapping() {
    assert_eq!(NotifyUuid::from(NotifyStream::Battery), NotifyUuid::BatteryLevel);
    assert_eq!(NotifyUuid::from(NotifyStream::HeartRate), NotifyUuid::HeartMeasurement);
    assert_eq!(NotifyUuid::from(NotifyStream::MeasurementCP), NotifyUuid::MeasurementCP);
    assert_eq!(NotifyUuid::from(NotifyStream::MeasurementData), NotifyUuid::MeasurementData);
}

// The device-information characteristics carry the standard string values.
#[test]
fn string_uuid_values() {
    assert_eq!(
        Uuid::from_u128(StringUuid::ModelNumber.as_u128()),
        Uuid::parse_str("00002a24-0000-1000-8000-00805f9b34fb").unwrap()
    );
    assert_eq!(
        Uuid::from_u128(StringUuid::BodyLocation.as_u128()),
        Uuid::parse_str("00002a38-0000-1000-8000-00805f9b34fb").unwrap()
    );
    assert_eq!(
        Uuid::from_u128(StringUuid::SerialNumber.as_u128()),
        Uuid::parse_str("00002a25-0000-1000-8000-00805f9b34fb").unwrap()
    );
}

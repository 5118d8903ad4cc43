//! UUID values of the Polar H10 GATT characteristics.
//!
//! The 128-bit values live here as plain integers; the transport layer turns
//! them into its own UUID type when it subscribes or reads.

use vstd::prelude::*;

use crate::NotifyStream;

verus! {

/// Battery level notify stream.
pub const BATTERY_LEVEL_UUID: u128 = 0x00002a19_0000_1000_8000_00805f9b34fb;

/// Heart rate notify stream.
pub const HEART_RATE_MEASUREMENT_UUID: u128 = 0x00002a37_0000_1000_8000_00805f9b34fb;

/// Body sensor location.
pub const BODY_LOCATION_UUID: u128 = 0x00002a38_0000_1000_8000_00805f9b34fb;

/// Polar Measurement Data control point (read, write, indicate).
pub const PMD_CP_UUID: u128 = 0xfb005c81_02e7_f387_1cad_8acd2d8df0c8;

/// Polar Measurement Data data stream (notify).
pub const PMD_DATA_UUID: u128 = 0xfb005c82_02e7_f387_1cad_8acd2d8df0c8;

/// Model number string.
pub const MODEL_NUMBER_STRING_UUID: u128 = 0x00002a24_0000_1000_8000_00805f9b34fb;

/// Manufacturer name string.
pub const MANUFACTURER_NAME_STRING_UUID: u128 = 0x00002a29_0000_1000_8000_00805f9b34fb;

/// Hardware revision string.
pub const HARDWARE_REVISION_STRING_UUID: u128 = 0x00002a27_0000_1000_8000_00805f9b34fb;

/// Firmware revision string.
pub const FIRMWARE_REVISION_STRING_UUID: u128 = 0x00002a26_0000_1000_8000_00805f9b34fb;

/// Software revision string.
pub const SOFTWARE_REVISION_STRING_UUID: u128 = 0x00002a28_0000_1000_8000_00805f9b34fb;

/// Serial number string.
pub const SERIAL_NUMBER_STRING_UUID: u128 = 0x00002a25_0000_1000_8000_00805f9b34fb;

/// System id.
pub const SYSTEM_ID_UUID: u128 = 0x00002a23_0000_1000_8000_00805f9b34fb;

/// Characteristics that deliver notifications.
#[derive(Debug, Clone, Copy, PartialEq, Eq, Structural)]
pub enum NotifyUuid {
    /// Battery level updates.
    BatteryLevel,
    /// Heart rate measurements.
    HeartMeasurement,
    /// PMD control point responses.
    MeasurementCP,
    /// PMD measurement data.
    MeasurementData,
}

impl NotifyUuid {
    /// The 128-bit UUID value of this characteristic.
    pub open spec fn spec_uuid(self) -> u128 {
        match self {
            NotifyUuid::BatteryLevel => BATTERY_LEVEL_UUID,
            NotifyUuid::HeartMeasurement => HEART_RATE_MEASUREMENT_UUID,
            NotifyUuid::MeasurementCP => PMD_CP_UUID,
            NotifyUuid::MeasurementData => PMD_DATA_UUID,
        }
    }

    /// The 128-bit UUID value of this characteristic.
    pub fn as_u128(&self) -> (r: u128)
        ensures
            r == self.spec_uuid(),
    {
        match *self {
            NotifyUuid::BatteryLevel => BATTERY_LEVEL_UUID,
            NotifyUuid::HeartMeasurement => HEART_RATE_MEASUREMENT_UUID,
            NotifyUuid::MeasurementCP => PMD_CP_UUID,
            NotifyUuid::MeasurementData => PMD_DATA_UUID,
        }
    }
}

impl From<NotifyStream> for NotifyUuid {
    /// The characteristic a subscription stream maps to.
    fn from(item: NotifyStream) -> (r: NotifyUuid) {
        match item {
            NotifyStream::Battery => NotifyUuid::BatteryLevel,
            NotifyStream::HeartRate => NotifyUuid::HeartMeasurement,
            NotifyStream::MeasurementCP => NotifyUuid::MeasurementCP,
            NotifyStream::MeasurementData => NotifyUuid::MeasurementData,
        }
    }
}

impl vstd::std_specs::convert::FromSpecImpl<NotifyStream> for NotifyUuid {
    open spec fn obeys_from_spec() -> bool {
        true
    }

    open spec fn from_spec(item: NotifyStream) -> NotifyUuid {
        match item {
            NotifyStream::Battery => NotifyUuid::BatteryLevel,
            NotifyStream::HeartRate => NotifyUuid::HeartMeasurement,
            NotifyStream::MeasurementCP => NotifyUuid::MeasurementCP,
            NotifyStream::MeasurementData => NotifyUuid::MeasurementData,
        }
    }
}

/// Characteristics that are read directly, mostly device information strings.
#[derive(Debug, Clone, Copy, PartialEq, Eq, Structural)]
pub enum StringUuid {
    /// Body sensor location.
    BodyLocation,
    /// Model number.
    ModelNumber,
    /// Manufacturer name.
    ManufacturerName,
    /// Hardware revision.
    HardwareRevision,
    /// Firmware revision.
    FirmwareRevision,
    /// Software revision.
    SoftwareRevision,
    /// Serial number.
    SerialNumber,
    /// System id.
    SystemId,
}

impl StringUuid {
    /// The 128-bit UUID value of this characteristic.
    pub open spec fn spec_uuid(self) -> u128 {
        match self {
            StringUuid::BodyLocation => BODY_LOCATION_UUID,
            StringUuid::ModelNumber => MODEL_NUMBER_STRING_UUID,
            StringUuid::ManufacturerName => MANUFACTURER_NAME_STRING_UUID,
            StringUuid::HardwareRevision => HARDWARE_REVISION_STRING_UUID,
            StringUuid::FirmwareRevision => FIRMWARE_REVISION_STRING_UUID,
            StringUuid::SoftwareRevision => SOFTWARE_REVISION_STRING_UUID,
            StringUuid::SerialNumber => SERIAL_NUMBER_STRING_UUID,
            StringUuid::SystemId => SYSTEM_ID_UUID,
        }
    }

    /// The 128-bit UUID value of this characteristic.
    pub fn as_u128(&self) -> (r: u128)
        ensures
            r == self.spec_uuid(),
    {
        match *self {
            StringUuid::BodyLocation => BODY_LOCATION_UUID,
            StringUuid::ModelNumber => MODEL_NUMBER_STRING_UUID,
            StringUuid::ManufacturerName => MANUFACTURER_NAME_STRING_UUID,
            StringUuid::HardwareRevision => HARDWARE_REVISION_STRING_UUID,
            StringUuid::FirmwareRevision => FIRMWARE_REVISION_STRING_UUID,
            StringUuid::SoftwareRevision => SOFTWARE_REVISION_STRING_UUID,
            StringUuid::SerialNumber => SERIAL_NUMBER_STRING_UUID,
            StringUuid::SystemId => SYSTEM_ID_UUID,
        }
    }
}

} // verus!

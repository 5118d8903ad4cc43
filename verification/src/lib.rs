//! Core protocol logic for Polar heart-rate sensors speaking the Polar
//! Measurement Data (PMD) protocol over BLE GATT.
//!
//! This crate holds the transport-independent parts: the byte codec for
//! sign-extended little-endian integers, the measurement-frame decoder, the
//! settings-payload parser, the control-point transaction state machine and
//! the session configuration. Everything here is pure: bytes in, typed values
//! out. The BLE transport (adapter discovery, connecting, subscribing,
//! notification delivery) is a collaborator that feeds these functions.

use vstd::prelude::*;

pub mod control;
pub mod polar_uuid;
pub mod response;
pub mod session;

pub use control::{
    command_bytes, ControlPointCommand, ControlPointResponseCode, ControlResponse, StreamSettings,
    Transaction,
};
pub use polar_uuid::{NotifyUuid, StringUuid};
pub use response::{battery_level, Acc, Ecg, HeartRate, PmdData, PmdRead};
pub use session::Session;

verus! {

/// Error type for protocol and validation failures.
///
/// Transport-level failures of the BLE collaborator (adapter missing, device
/// gone, characteristic lookup) reuse the variants here that describe them;
/// errors native to the underlying BLE library are the collaborator's own.
#[derive(Debug, Clone, Copy, PartialEq, Eq)]
pub enum Error {
    /// No bluetooth adapter was found when trying to scan.
    NoBleAdaptor,
    /// The control point link could not be created.
    NoControlPoint,
    /// No device was found when trying to connect.
    NoDevice,
    /// A function that requires a connected device was called without one.
    NotConnected,
    /// No measurement type has been selected.
    NoDataType,
    /// The device is missing a characteristic that was used.
    CharacteristicNotFound,
    /// Data received from the device could not be parsed.
    InvalidData,
    /// Not enough data was received.
    InvalidLength,
    /// The command to write to the PMD control point is Null.
    NullCommand,
    /// A struct was created from the wrong kind of control point response.
    WrongResponse,
    /// A setting was applied to a measurement type that does not support it.
    WrongType,
}

/// Result alias used throughout the crate.
pub type PolarResult<T> = Result<T, Error>;

/// Measurement types a Polar H10 can stream.
#[derive(Debug, PartialEq, Eq, Clone, Copy, Structural)]
pub enum H10MeasurementType {
    /// Electrocardiogram, sample values in microvolts.
    Ecg,
    /// Acceleration, sample values in milli-G.
    Acc,
}

impl H10MeasurementType {
    /// The measurement type denoted by a wire tag byte, if any.
    pub open spec fn spec_from_tag(data: u8) -> Option<H10MeasurementType> {
        if data == 0x00 {
            Some(H10MeasurementType::Ecg)
        } else if data == 0x02 {
            Some(H10MeasurementType::Acc)
        } else {
            None
        }
    }

    /// The wire tag byte of this measurement type.
    pub open spec fn spec_tag(self) -> u8 {
        match self {
            H10MeasurementType::Ecg => 0x00,
            H10MeasurementType::Acc => 0x02,
        }
    }

    /// Width in bytes of one sample frame of this measurement type.
    pub open spec fn spec_frame_width(self) -> int {
        match self {
            H10MeasurementType::Ecg => 3,
            H10MeasurementType::Acc => 6,
        }
    }

    /// Parse a wire tag byte into a measurement type.
    pub fn try_from(data: u8) -> (r: Result<H10MeasurementType, ()>)
        ensures
            r matches Ok(t) ==> Self::spec_from_tag(data) == Some(t),
            r is Err <==> Self::spec_from_tag(data) is None,
    {
        match data {
            0x00 => Ok(H10MeasurementType::Ecg),
            0x02 => Ok(H10MeasurementType::Acc),
            _ => Err(()),
        }
    }

    /// The wire tag byte of this measurement type.
    pub fn as_u8(&self) -> (r: u8)
        ensures
            r == self.spec_tag(),
    {
        match *self {
            H10MeasurementType::Ecg => 0x00,
            H10MeasurementType::Acc => 0x02,
        }
    }

    /// Width in bytes of one sample frame of this measurement type.
    pub fn as_bytes(&self) -> (r: u8)
        ensures
            r as int == self.spec_frame_width(),
    {
        match *self {
            H10MeasurementType::Ecg => 3,
            H10MeasurementType::Acc => 6,
        }
    }
}

/// The wire tag of a measurement type always parses back to that type: a
/// request encoded for a type and the device's echo of its tag byte speak
/// of the same measurement stream.
pub proof fn lemma_tag_round_trip(t: H10MeasurementType)
    ensures
        H10MeasurementType::spec_from_tag(t.spec_tag()) == Some(t),
{
}

/// Features a device reports as available, decoded from its feature byte.
#[derive(Debug, Clone, Copy)]
pub struct SupportedFeatures {
    /// Electrocardiogram
    pub ecg: bool,
    /// Photoplethysmography
    pub ppg: bool,
    /// Acceleration
    pub acc: bool,
    /// Peak to peak interval
    pub ppi: bool,
    /// Gyroscope
    pub gyro: bool,
    /// Magnetometer
    pub mag: bool,
}

impl SupportedFeatures {
    /// Decode the feature byte read from the PMD control point.
    pub fn new(mes: u8) -> (r: SupportedFeatures)
        ensures
            r.ecg == ((mes & 0x01) != 0),
            r.ppg == ((mes & 0x02) != 0),
            r.acc == ((mes & 0x04) != 0),
            r.ppi == ((mes & 0x08) != 0),
            r.gyro == ((mes & 0x20) != 0),
            r.mag == ((mes & 0x40) != 0),
    {
        SupportedFeatures {
            ecg: (mes & 0x01) != 0,
            ppg: (mes & 0x02) != 0,
            acc: (mes & 0x04) != 0,
            ppi: (mes & 0x08) != 0,
            // the bit between ppi and gyro is reserved for future use
            gyro: (mes & 0x20) != 0,
            mag: (mes & 0x40) != 0,
        }
    }
}

/// Notification streams a caller can subscribe to.
#[derive(Debug, Clone, Copy)]
pub enum NotifyStream {
    /// Battery level updates.
    Battery,
    /// Heart rate updates.
    HeartRate,
    /// Control point responses.
    MeasurementCP,
    /// PMD measurement data (acceleration or ECG).
    MeasurementData,
}

} // verus!

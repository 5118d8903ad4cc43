//! Control-point protocol: command op-codes, device status codes, command
//! encoding, response parsing with multi-packet reassembly, and the settings
//! payload parser.

use vstd::prelude::*;

use crate::{Error, H10MeasurementType, PolarResult};

verus! {

/// Command options written to the PMD control point.
#[derive(Debug, PartialEq, Eq, Clone, Copy, Structural)]
pub enum ControlPointCommand {
    /// Do nothing. Never legitimately sent; attempting to signals a caller
    /// bug and is rejected with `Error::NullCommand` before any write.
    Null,
    /// Get measurement settings for a data type.
    GetMeasurementSettings,
    /// Start a measurement stream.
    RequestMeasurementStart,
    /// Stop a measurement stream.
    StopMeasurement,
}

impl ControlPointCommand {
    /// The command denoted by a wire op-code byte, if any.
    pub open spec fn spec_from_u8(val: u8) -> Option<ControlPointCommand> {
        if val == 0 {
            Some(ControlPointCommand::Null)
        } else if val == 1 {
            Some(ControlPointCommand::GetMeasurementSettings)
        } else if val == 2 {
            Some(ControlPointCommand::RequestMeasurementStart)
        } else if val == 3 {
            Some(ControlPointCommand::StopMeasurement)
        } else {
            None
        }
    }

    /// Parse a wire op-code byte into a command.
    pub fn try_from(val: u8) -> (r: Result<ControlPointCommand, ()>)
        ensures
            r matches Ok(c) ==> Self::spec_from_u8(val) == Some(c),
            r is Err <==> Self::spec_from_u8(val) is None,
    {
        match val {
            0 => Ok(ControlPointCommand::Null),
            1 => Ok(ControlPointCommand::GetMeasurementSettings),
            2 => Ok(ControlPointCommand::RequestMeasurementStart),
            3 => Ok(ControlPointCommand::StopMeasurement),
            _ => Err(()),
        }
    }
}

/// Status codes a device reports in a control point response.
#[derive(Debug, PartialEq, Eq, Clone, Copy, Structural)]
pub enum ControlPointResponseCode {
    /// The command was successful.
    Success,
    /// The control point command is not supported by the device.
    InvalidOpCode,
    /// The device does not know the specified measurement type.
    InvalidMeasurementType,
    /// The measurement is not supported by the device.
    NotSupported,
    /// The given length does not match the received data.
    InvalidLength,
    /// The request carries parameters that prevent handling it.
    InvalidParameter,
    /// The device is already in the requested state.
    AlreadyInState,
    /// The requested resolution is not supported by the device.
    InvalidResolution,
    /// The requested sample rate is not supported by the device.
    InvalidSampleRate,
    /// The requested range is not supported.
    InvalidRange,
    /// The connection MTU does not match the device required MTU.
    InvalidMTU,
    /// The request carries an invalid number of channels.
    InvalidNumberOfChannels,
    /// The device is in an invalid state.
    InvalidState,
    /// The device is in the charger and does not serve requests.
    DeviceInCharger,
}

impl ControlPointResponseCode {
    /// The status code denoted by a wire status byte, if any.
    pub open spec fn spec_from_u8(val: u8) -> Option<ControlPointResponseCode> {
        if val == 0 {
            Some(ControlPointResponseCode::Success)
        } else if val == 1 {
            Some(ControlPointResponseCode::InvalidOpCode)
        } else if val == 2 {
            Some(ControlPointResponseCode::InvalidMeasurementType)
        } else if val == 3 {
            Some(ControlPointResponseCode::NotSupported)
        } else if val == 4 {
            Some(ControlPointResponseCode::InvalidLength)
        } else if val == 5 {
            Some(ControlPointResponseCode::InvalidParameter)
        } else if val == 6 {
            Some(ControlPointResponseCode::AlreadyInState)
        } else if val == 7 {
            Some(ControlPointResponseCode::InvalidResolution)
        } else if val == 8 {
            Some(ControlPointResponseCode::InvalidSampleRate)
        } else if val == 9 {
            Some(ControlPointResponseCode::InvalidRange)
        } else if val == 10 {
            Some(ControlPointResponseCode::InvalidMTU)
        } else if val == 11 {
            Some(ControlPointResponseCode::InvalidNumberOfChannels)
        } else if val == 12 {
            Some(ControlPointResponseCode::InvalidState)
        } else if val == 13 {
            Some(ControlPointResponseCode::DeviceInCharger)
        } else {
            None
        }
    }

    /// Parse a wire status byte into a status code.
    pub fn try_from(val: u8) -> (r: Result<ControlPointResponseCode, ()>)
        ensures
            r matches Ok(c) ==> Self::spec_from_u8(val) == Some(c),
            r is Err <==> Self::spec_from_u8(val) is None,
    {
        match val {
            0 => Ok(ControlPointResponseCode::Success),
            1 => Ok(ControlPointResponseCode::InvalidOpCode),
            2 => Ok(ControlPointResponseCode::InvalidMeasurementType),
            3 => Ok(ControlPointResponseCode::NotSupported),
            4 => Ok(ControlPointResponseCode::InvalidLength),
            5 => Ok(ControlPointResponseCode::InvalidParameter),
            6 => Ok(ControlPointResponseCode::AlreadyInState),
            7 => Ok(ControlPointResponseCode::InvalidResolution),
            8 => Ok(ControlPointResponseCode::InvalidSampleRate),
            9 => Ok(ControlPointResponseCode::InvalidRange),
            10 => Ok(ControlPointResponseCode::InvalidMTU),
            11 => Ok(ControlPointResponseCode::InvalidNumberOfChannels),
            12 => Ok(ControlPointResponseCode::InvalidState),
            13 => Ok(ControlPointResponseCode::DeviceInCharger),
            _ => Err(()),
        }
    }
}

/// Append `src[start..]` to `dst`.
fn push_tail(dst: &mut Vec<u8>, src: &Vec<u8>, start: usize)
    requires
        start <= src@.len(),
    ensures
        final(dst)@ == old(dst)@ + src@.skip(start as int),
{
    let n = src.len();
    let mut j = start;
    while j < n
        invariant
            start <= j <= n,
            n == src@.len(),
            dst@ == old(dst)@ + src@.subrange(start as int, j as int),
        decreases n - j,
    {
        let b = src[j];
        dst.push(b);
        proof {
            assert(src@.subrange(start as int, j + 1) =~= src@.subrange(start as int, j as int)
                + seq![src@[j as int]]);
        }
        j = j + 1;
    }
    proof {
        assert(src@.subrange(start as int, n as int) =~= src@.skip(start as int));
    }
}

/// The bytes written to the control point for a command: the op-code byte,
/// the measurement type tag, and for a start request the negotiated
/// tag-length-value parameters.
///
/// Acceleration carries range, sample rate and a fixed sixteen-bit
/// resolution; ECG carries its fixed 130 Hz sample rate and fourteen-bit
/// resolution. The Null command is never written and is rejected.
pub fn command_bytes(
    command: ControlPointCommand,
    ty: H10MeasurementType,
    range: u8,
    sample_rate: u8,
) -> (r: PolarResult<Vec<u8>>)
    ensures
        command is Null ==> r == Err::<Vec<u8>, Error>(Error::NullCommand),
        command is GetMeasurementSettings ==> (r matches Ok(v) && v@ == seq![
            0x01u8,
            ty.spec_tag(),
        ]),
        command is StopMeasurement ==> (r matches Ok(v) && v@ == seq![0x03u8, ty.spec_tag()]),
        command is RequestMeasurementStart && ty is Acc ==> (r matches Ok(v) && v@ == seq![
            0x02u8,
            ty.spec_tag(),
            0x02u8,
            0x01u8,
            range,
            0x00u8,
            0x00u8,
            0x01u8,
            sample_rate,
            0x00u8,
            0x01u8,
            0x01u8,
            0x10u8,
            0x00u8,
        ]),
        command is RequestMeasurementStart && ty is Ecg ==> (r matches Ok(v) && v@ == seq![
            0x02u8,
            ty.spec_tag(),
            0x00u8,
            0x01u8,
            0x82u8,
            0x00u8,
            0x01u8,
            0x01u8,
            0x0eu8,
            0x00u8,
        ]),
{
    match command {
        ControlPointCommand::Null => Err(Error::NullCommand),
        ControlPointCommand::GetMeasurementSettings => {
            let v = vec![0x01u8, ty.as_u8()];
            Ok(v)
        },
        ControlPointCommand::StopMeasurement => {
            let v = vec![0x03u8, ty.as_u8()];
            Ok(v)
        },
        ControlPointCommand::RequestMeasurementStart => {
            match ty {
                H10MeasurementType::Acc => {
                    let v = vec![
                        0x02u8,
                        ty.as_u8(),
                        // range
                        0x02u8,
                        0x01u8,
                        range,
                        0x00u8,
                        // sample rate
                        0x00u8,
                        0x01u8,
                        sample_rate,
                        0x00u8,
                        // resolution
                        0x01u8,
                        0x01u8,
                        0x10u8,
                        0x00u8,
                    ];
                    Ok(v)
                },
                H10MeasurementType::Ecg => {
                    let v = vec![
                        0x02u8,
                        ty.as_u8(),
                        // sample rate
                        0x00u8,
                        0x01u8,
                        0x82u8,
                        0x00u8,
                        // resolution
                        0x01u8,
                        0x01u8,
                        0x0eu8,
                        0x00u8,
                    ];
                    Ok(v)
                },
            }
        },
    }
}

/// Response codes of the attribute protocol layer, as read from a raw GATT
/// error byte.
#[derive(Debug, PartialEq, Eq, Clone, Copy, Structural)]
pub enum ResponseCode {
    /// The operation succeeded.
    Success,
    /// The attribute handle is invalid.
    InvalidHandle,
    /// The attribute cannot be read.
    ReadNotPermitted,
    /// The attribute cannot be written.
    WriteNotPermitted,
    /// The attribute PDU is invalid.
    InvalidPdu,
    /// The attribute requires authentication.
    InsufficientAuthentication,
    /// The request is not supported.
    RequestNotSupported,
    /// The offset is past the end of the attribute.
    InvalidOffset,
    /// The attribute requires authorization.
    InsufficientAuthorization,
    /// The prepare queue is full.
    PrepareQueueFull,
    /// No attribute was found within the given range.
    AttributeNotFound,
    /// The attribute cannot be read or written with a blob request.
    AttributeNotLong,
    /// The encryption key size is too short.
    InsufficientEncryptionKeySize,
    /// The attribute value length is invalid for the operation.
    InsufficientAttributeValueLength,
    /// The request hit an unlikely error.
    UnlikelyError,
    /// The attribute requires encryption.
    InsufficientEncryption,
    /// The attribute group type is not supported.
    UnsupportedGroupType,
    /// Insufficient resources to complete the request.
    InsufficientResources,
}

impl ResponseCode {
    /// The attribute protocol response code denoted by a byte, if any.
    pub open spec fn spec_from_u8(val: u8) -> Option<ResponseCode> {
        if val == 0 {
            Some(ResponseCode::Success)
        } else if val == 1 {
            Some(ResponseCode::InvalidHandle)
        } else if val == 2 {
            Some(ResponseCode::ReadNotPermitted)
        } else if val == 3 {
            Some(ResponseCode::WriteNotPermitted)
        } else if val == 4 {
            Some(ResponseCode::InvalidPdu)
        } else if val == 5 {
            Some(ResponseCode::InsufficientAuthentication)
        } else if val == 6 {
            Some(ResponseCode::RequestNotSupported)
        } else if val == 7 {
            Some(ResponseCode::InvalidOffset)
        } else if val == 8 {
            Some(ResponseCode::InsufficientAuthorization)
        } else if val == 9 {
            Some(ResponseCode::PrepareQueueFull)
        } else if val == 10 {
            Some(ResponseCode::AttributeNotFound)
        } else if val == 11 {
            Some(ResponseCode::AttributeNotLong)
        } else if val == 12 {
            Some(ResponseCode::InsufficientEncryptionKeySize)
        } else if val == 13 {
            Some(ResponseCode::InsufficientAttributeValueLength)
        } else if val == 14 {
            Some(ResponseCode::UnlikelyError)
        } else if val == 15 {
            Some(ResponseCode::InsufficientEncryption)
        } else if val == 16 {
            Some(ResponseCode::UnsupportedGroupType)
        } else if val == 17 {
            Some(ResponseCode::InsufficientResources)
        } else {
            None
        }
    }

    /// Parse a raw attribute protocol response byte.
    pub fn try_from(val: u8) -> (r: Result<ResponseCode, ()>)
        ensures
            r matches Ok(c) ==> Self::spec_from_u8(val) == Some(c),
            r is Err <==> Self::spec_from_u8(val) is None,
    {
        match val {
            0 => Ok(ResponseCode::Success),
            1 => Ok(ResponseCode::InvalidHandle),
            2 => Ok(ResponseCode::ReadNotPermitted),
            3 => Ok(ResponseCode::WriteNotPermitted),
            4 => Ok(ResponseCode::InvalidPdu),
            5 => Ok(ResponseCode::InsufficientAuthentication),
            6 => Ok(ResponseCode::RequestNotSupported),
            7 => Ok(ResponseCode::InvalidOffset),
            8 => Ok(ResponseCode::InsufficientAuthorization),
            9 => Ok(ResponseCode::PrepareQueueFull),
            10 => Ok(ResponseCode::AttributeNotFound),
            11 => Ok(ResponseCode::AttributeNotLong),
            12 => Ok(ResponseCode::InsufficientEncryptionKeySize),
            13 => Ok(ResponseCode::InsufficientAttributeValueLength),
            14 => Ok(ResponseCode::UnlikelyError),
            15 => Ok(ResponseCode::InsufficientEncryption),
            16 => Ok(ResponseCode::UnsupportedGroupType),
            17 => Ok(ResponseCode::InsufficientResources),
            _ => Err(()),
        }
    }
}

/// Parse the tag-length-value runs of a settings payload, folding them into
/// an accumulator of (resolution, range values, sample rates).
///
/// The grammar is a repeating run of a setting-type tag byte (0 sample
/// rate, 1 resolution, anything else range), an array-length byte N, and N
/// pairs of a value byte and a reserved byte. Sample-rate and range values
/// accumulate in device order; of the resolution only the last value seen
/// is kept. A run cut short by the end of the payload fails the parse.
pub open spec fn parse_settings(
    s: Seq<u8>,
    acc: (u8, Seq<u8>, Seq<u8>),
) -> Option<(u8, Seq<u8>, Seq<u8>)>
    decreases s.len(),
{
    if s.len() == 0 {
        Some(acc)
    } else if s.len() < 2 {
        None
    } else {
        let tag = s[0];
        let n = s[1] as int;
        if s.len() < 2 + 2 * n {
            None
        } else {
            let vals = Seq::new(n as nat, |q: int| s[2 + 2 * q]);
            let acc2 = if tag == 0x00 {
                (acc.0, acc.1, acc.2 + vals)
            } else if tag == 0x01 {
                (if n > 0 {
                    vals.last()
                } else {
                    acc.0
                }, acc.1, acc.2)
            } else {
                (acc.0, acc.1 + vals, acc.2)
            };
            parse_settings(s.skip(2 + 2 * n), acc2)
        }
    }
}

/// The empty settings accumulator a parse starts from.
pub open spec fn empty_settings() -> (u8, Seq<u8>, Seq<u8>) {
    (0u8, Seq::<u8>::empty(), Seq::<u8>::empty())
}

/// The settings a device reports for one measurement stream.
#[derive(Debug)]
pub struct StreamSettings {
    ty: H10MeasurementType,
    resolution: u8,
    range: Option<Vec<u8>>,
    sample_rate: Vec<u8>,
}

impl StreamSettings {
    /// The measurement type these settings describe.
    pub closed spec fn spec_type(&self) -> H10MeasurementType {
        self.ty
    }

    /// The reported resolution in bits.
    pub closed spec fn spec_resolution(&self) -> u8 {
        self.resolution
    }

    /// The reported range values in G, `None` when the payload carried no
    /// range run.
    pub closed spec fn spec_range(&self) -> Option<Seq<u8>> {
        match self.range {
            Some(v) => Some(v@),
            None => None,
        }
    }

    /// The reported sample rates in Hz, in device order.
    pub closed spec fn spec_sample_rate(&self) -> Seq<u8> {
        self.sample_rate@
    }

    /// Parse the settings payload of a completed control point response to
    /// a get-settings command. A response to any other command is
    /// `Error::WrongResponse`; a payload whose runs do not parse is
    /// `Error::InvalidData`.
    pub fn new(resp: &ControlResponse) -> (r: PolarResult<StreamSettings>)
        ensures
            resp.spec_opcode() != ControlPointCommand::GetMeasurementSettings ==> r == Err::<
                StreamSettings,
                Error,
            >(Error::WrongResponse),
            resp.spec_opcode() == ControlPointCommand::GetMeasurementSettings ==> match
                parse_settings(resp.spec_parameters(), empty_settings()) {
                Option::None => r == Err::<StreamSettings, Error>(Error::InvalidData),
                Option::Some(p) => r matches Ok(st) && st.spec_type() == resp.spec_data_type()
                    && st.spec_resolution() == p.0 && st.spec_range() == (if p.1.len() > 0 {
                    Some(p.1)
                } else {
                    None::<Seq<u8>>
                }) && st.spec_sample_rate() == p.2,
            },
    {
        if *resp.opcode() != ControlPointCommand::GetMeasurementSettings {
            return Err(Error::WrongResponse);
        }
        let params = resp.parameters();
        let ghost p0 = resp.spec_parameters();
        let n_total = params.len();
        let mut resolution: u8 = 0;
        let mut ranges: Vec<u8> = Vec::new();
        let mut rates: Vec<u8> = Vec::new();
        let mut i: usize = 0;
        proof {
            assert(p0.skip(0) =~= p0);
        }
        while i < n_total
            invariant
                i <= n_total,
                n_total == p0.len(),
                params@ == p0,
                p0 == resp.spec_parameters(),
                resp.spec_opcode() == ControlPointCommand::GetMeasurementSettings,
                parse_settings(p0.skip(i as int), (resolution, ranges@, rates@)) == parse_settings(
                    p0,
                    empty_settings(),
                ),
            decreases n_total - i,
        {
            let ghost s = p0.skip(i as int);
            let ghost acc_old = (resolution, ranges@, rates@);
            let tag = params[i];
            if n_total - i < 2 {
                proof {
                    assert(s.len() == 1);
                    assert(parse_settings(s, acc_old) is None);
                }
                return Err(Error::InvalidData);
            }
            let cnt = params[i + 1] as usize;
            proof {
                assert(s[0] == tag);
                assert(s[1] == cnt as u8);
            }
            if n_total - i - 2 < 2 * cnt {
                proof {
                    assert(s.len() < 2 + 2 * (cnt as int));
                    assert(parse_settings(s, acc_old) is None);
                }
                return Err(Error::InvalidData);
            }
            let mut vals: Vec<u8> = Vec::new();
            let mut j: usize = 0;
            while j < cnt
                invariant
                    j <= cnt,
                    i + 2 + 2 * cnt <= n_total,
                    n_total == p0.len(),
                    params@ == p0,
                    vals@ == Seq::new(j as nat, |q: int| p0[i + 2 + 2 * q]),
                decreases cnt - j,
            {
                let v = params[i + 2 + 2 * j];
                vals.push(v);
                proof {
                    assert(vals@ =~= Seq::new((j + 1) as nat, |q: int| p0[i + 2 + 2 * q]));
                }
                j = j + 1;
            }
            let ghost vseq = vals@;
            if tag == 0x00 {
                rates.append(&mut vals);
            } else if tag == 0x01 {
                if cnt > 0 {
                    resolution = vals[cnt - 1];
                }
            } else {
                ranges.append(&mut vals);
            }
            proof {
                let n = cnt as int;
                let svals = Seq::new(cnt as nat, |q: int| s[2 + 2 * q]);
                assert(svals =~= vseq);
                let acc2 = if tag == 0x00 {
                    (acc_old.0, acc_old.1, acc_old.2 + svals)
                } else if tag == 0x01 {
                    (if n > 0 {
                        svals.last()
                    } else {
                        acc_old.0
                    }, acc_old.1, acc_old.2)
                } else {
                    (acc_old.0, acc_old.1 + svals, acc_old.2)
                };
                assert(parse_settings(s, acc_old) == parse_settings(s.skip(2 + 2 * n), acc2));
                assert((resolution, ranges@, rates@) == acc2);
                assert(s.skip(2 + 2 * n) =~= p0.skip(i + 2 + 2 * n));
            }
            i = i + 2 + 2 * cnt;
        }
        proof {
            assert(p0.skip(i as int).len() == 0);
        }
        let range = if ranges.len() > 0 {
            Some(ranges)
        } else {
            None
        };
        Ok(
            StreamSettings {
                ty: *resp.data_type(),
                resolution,
                range,
                sample_rate: rates,
            },
        )
    }

    /// The reported resolution in bits.
    pub fn resolution(&self) -> (r: u8)
        ensures
            r == self.spec_resolution(),
    {
        self.resolution
    }

    /// The reported range values in G (acceleration only), `None` when the
    /// payload carried no range run.
    pub fn range(&self) -> (r: &Option<Vec<u8>>)
        ensures
            r is Some <==> self.spec_range() is Some,
            r matches Some(v) ==> Some(v@) == self.spec_range(),
    {
        &self.range
    }

    /// The reported sample rates in Hz, in device order.
    pub fn sample_rate(&self) -> (r: &Vec<u8>)
        ensures
            r@ == self.spec_sample_rate(),
    {
        &self.sample_rate
    }

    /// The measurement type these settings describe.
    pub fn data_type(&self) -> (r: &H10MeasurementType)
        ensures
            *r == self.spec_type(),
    {
        &self.ty
    }
}

/// A well-formed first packet of a control point response: at least four
/// bytes, the fixed response marker, and known op-code, measurement type
/// and status bytes.
pub open spec fn valid_first_packet(d: Seq<u8>) -> bool {
    &&& d.len() >= 4
    &&& d[0] == 0xf0
    &&& ControlPointCommand::spec_from_u8(d[1]) is Some
    &&& H10MeasurementType::spec_from_tag(d[2]) is Some
    &&& ControlPointResponseCode::spec_from_u8(d[3]) is Some
}

/// Everything parsing a first packet promises: each field from its byte,
/// the more flag from byte four when present, and the parameters from byte
/// five on.
pub open spec fn response_matches(d: Seq<u8>, r: ControlResponse) -> bool
    recommends
        valid_first_packet(d),
{
    &&& r.spec_opcode() == ControlPointCommand::spec_from_u8(d[1])->Some_0
    &&& r.spec_data_type() == H10MeasurementType::spec_from_tag(d[2])->Some_0
    &&& r.spec_status() == ControlPointResponseCode::spec_from_u8(d[3])->Some_0
    &&& r.spec_more() == (d.len() > 4 && d[4] != 0)
    &&& r.spec_parameters() == if d.len() >= 5 {
        d.skip(5)
    } else {
        Seq::<u8>::empty()
    }
}

/// The relation between a response and the same response extended by one
/// continuation packet: all header fields unchanged, the new bytes appended
/// to the parameters.
pub open spec fn response_continues(
    prev: ControlResponse,
    ext: Seq<u8>,
    next: ControlResponse,
) -> bool {
    &&& next.spec_opcode() == prev.spec_opcode()
    &&& next.spec_data_type() == prev.spec_data_type()
    &&& next.spec_status() == prev.spec_status()
    &&& next.spec_more() == prev.spec_more()
    &&& next.spec_parameters() == prev.spec_parameters() + ext
}

/// Data returned by the device after a write to the control point.
#[derive(Debug)]
pub struct ControlResponse {
    op_code: ControlPointCommand,
    measurement_type: H10MeasurementType,
    status: ControlPointResponseCode,
    parameters: Vec<u8>,
    more: bool,
}

impl ControlResponse {
    /// The op-code echoed by the device.
    pub closed spec fn spec_opcode(&self) -> ControlPointCommand {
        self.op_code
    }

    /// The measurement type echoed by the device.
    pub closed spec fn spec_data_type(&self) -> H10MeasurementType {
        self.measurement_type
    }

    /// The status the device reported.
    pub closed spec fn spec_status(&self) -> ControlPointResponseCode {
        self.status
    }

    /// The accumulated parameter bytes.
    pub closed spec fn spec_parameters(&self) -> Seq<u8> {
        self.parameters@
    }

    /// Whether the device announced continuation packets.
    pub closed spec fn spec_more(&self) -> bool {
        self.more
    }

    /// Parse the first packet of a control point response. The packet must
    /// be at least four bytes and begin with the fixed `0xf0` response
    /// marker; byte one is the op-code, byte two the measurement type, byte
    /// three the status, byte four (when present) the more flag, and
    /// anything from byte five on the first run of parameters.
    pub fn new(data: Vec<u8>) -> (r: PolarResult<ControlResponse>)
        ensures
            r is Ok <==> valid_first_packet(data@),
            r matches Ok(resp) ==> response_matches(data@, resp),
            !valid_first_packet(data@) ==> r == Err::<ControlResponse, Error>(Error::InvalidData),
    {
        if data.len() < 4 {
            return Err(Error::InvalidData);
        }
        if data[0] != 0xf0 {
            return Err(Error::InvalidData);
        }
        let op_code = match ControlPointCommand::try_from(data[1]) {
            Ok(c) => c,
            Err(_) => {
                return Err(Error::InvalidData);
            },
        };
        let measurement_type = match H10MeasurementType::try_from(data[2]) {
            Ok(t) => t,
            Err(_) => {
                return Err(Error::InvalidData);
            },
        };
        let status = match ControlPointResponseCode::try_from(data[3]) {
            Ok(s) => s,
            Err(_) => {
                return Err(Error::InvalidData);
            },
        };
        let more = data.len() > 4 && data[4] != 0;
        let mut parameters: Vec<u8> = Vec::new();
        if data.len() >= 5 {
            push_tail(&mut parameters, &data, 5);
        }
        Ok(ControlResponse { op_code, measurement_type, status, parameters, more })
    }

    /// The accumulated parameter bytes of this response.
    pub fn parameters(&self) -> (r: &Vec<u8>)
        ensures
            r@ == self.spec_parameters(),
    {
        &self.parameters
    }

    /// The op-code echoed by the device.
    pub fn opcode(&self) -> (r: &ControlPointCommand)
        ensures
            *r == self.spec_opcode(),
    {
        &self.op_code
    }

    /// The measurement type echoed by the device.
    pub fn data_type(&self) -> (r: &H10MeasurementType)
        ensures
            *r == self.spec_data_type(),
    {
        &self.measurement_type
    }

    /// The status the device reported.
    pub fn status(&self) -> (r: &ControlPointResponseCode)
        ensures
            *r == self.spec_status(),
    {
        &self.status
    }

    /// Whether the device announced continuation packets.
    pub fn more(&self) -> (r: bool)
        ensures
            r == self.spec_more(),
    {
        self.more
    }
}

/// The control point transaction: a written command is answered by one or
/// more notifications, reassembled here. The terminal states are
/// `Complete`, which only ever holds a response whose status is `Success`,
/// and `Failed`, which holds the response kept for status inspection.
#[derive(Debug)]
pub enum Transaction {
    /// Waiting for the first notification after the control point write.
    AwaitingFirst,
    /// A successful first packet announced more; continuation packets are
    /// being appended.
    AwaitingMore(ControlResponse),
    /// The response is complete and no longer changes.
    Complete(ControlResponse),
    /// The device reported a status other than success; no parameters are
    /// interpreted.
    Failed(ControlResponse),
}

impl Transaction {
    /// A well-formed transaction: a response waiting for continuations or
    /// handed out as complete always has the success status, and a failed
    /// one never does.
    pub open spec fn wf(self) -> bool {
        match self {
            Transaction::AwaitingFirst => true,
            Transaction::AwaitingMore(r) => r.spec_status()
                == ControlPointResponseCode::Success,
            Transaction::Complete(r) => r.spec_status() == ControlPointResponseCode::Success,
            Transaction::Failed(r) => r.spec_status() != ControlPointResponseCode::Success,
        }
    }

    /// Start a transaction: the control point write has been issued and the
    /// first notification is awaited.
    pub fn new() -> (r: Transaction)
        ensures
            r is AwaitingFirst,
            r.wf(),
    {
        Transaction::AwaitingFirst
    }

    /// Feed one control point notification to the transaction.
    ///
    /// The first notification is parsed as a response packet: a failure
    /// status moves to `Failed`, a success with the more flag starts
    /// reassembly, a success without it completes. While reassembling, a
    /// notification whose first byte is non-zero appends its remaining
    /// bytes; a zero first byte ends the response, that packet's payload
    /// discarded. Notifications in a terminal state are ignored.
    pub fn on_notification(self, data: Vec<u8>) -> (r: PolarResult<Transaction>)
        requires
            self.wf(),
        ensures
            r matches Ok(t) ==> t.wf(),
            self is AwaitingFirst && !valid_first_packet(data@) ==> r == Err::<Transaction, Error>(
                Error::InvalidData,
            ),
            self is AwaitingFirst && valid_first_packet(data@) ==> (r matches Ok(t) && {
                let status = ControlPointResponseCode::spec_from_u8(data@[3])->Some_0;
                let more = data@.len() > 4 && data@[4] != 0;
                if status != ControlPointResponseCode::Success {
                    t matches Transaction::Failed(resp) && response_matches(data@, resp)
                } else if more {
                    t matches Transaction::AwaitingMore(resp) && response_matches(data@, resp)
                } else {
                    t matches Transaction::Complete(resp) && response_matches(data@, resp)
                }
            }),
            self matches Transaction::AwaitingMore(prev) ==> {
                &&& data@.len() == 0 ==> r == Err::<Transaction, Error>(Error::InvalidData)
                &&& data@.len() > 0 && data@[0] != 0 ==> (r matches Ok(t) && t matches
                    Transaction::AwaitingMore(next) && response_continues(
                    prev,
                    data@.skip(1),
                    next,
                ))
                &&& data@.len() > 0 && data@[0] == 0 ==> r == Ok::<Transaction, Error>(
                    Transaction::Complete(prev),
                )
            },
            self is Complete || self is Failed ==> r == Ok::<Transaction, Error>(self),
    {
        match self {
            Transaction::AwaitingFirst => {
                let resp = match ControlResponse::new(data) {
                    Ok(resp) => resp,
                    Err(e) => {
                        return Err(e);
                    },
                };
                if *resp.status() != ControlPointResponseCode::Success {
                    Ok(Transaction::Failed(resp))
                } else if resp.more() {
                    Ok(Transaction::AwaitingMore(resp))
                } else {
                    Ok(Transaction::Complete(resp))
                }
            },
            Transaction::AwaitingMore(mut resp) => {
                if data.len() == 0 {
                    return Err(Error::InvalidData);
                }
                if data[0] != 0 {
                    push_tail(&mut resp.parameters, &data, 1);
                    Ok(Transaction::AwaitingMore(resp))
                } else {
                    Ok(Transaction::Complete(resp))
                }
            },
            Transaction::Complete(resp) => Ok(Transaction::Complete(resp)),
            Transaction::Failed(resp) => Ok(Transaction::Failed(resp)),
        }
    }
}

/// A response that a well-formed transaction hands out as complete always
/// carries the success status. Together with the `WrongResponse` guard of
/// `StreamSettings::new`, a response with any failure status never reaches
/// the settings parser through a completed transaction.
pub proof fn lemma_complete_is_success(t: Transaction)
    requires
        t.wf(),
    ensures
        t matches Transaction::Complete(resp) ==> resp.spec_status()
            == ControlPointResponseCode::Success,
        t matches Transaction::Failed(resp) ==> resp.spec_status()
            != ControlPointResponseCode::Success,
{
}

} // verus!

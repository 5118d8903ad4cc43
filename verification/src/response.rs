//! Decoders for PMD data notifications: the sign-extending byte codec, the
//! measurement-frame decoder and the heart-rate notification decoder.

use vstd::prelude::*;

use crate::{Error, H10MeasurementType, PolarResult};

verus! {

/// Little-endian unsigned value of a byte sequence of one, two or three
/// bytes.
pub open spec fn le_value(s: Seq<u8>) -> int
    recommends
        1 <= s.len() <= 3,
{
    if s.len() == 1 {
        s[0] as int
    } else if s.len() == 2 {
        s[0] + 0x100 * s[1]
    } else {
        s[0] + 0x100 * s[1] + 0x1_0000 * s[2]
    }
}

/// The value one past the largest unsigned value of `n` bytes.
pub open spec fn byte_span(n: int) -> int
    recommends
        1 <= n <= 3,
{
    if n == 1 {
        0x100
    } else if n == 2 {
        0x1_0000
    } else {
        0x100_0000
    }
}

/// Two's-complement reading of a little-endian byte sequence of one, two or
/// three bytes: the unsigned value, shifted down by one full span when the
/// top bit of the most significant byte is set.
pub open spec fn sign_extended(s: Seq<u8>) -> int
    recommends
        1 <= s.len() <= 3,
{
    if s[s.len() - 1] >= 0x80 {
        le_value(s) - byte_span(s.len() as int)
    } else {
        le_value(s)
    }
}

/// A sign-extended value always fits a 32-bit signed integer, and its sign
/// is decided by the top bit of the most significant byte alone: set means
/// strictly negative, clear means non-negative.
pub proof fn lemma_sign_extended_range(s: Seq<u8>)
    requires
        1 <= s.len() <= 3,
    ensures
        -0x80_0000 <= sign_extended(s) < 0x100_0000,
        sign_extended(s) < 0 <==> s[s.len() - 1] >= 0x80,
{
}

/// Convert the first `len` bytes of `data`, little endian, into a
/// sign-extended 32-bit integer.
pub fn bytes_to_data(data: &[u8], len: usize) -> (r: i32)
    requires
        1 <= len <= 3,
        len <= data@.len(),
    ensures
        r as int == sign_extended(data@.subrange(0, len as int)),
{
    let hi = data[len - 1];
    let mag: u32 = if len == 1 {
        data[0] as u32
    } else if len == 2 {
        data[0] as u32 + 0x100 * (data[1] as u32)
    } else {
        data[0] as u32 + 0x100 * (data[1] as u32) + 0x1_0000 * (data[2] as u32)
    };
    let span: u32 = if len == 1 {
        0x100
    } else if len == 2 {
        0x1_0000
    } else {
        0x100_0000
    };
    if hi >= 0x80 {
        let diff = span - mag;
        -(diff as i32)
    } else {
        mag as i32
    }
}

/// Little-endian unsigned value of an eight-byte sequence.
pub open spec fn le64_value(s: Seq<u8>) -> int
    recommends
        s.len() == 8,
{
    s[0] + 0x100 * s[1] + 0x1_0000 * s[2] + 0x100_0000 * s[3] + 0x1_0000_0000 * s[4]
        + 0x100_0000_0000 * s[5] + 0x1_0000_0000_0000 * s[6] + 0x100_0000_0000_0000 * s[7]
}

/// Read the eight bytes at `pos`, little endian, as an unsigned 64-bit
/// value.
fn read_le_u64(data: &Vec<u8>, pos: usize) -> (r: u64)
    requires
        pos + 8 <= data@.len(),
    ensures
        r as int == le64_value(data@.subrange(pos as int, pos + 8)),
{
    let n = data.len();
    assert(pos + 8 <= n);
    let b0 = data[pos] as u64;
    let b1 = data[pos + 1] as u64;
    let b2 = data[pos + 2] as u64;
    let b3 = data[pos + 3] as u64;
    let b4 = data[pos + 4] as u64;
    let b5 = data[pos + 5] as u64;
    let b6 = data[pos + 6] as u64;
    let b7 = data[pos + 7] as u64;
    b0 + 0x100 * b1 + 0x1_0000 * b2 + 0x100_0000 * b3 + 0x1_0000_0000 * b4 + 0x100_0000_0000 * b5
        + 0x1_0000_0000_0000 * b6 + 0x100_0000_0000_0000 * b7
}

/// One decoded sample of a measurement stream.
#[derive(Debug)]
pub enum PmdData {
    /// Electrocardiogram
    Ecg(Ecg),
    /// Acceleration
    Acc(Acc),
}

/// One ECG sample from the PMD data stream.
#[derive(Debug)]
pub struct Ecg {
    val: i32,
}

impl Ecg {
    /// The decoded ECG value.
    pub closed spec fn spec_val(&self) -> i32 {
        self.val
    }

    /// Decode one three-byte ECG frame.
    fn new(data: &[u8]) -> (r: PolarResult<Ecg>)
        ensures
            data@.len() < 3 ==> r == Err::<Ecg, Error>(Error::InvalidLength),
            data@.len() >= 3 ==> (r matches Ok(e) && e.spec_val() as int == sign_extended(
                data@.subrange(0, 3),
            )),
    {
        if data.len() < 3 {
            return Err(Error::InvalidLength);
        }
        let val = bytes_to_data(data, 3);
        Ok(Ecg { val })
    }

    /// The ECG value in microvolts.
    pub fn val(&self) -> (r: &i32)
        ensures
            *r == self.spec_val(),
    {
        &self.val
    }
}

/// One acceleration sample from the PMD data stream.
#[derive(Debug)]
pub struct Acc {
    x: i32,
    y: i32,
    z: i32,
}

impl Acc {
    /// The decoded acceleration along the first axis.
    pub closed spec fn spec_x(&self) -> i32 {
        self.x
    }

    /// The decoded acceleration along the second axis.
    pub closed spec fn spec_y(&self) -> i32 {
        self.y
    }

    /// The decoded acceleration along the third axis.
    pub closed spec fn spec_z(&self) -> i32 {
        self.z
    }

    /// Decode one six-byte acceleration frame: three consecutive two-byte
    /// signed fields for x, y and z.
    fn new(data: &[u8]) -> (r: PolarResult<Acc>)
        ensures
            data@.len() < 6 ==> r == Err::<Acc, Error>(Error::InvalidLength),
            data@.len() >= 6 ==> (r matches Ok(a) && a.spec_x() as int == sign_extended(
                data@.subrange(0, 2),
            ) && a.spec_y() as int == sign_extended(data@.subrange(2, 4)) && a.spec_z() as int
                == sign_extended(data@.subrange(4, 6))),
    {
        if data.len() < 6 {
            return Err(Error::InvalidLength);
        }
        let x = bytes_to_data(data, 2);
        let ys = vstd::slice::slice_subrange(data, 2, 4);
        let y = bytes_to_data(ys, 2);
        let zs = vstd::slice::slice_subrange(data, 4, 6);
        let z = bytes_to_data(zs, 2);
        proof {
            assert(data@.subrange(0, 2).subrange(0, 2) =~= data@.subrange(0, 2));
            assert(ys@.subrange(0, 2) =~= data@.subrange(2, 4));
            assert(zs@.subrange(0, 2) =~= data@.subrange(4, 6));
        }
        Ok(Acc { x, y, z })
    }

    /// The acceleration as an (x, y, z) tuple in milli-G.
    pub fn data(&self) -> (r: (i32, i32, i32))
        ensures
            r.0 == self.spec_x(),
            r.1 == self.spec_y(),
            r.2 == self.spec_z(),
    {
        (self.x, self.y, self.z)
    }
}

/// Whether `d` is the correct decoding of the sample frame `f` for
/// measurement type `t`.
pub open spec fn sample_decodes(t: H10MeasurementType, f: Seq<u8>, d: PmdData) -> bool
    recommends
        f.len() == t.spec_frame_width(),
{
    match t {
        H10MeasurementType::Ecg => d matches PmdData::Ecg(e) && e.spec_val() as int
            == sign_extended(f),
        H10MeasurementType::Acc => d matches PmdData::Acc(a) && a.spec_x() as int == sign_extended(
            f.subrange(0, 2),
        ) && a.spec_y() as int == sign_extended(f.subrange(2, 4)) && a.spec_z() as int
            == sign_extended(f.subrange(4, 6)),
    }
}

/// A measurement notification that can be decoded: a known type tag, the
/// eight timestamp bytes, the frame-type byte, and a body that splits evenly
/// into sample frames.
pub open spec fn valid_pmd_stream(d: Seq<u8>) -> bool {
    &&& d.len() >= 10
    &&& H10MeasurementType::spec_from_tag(d[0]) is Some
    &&& (d.len() - 10) % H10MeasurementType::spec_from_tag(d[0])->Some_0.spec_frame_width() == 0
}

/// Everything a successful decode promises: the type from the tag byte, the
/// timestamp from bytes one to eight, and one correctly decoded sample per
/// frame of the body, in arrival order.
pub open spec fn pmd_decode_ok(d: Seq<u8>, pr: PmdRead) -> bool
    recommends
        valid_pmd_stream(d),
{
    let t = H10MeasurementType::spec_from_tag(d[0])->Some_0;
    let w = t.spec_frame_width();
    &&& pr.spec_data_type() == t
    &&& pr.spec_time_stamp() as int == le64_value(d.subrange(1, 9))
    &&& pr.spec_data().len() == (d.len() - 10) / w
    &&& forall|j: int|
        0 <= j < pr.spec_data().len() ==> sample_decodes(
            t,
            d.subrange(10 + w * j, 10 + w * (j + 1)),
            #[trigger] pr.spec_data()[j],
        )
}

/// One decoded measurement notification: the measurement type, the device
/// timestamp, and the samples in arrival order.
#[derive(Debug)]
pub struct PmdRead {
    data_type: H10MeasurementType,
    time_stamp: u64,
    data: Vec<PmdData>,
}

impl PmdRead {
    /// The measurement type of this notification.
    pub closed spec fn spec_data_type(&self) -> H10MeasurementType {
        self.data_type
    }

    /// The device-clock timestamp of this notification.
    pub closed spec fn spec_time_stamp(&self) -> u64 {
        self.time_stamp
    }

    /// The decoded samples in arrival order.
    pub closed spec fn spec_data(&self) -> Seq<PmdData> {
        self.data@
    }

    /// Decode a measurement notification: byte zero is the type tag, bytes
    /// one to eight the little-endian timestamp, byte nine the frame-type
    /// byte of this protocol variant, and the rest consecutive fixed-width
    /// sample frames.
    ///
    /// A payload shorter than ten bytes, or whose body does not split evenly
    /// into frames, is `Error::InvalidLength`; an unknown type tag is
    /// `Error::InvalidData`.
    pub fn new(data_stream: Vec<u8>) -> (r: PolarResult<PmdRead>)
        ensures
            r matches Ok(pr) ==> valid_pmd_stream(data_stream@) && pmd_decode_ok(
                data_stream@,
                pr,
            ),
            valid_pmd_stream(data_stream@) ==> r is Ok,
            data_stream@.len() < 10 ==> r == Err::<PmdRead, Error>(Error::InvalidLength),
            data_stream@.len() >= 10 && H10MeasurementType::spec_from_tag(data_stream@[0])
                is None ==> r == Err::<PmdRead, Error>(Error::InvalidData),
            data_stream@.len() >= 10 ==> (H10MeasurementType::spec_from_tag(data_stream@[0])
                matches Some(t) && (data_stream@.len() - 10) % t.spec_frame_width() != 0 ==> r
                == Err::<PmdRead, Error>(Error::InvalidLength)),
    {
        if data_stream.len() < 10 {
            return Err(Error::InvalidLength);
        }
        let data_type = match H10MeasurementType::try_from(data_stream[0]) {
            Ok(t) => t,
            Err(_) => {
                return Err(Error::InvalidData);
            },
        };
        let time_stamp = read_le_u64(&data_stream, 1);
        let frame_length = data_type.as_bytes() as usize;
        let body_len = data_stream.len() - 10;
        if body_len % frame_length != 0 {
            return Err(Error::InvalidLength);
        }
        let samples = body_len / frame_length;
        proof {
            vstd::arithmetic::div_mod::lemma_fundamental_div_mod(
                body_len as int,
                frame_length as int,
            );
        }
        let ghost d = data_stream@;
        let ghost w = frame_length as int;
        let total = data_stream.len();
        let mut data: Vec<PmdData> = Vec::new();
        let mut current_pos: usize = 10;
        let mut k: usize = 0;
        while k < samples
            invariant
                valid_pmd_stream(d),
                d == data_stream@,
                total == d.len(),
                H10MeasurementType::spec_from_tag(d[0]) == Some(data_type),
                w == data_type.spec_frame_width(),
                frame_length == w,
                k <= samples,
                samples * w == d.len() - 10,
                current_pos == 10 + w * k,
                data@.len() == k,
                forall|j: int|
                    0 <= j < k ==> sample_decodes(
                        data_type,
                        d.subrange(10 + w * j, 10 + w * (j + 1)),
                        #[trigger] data@[j],
                    ),
            decreases samples - k,
        {
            proof {
                assert(w * (k + 1) == w * k + w) by (nonlinear_arith);
                assert(w * (k + 1) <= w * samples) by (nonlinear_arith)
                    requires
                        k + 1 <= samples,
                        w >= 1,
                ;
                assert(w * samples == samples * w) by (nonlinear_arith);
                assert(current_pos + frame_length <= total);
            }
            let frame = vstd::slice::slice_subrange(
                data_stream.as_slice(),
                current_pos,
                current_pos + frame_length,
            );
            let ghost fseq = d.subrange(10 + w * (k as int), 10 + w * (k + 1));
            proof {
                assert(frame@ =~= fseq);
            }
            match data_type {
                H10MeasurementType::Ecg => {
                    match Ecg::new(frame) {
                        Ok(e) => {
                            proof {
                                assert(fseq.subrange(0, 3) =~= fseq);
                            }
                            data.push(PmdData::Ecg(e));
                        },
                        Err(e) => {
                            return Err(e);
                        },
                    }
                },
                H10MeasurementType::Acc => {
                    match Acc::new(frame) {
                        Ok(a) => {
                            data.push(PmdData::Acc(a));
                        },
                        Err(e) => {
                            return Err(e);
                        },
                    }
                },
            }
            current_pos = current_pos + frame_length;
            k = k + 1;
        }
        Ok(PmdRead { data_type, time_stamp, data })
    }

    /// The measurement type of this notification.
    pub fn data_type(&self) -> (r: &H10MeasurementType)
        ensures
            *r == self.spec_data_type(),
    {
        &self.data_type
    }

    /// The device-clock timestamp of this notification.
    pub fn time_stamp(&self) -> (r: u64)
        ensures
            r == self.spec_time_stamp(),
    {
        self.time_stamp
    }

    /// Consume the notification and return its samples.
    pub fn data(self) -> (r: Vec<PmdData>)
        ensures
            r@ == self.spec_data(),
    {
        self.data
    }
}

/// Read the battery level from a battery notification payload, whose first
/// byte is the level.
pub fn battery_level(data: &Vec<u8>) -> (r: PolarResult<u8>)
    ensures
        data@.len() == 0 ==> r == Err::<u8, Error>(Error::InvalidLength),
        data@.len() > 0 ==> r == Ok::<u8, Error>(data@[0]),
{
    if data.len() == 0 {
        return Err(Error::InvalidLength);
    }
    Ok(data[0])
}

/// An RR interval converted from raw 1024ths-of-a-second units to
/// milliseconds, kept to the low sixteen bits.
pub open spec fn rr_interval_ms(raw: int) -> int {
    ((raw * 128) / 125) % 0x1_0000
}

/// The number of RR intervals a heart-rate notification carries: pairs of
/// bytes after the flag and bpm bytes, but only when the RR-data-present
/// flag bit is set. When the flag is clear the count is zero and surplus
/// bytes are ignored.
pub open spec fn rr_sample_count(d: Seq<u8>) -> int
    recommends
        d.len() >= 2,
{
    if d[0] & 0x10 == 0x10 {
        (d.len() - 2) / 2
    } else {
        0
    }
}

/// One heart-rate notification: beats per minute and the optional RR
/// intervals.
#[derive(Debug)]
pub struct HeartRate {
    bpm: u8,
    rr: Option<Vec<u16>>,
}

impl HeartRate {
    /// The heart rate in beats per minute.
    pub closed spec fn spec_bpm(&self) -> u8 {
        self.bpm
    }

    /// The RR intervals in milliseconds, `None` when the notification
    /// carried none.
    pub closed spec fn spec_rr(&self) -> Option<Seq<u16>> {
        match self.rr {
            Some(v) => Some(v@),
            None => None,
        }
    }

    /// Decode a heart-rate notification: byte zero is the flag byte (bit
    /// four announces RR data), byte one the rate in beats per minute, and
    /// the rest little-endian sixteen-bit RR values in 1024ths of a second,
    /// converted here to milliseconds.
    pub fn new(data: Vec<u8>) -> (r: PolarResult<HeartRate>)
        ensures
            data@.len() < 2 ==> r == Err::<HeartRate, Error>(Error::InvalidLength),
            data@.len() >= 2 ==> r is Ok,
            r matches Ok(h) ==> {
                let n = rr_sample_count(data@);
                &&& h.spec_bpm() == data@[1]
                &&& (n == 0 <==> h.spec_rr() is None)
                &&& n > 0 ==> (h.spec_rr() matches Some(rr) && rr.len() == n && forall|i: int|
                    0 <= i < n ==> #[trigger] rr[i] as int == rr_interval_ms(
                        le_value(data@.subrange(2 + 2 * i, 4 + 2 * i)),
                    ))
            },
    {
        if data.len() < 2 {
            return Err(Error::InvalidLength);
        }
        let flags = data[0];
        let samples: usize = if flags & 0x10 == 0x10 {
            (data.len() - 2) / 2
        } else {
            0
        };
        proof {
            vstd::arithmetic::div_mod::lemma_fundamental_div_mod(data@.len() - 2, 2);
        }
        let bpm = data[1];
        let total = data.len();
        let mut rr_samp: Vec<u16> = Vec::new();
        let mut i: usize = 0;
        while i < samples
            invariant
                total == data@.len(),
                total >= 2,
                samples == rr_sample_count(data@),
                2 + 2 * samples <= total,
                i <= samples,
                rr_samp@.len() == i,
                forall|j: int|
                    0 <= j < i ==> #[trigger] rr_samp@[j] as int == rr_interval_ms(
                        le_value(data@.subrange(2 + 2 * j, 4 + 2 * j)),
                    ),
            decreases samples - i,
        {
            let lo = data[i * 2 + 2] as u32;
            let hi = data[i * 2 + 3] as u32;
            let raw = lo + 0x100 * hi;
            let ms = raw * 128 / 125;
            let val = (ms % 0x1_0000) as u16;
            proof {
                assert(le_value(data@.subrange(2 + 2 * (i as int), 4 + 2 * (i as int))) == lo
                    + 0x100 * hi);
            }
            rr_samp.push(val);
            i = i + 1;
        }
        let rr = if rr_samp.len() > 0 {
            Some(rr_samp)
        } else {
            None
        };
        Ok(HeartRate { bpm, rr })
    }

    /// The heart rate in beats per minute.
    pub fn bpm(&self) -> (r: &u8)
        ensures
            *r == self.spec_bpm(),
    {
        &self.bpm
    }

    /// The RR intervals in milliseconds, `None` when the notification
    /// carried none.
    pub fn rr(&self) -> (r: &Option<Vec<u16>>)
        ensures
            r is Some <==> self.spec_rr() is Some,
            r matches Some(v) ==> Some(v@) == self.spec_rr(),
    {
        &self.rr
    }
}

} // verus!


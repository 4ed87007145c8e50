//! Telemetry records sent by the vehicle, and their fixed wire layout.
//!
//! Every real-valued reading is held as the bit pattern of an IEEE-754 single
//! (`f32::to_bits`); the layout writes it as its four little-endian bytes. A
//! status byte of `0xFF` marks a sub-record that holds no data.

use crate::wire::{push_u32_le, read_u32_le, DecodeError};
use vstd::bytes::*;
use vstd::prelude::*;

verus! {

/// Status byte of a sub-record that holds no data.
pub const NO_DATA: u8 = 0xFF;

/// Hemisphere letter `N`.
pub const NORTH: u8 = 0x4E;

/// Hemisphere letter `W`.
pub const WEST: u8 = 0x57;

/// Encoded size of an inertial record.
pub const IMU_LEN: usize = 17;

/// Encoded size of a GPS record.
pub const GPS_LEN: usize = 35;

/// Encoded size of a magnetometer record.
pub const MAG_LEN: usize = 17;

/// Encoded size of an analog record.
pub const ANALOG_LEN: usize = 5;

/// Encoded size of a whole telemetry frame.
pub const SENSORS_LEN: usize = 74;

/// Inertial unit: status, three accelerations and a temperature.
#[derive(Clone, Copy, Debug, PartialEq, Eq, Structural)]
pub struct IMUData {
    pub status: u8,
    pub ax: u32,
    pub ay: u32,
    pub az: u32,
    pub temp: u32,
}

/// GPS fix: position in degrees and minutes with hemisphere letters, magnetic
/// declination, true and magnetic heading, ground speed.
#[derive(Clone, Copy, Debug, PartialEq, Eq, Structural)]
pub struct GPSData {
    pub status: u8,
    pub lat_deg: u32,
    pub lat_min: u32,
    pub dir_lat: u8,
    pub long_deg: u32,
    pub long_min: u32,
    pub dir_long: u8,
    pub decli_mag: u32,
    pub cap_vrai: u32,
    pub cap_mag: u32,
    pub vitesse_sol: u32,
}

/// Three-axis magnetometer: raw readings and the heading computed from them.
#[derive(Clone, Copy, Debug, PartialEq, Eq, Structural)]
pub struct MAGData {
    pub status: u8,
    pub raw_x: u32,
    pub raw_y: u32,
    pub raw_z: u32,
    pub heading: u32,
}

/// Analog inputs: the battery voltage.
#[derive(Clone, Copy, Debug, PartialEq, Eq, Structural)]
pub struct AnalogData {
    pub status: u8,
    pub battery: u32,
}

/// One telemetry frame.
#[derive(Clone, Copy, Debug, PartialEq, Eq, Structural)]
pub struct SensorsData {
    pub imu: IMUData,
    pub gps: GPSData,
    pub mag: MAGData,
    pub analog: AnalogData,
}

pub open spec fn f32_bytes(x: u32) -> Seq<u8> {
    spec_u32_to_le_bytes(x)
}

pub open spec fn f32_at(s: Seq<u8>, at: int) -> u32 {
    spec_u32_from_le_bytes(s.subrange(at, at + 4))
}

pub open spec fn imu_bytes(d: IMUData) -> Seq<u8> {
    seq![d.status] + f32_bytes(d.ax) + f32_bytes(d.ay) + f32_bytes(d.az) + f32_bytes(d.temp)
}

pub open spec fn imu_from(s: Seq<u8>) -> IMUData {
    IMUData {
        status: s[0],
        ax: f32_at(s, 1),
        ay: f32_at(s, 5),
        az: f32_at(s, 9),
        temp: f32_at(s, 13),
    }
}

pub open spec fn gps_bytes(d: GPSData) -> Seq<u8> {
    seq![d.status] + f32_bytes(d.lat_deg) + f32_bytes(d.lat_min) + seq![d.dir_lat] + f32_bytes(
        d.long_deg,
    ) + f32_bytes(d.long_min) + seq![d.dir_long] + f32_bytes(d.decli_mag) + f32_bytes(d.cap_vrai)
        + f32_bytes(d.cap_mag) + f32_bytes(d.vitesse_sol)
}

pub open spec fn gps_from(s: Seq<u8>) -> GPSData {
    GPSData {
        status: s[0],
        lat_deg: f32_at(s, 1),
        lat_min: f32_at(s, 5),
        dir_lat: s[9],
        long_deg: f32_at(s, 10),
        long_min: f32_at(s, 14),
        dir_long: s[18],
        decli_mag: f32_at(s, 19),
        cap_vrai: f32_at(s, 23),
        cap_mag: f32_at(s, 27),
        vitesse_sol: f32_at(s, 31),
    }
}

pub open spec fn mag_bytes(d: MAGData) -> Seq<u8> {
    seq![d.status] + f32_bytes(d.raw_x) + f32_bytes(d.raw_y) + f32_bytes(d.raw_z) + f32_bytes(
        d.heading,
    )
}

pub open spec fn mag_from(s: Seq<u8>) -> MAGData {
    MAGData {
        status: s[0],
        raw_x: f32_at(s, 1),
        raw_y: f32_at(s, 5),
        raw_z: f32_at(s, 9),
        heading: f32_at(s, 13),
    }
}

pub open spec fn analog_bytes(d: AnalogData) -> Seq<u8> {
    seq![d.status] + f32_bytes(d.battery)
}

pub open spec fn analog_from(s: Seq<u8>) -> AnalogData {
    AnalogData { status: s[0], battery: f32_at(s, 1) }
}

/// The wire image of a telemetry frame: the four sub-records in order.
pub open spec fn sensors_bytes(d: SensorsData) -> Seq<u8> {
    imu_bytes(d.imu) + gps_bytes(d.gps) + mag_bytes(d.mag) + analog_bytes(d.analog)
}

/// The telemetry frame that the first `SENSORS_LEN` bytes of `s` hold.
pub open spec fn sensors_from(s: Seq<u8>) -> SensorsData {
    SensorsData {
        imu: imu_from(s.subrange(0, 17)),
        gps: gps_from(s.subrange(17, 52)),
        mag: mag_from(s.subrange(52, 69)),
        analog: analog_from(s.subrange(69, 74)),
    }
}

/// What decoding `s` gives: a frame when `s` is long enough, else how many
/// bytes are missing.
pub open spec fn sensors_decoded(s: Seq<u8>) -> Result<SensorsData, DecodeError> {
    if s.len() < SENSORS_LEN {
        Err(DecodeError::UnexpectedEnd { additional: (SENSORS_LEN - s.len()) as usize })
    } else {
        Ok(sensors_from(s))
    }
}

proof fn lemma_imu_round_trip(d: IMUData)
    ensures
        imu_bytes(d).len() == IMU_LEN,
        imu_from(imu_bytes(d)) == d,
{
    lemma_auto_spec_u32_to_from_le_bytes();
    let s = imu_bytes(d);
    assert(s.subrange(1, 5) =~= f32_bytes(d.ax));
    assert(s.subrange(5, 9) =~= f32_bytes(d.ay));
    assert(s.subrange(9, 13) =~= f32_bytes(d.az));
    assert(s.subrange(13, 17) =~= f32_bytes(d.temp));
}

proof fn lemma_gps_round_trip(d: GPSData)
    ensures
        gps_bytes(d).len() == GPS_LEN,
        gps_from(gps_bytes(d)) == d,
{
    lemma_auto_spec_u32_to_from_le_bytes();
    let s = gps_bytes(d);
    assert(s.subrange(1, 5) =~= f32_bytes(d.lat_deg));
    assert(s.subrange(5, 9) =~= f32_bytes(d.lat_min));
    assert(s.subrange(10, 14) =~= f32_bytes(d.long_deg));
    assert(s.subrange(14, 18) =~= f32_bytes(d.long_min));
    assert(s.subrange(19, 23) =~= f32_bytes(d.decli_mag));
    assert(s.subrange(23, 27) =~= f32_bytes(d.cap_vrai));
    assert(s.subrange(27, 31) =~= f32_bytes(d.cap_mag));
    assert(s.subrange(31, 35) =~= f32_bytes(d.vitesse_sol));
}

proof fn lemma_mag_round_trip(d: MAGData)
    ensures
        mag_bytes(d).len() == MAG_LEN,
        mag_from(mag_bytes(d)) == d,
{
    lemma_auto_spec_u32_to_from_le_bytes();
    let s = mag_bytes(d);
    assert(s.subrange(1, 5) =~= f32_bytes(d.raw_x));
    assert(s.subrange(5, 9) =~= f32_bytes(d.raw_y));
    assert(s.subrange(9, 13) =~= f32_bytes(d.raw_z));
    assert(s.subrange(13, 17) =~= f32_bytes(d.heading));
}

proof fn lemma_analog_round_trip(d: AnalogData)
    ensures
        analog_bytes(d).len() == ANALOG_LEN,
        analog_from(analog_bytes(d)) == d,
{
    lemma_auto_spec_u32_to_from_le_bytes();
    let s = analog_bytes(d);
    assert(s.subrange(1, 5) =~= f32_bytes(d.battery));
}

/// Every telemetry frame has an image of exactly `SENSORS_LEN` bytes, and
/// decoding that image gives the frame back, field for field.
pub proof fn lemma_sensors_round_trip(d: SensorsData)
    ensures
        sensors_bytes(d).len() == SENSORS_LEN,
        sensors_decoded(sensors_bytes(d)) == Ok::<SensorsData, DecodeError>(d),
{
    lemma_imu_round_trip(d.imu);
    lemma_gps_round_trip(d.gps);
    lemma_mag_round_trip(d.mag);
    lemma_analog_round_trip(d.analog);
    let s = sensors_bytes(d);
    assert(s.subrange(0, 17) =~= imu_bytes(d.imu));
    assert(s.subrange(17, 52) =~= gps_bytes(d.gps));
    assert(s.subrange(52, 69) =~= mag_bytes(d.mag));
    assert(s.subrange(69, 74) =~= analog_bytes(d.analog));
}

fn encode_imu(out: &mut Vec<u8>, d: &IMUData)
    ensures
        final(out)@ == old(out)@ + imu_bytes(*d),
{
    out.push(d.status);
    push_u32_le(out, d.ax);
    push_u32_le(out, d.ay);
    push_u32_le(out, d.az);
    push_u32_le(out, d.temp);
    assert(out@ =~= old(out)@ + imu_bytes(*d));
}

fn encode_gps(out: &mut Vec<u8>, d: &GPSData)
    ensures
        final(out)@ == old(out)@ + gps_bytes(*d),
{
    out.push(d.status);
    push_u32_le(out, d.lat_deg);
    push_u32_le(out, d.lat_min);
    out.push(d.dir_lat);
    push_u32_le(out, d.long_deg);
    push_u32_le(out, d.long_min);
    out.push(d.dir_long);
    push_u32_le(out, d.decli_mag);
    push_u32_le(out, d.cap_vrai);
    push_u32_le(out, d.cap_mag);
    push_u32_le(out, d.vitesse_sol);
    assert(out@ =~= old(out)@ + gps_bytes(*d));
}

fn encode_mag(out: &mut Vec<u8>, d: &MAGData)
    ensures
        final(out)@ == old(out)@ + mag_bytes(*d),
{
    out.push(d.status);
    push_u32_le(out, d.raw_x);
    push_u32_le(out, d.raw_y);
    push_u32_le(out, d.raw_z);
    push_u32_le(out, d.heading);
    assert(out@ =~= old(out)@ + mag_bytes(*d));
}

fn encode_analog(out: &mut Vec<u8>, d: &AnalogData)
    ensures
        final(out)@ == old(out)@ + analog_bytes(*d),
{
    out.push(d.status);
    push_u32_le(out, d.battery);
    assert(out@ =~= old(out)@ + analog_bytes(*d));
}

/// The wire image of a telemetry frame.
pub fn encode_sensors(d: &SensorsData) -> (r: Vec<u8>)
    ensures
        r@ == sensors_bytes(*d),
        r@.len() == SENSORS_LEN,
{
    proof {
        lemma_sensors_round_trip(*d);
    }
    let mut out: Vec<u8> = Vec::new();
    encode_imu(&mut out, &d.imu);
    encode_gps(&mut out, &d.gps);
    encode_mag(&mut out, &d.mag);
    encode_analog(&mut out, &d.analog);
    assert(out@ =~= sensors_bytes(*d));
    out
}

fn decode_imu(b: &[u8], at: usize) -> (r: IMUData)
    requires
        at + IMU_LEN <= b@.len(),
    ensures
        r == imu_from(b@.subrange(at as int, at + IMU_LEN)),
{
    let r = IMUData {
        status: b[at],
        ax: read_u32_le(b, at + 1),
        ay: read_u32_le(b, at + 5),
        az: read_u32_le(b, at + 9),
        temp: read_u32_le(b, at + 13),
    };
    let ghost s = b@.subrange(at as int, at + IMU_LEN);
    assert(s.subrange(1, 5) =~= b@.subrange(at + 1, at + 5));
    assert(s.subrange(5, 9) =~= b@.subrange(at + 5, at + 9));
    assert(s.subrange(9, 13) =~= b@.subrange(at + 9, at + 13));
    assert(s.subrange(13, 17) =~= b@.subrange(at + 13, at + 17));
    r
}

fn decode_gps(b: &[u8], at: usize) -> (r: GPSData)
    requires
        at + GPS_LEN <= b@.len(),
    ensures
        r == gps_from(b@.subrange(at as int, at + GPS_LEN)),
{
    let r = GPSData {
        status: b[at],
        lat_deg: read_u32_le(b, at + 1),
        lat_min: read_u32_le(b, at + 5),
        dir_lat: b[at + 9],
        long_deg: read_u32_le(b, at + 10),
        long_min: read_u32_le(b, at + 14),
        dir_long: b[at + 18],
        decli_mag: read_u32_le(b, at + 19),
        cap_vrai: read_u32_le(b, at + 23),
        cap_mag: read_u32_le(b, at + 27),
        vitesse_sol: read_u32_le(b, at + 31),
    };
    let ghost s = b@.subrange(at as int, at + GPS_LEN);
    assert(s.subrange(1, 5) =~= b@.subrange(at + 1, at + 5));
    assert(s.subrange(5, 9) =~= b@.subrange(at + 5, at + 9));
    assert(s.subrange(10, 14) =~= b@.subrange(at + 10, at + 14));
    assert(s.subrange(14, 18) =~= b@.subrange(at + 14, at + 18));
    assert(s.subrange(19, 23) =~= b@.subrange(at + 19, at + 23));
    assert(s.subrange(23, 27) =~= b@.subrange(at + 23, at + 27));
    assert(s.subrange(27, 31) =~= b@.subrange(at + 27, at + 31));
    assert(s.subrange(31, 35) =~= b@.subrange(at + 31, at + 35));
    r
}

fn decode_mag(b: &[u8], at: usize) -> (r: MAGData)
    requires
        at + MAG_LEN <= b@.len(),
    ensures
        r == mag_from(b@.subrange(at as int, at + MAG_LEN)),
{
    let r = MAGData {
        status: b[at],
        raw_x: read_u32_le(b, at + 1),
        raw_y: read_u32_le(b, at + 5),
        raw_z: read_u32_le(b, at + 9),
        heading: read_u32_le(b, at + 13),
    };
    let ghost s = b@.subrange(at as int, at + MAG_LEN);
    assert(s.subrange(1, 5) =~= b@.subrange(at + 1, at + 5));
    assert(s.subrange(5, 9) =~= b@.subrange(at + 5, at + 9));
    assert(s.subrange(9, 13) =~= b@.subrange(at + 9, at + 13));
    assert(s.subrange(13, 17) =~= b@.subrange(at + 13, at + 17));
    r
}

fn decode_analog(b: &[u8], at: usize) -> (r: AnalogData)
    requires
        at + ANALOG_LEN <= b@.len(),
    ensures
        r == analog_from(b@.subrange(at as int, at + ANALOG_LEN)),
{
    let r = AnalogData { status: b[at], battery: read_u32_le(b, at + 1) };
    let ghost s = b@.subrange(at as int, at + ANALOG_LEN);
    assert(s.subrange(1, 5) =~= b@.subrange(at + 1, at + 5));
    r
}

/// Decodes a telemetry frame from the first `SENSORS_LEN` bytes of `b`;
/// fails, without reading further, when `b` is shorter.
pub fn decode_sensors(b: &[u8]) -> (r: Result<SensorsData, DecodeError>)
    ensures
        r == sensors_decoded(b@),
{
    let len = b.len();
    if len < SENSORS_LEN {
        return Err(DecodeError::UnexpectedEnd { additional: SENSORS_LEN - len });
    }
    let imu = decode_imu(b, 0);
    let gps = decode_gps(b, IMU_LEN);
    let mag = decode_mag(b, IMU_LEN + GPS_LEN);
    let analog = decode_analog(b, IMU_LEN + GPS_LEN + MAG_LEN);
    Ok(SensorsData { imu, gps, mag, analog })
}

/// Inertial record that holds no data.
pub open spec fn empty_imu() -> IMUData {
    IMUData { status: NO_DATA, ax: 0, ay: 0, az: 0, temp: 0 }
}

/// GPS record that holds no data; its hemispheres read north and west.
pub open spec fn empty_gps() -> GPSData {
    GPSData {
        status: NO_DATA,
        lat_deg: 0,
        lat_min: 0,
        dir_lat: NORTH,
        long_deg: 0,
        long_min: 0,
        dir_long: WEST,
        decli_mag: 0,
        cap_vrai: 0,
        cap_mag: 0,
        vitesse_sol: 0,
    }
}

/// Magnetometer record that holds no data.
pub open spec fn empty_mag() -> MAGData {
    MAGData { status: NO_DATA, raw_x: 0, raw_y: 0, raw_z: 0, heading: 0 }
}

/// Analog record that holds no data.
pub open spec fn empty_analog() -> AnalogData {
    AnalogData { status: NO_DATA, battery: 0 }
}

/// The frame that stands for "no vehicle connected".
pub open spec fn empty_sensors() -> SensorsData {
    SensorsData {
        imu: empty_imu(),
        gps: empty_gps(),
        mag: empty_mag(),
        analog: empty_analog(),
    }
}

/// Maker of the empty telemetry frame.
pub struct Sensors {}

impl Sensors {
    pub fn empty() -> (r: SensorsData)
        ensures
            r == empty_sensors(),
    {
        SensorsData { imu: IMU::empty(), gps: GPS::empty(), mag: MAG::empty(), analog: Analog::empty() }
    }
}

/// Maker of the empty magnetometer record.
pub struct MAG {}

impl MAG {
    pub fn empty() -> (r: MAGData)
        ensures
            r == empty_mag(),
    {
        MAGData { status: NO_DATA, raw_x: 0, raw_y: 0, raw_z: 0, heading: 0 }
    }
}

/// Maker of the empty inertial record.
pub struct IMU {}

impl IMU {
    pub fn empty() -> (r: IMUData)
        ensures
            r == empty_imu(),
    {
        IMUData { status: NO_DATA, ax: 0, ay: 0, az: 0, temp: 0 }
    }
}

/// Maker of the empty GPS record.
pub struct GPS {}

impl GPS {
    pub fn empty() -> (r: GPSData)
        ensures
            r == empty_gps(),
    {
        GPSData {
            status: NO_DATA,
            lat_deg: 0,
            lat_min: 0,
            dir_lat: NORTH,
            long_deg: 0,
            long_min: 0,
            dir_long: WEST,
            decli_mag: 0,
            cap_vrai: 0,
            cap_mag: 0,
            vitesse_sol: 0,
        }
    }
}

/// Maker of the empty analog record.
pub struct Analog {}

impl Analog {
    pub fn empty() -> (r: AnalogData)
        ensures
            r == empty_analog(),
    {
        AnalogData { status: NO_DATA, battery: 0 }
    }
}

} // verus!

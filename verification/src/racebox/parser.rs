//! The beacon's data packet: a fixed four-byte preamble and a record of
//! little-endian fields at fixed offsets.

use crate::bytes::{i16_from_le, i32_from_le, le_u16, le_u32, signed16, signed32, u16_from_le,
    u32_from_le};
use vstd::prelude::*;

verus! {

/// The shortest payload that holds a whole record.
pub const PACKET_LEN: usize = 80;

/// The four bytes every data packet starts with: two sync bytes, the
/// message class and the message id.
pub const PREAMBLE_0: u8 = 0xB5;

pub const PREAMBLE_1: u8 = 0x62;

pub const PREAMBLE_2: u8 = 0xFF;

pub const PREAMBLE_3: u8 = 0x01;

/// Bit of the validity byte that marks the date as valid.
pub const VALID_DATE_MASK: u8 = 0x01;

/// Bit of the validity byte that marks the time as valid.
pub const VALID_TIME_MASK: u8 = 0x02;

/// Bit of the fix-flags byte that marks the fix as usable.
pub const FIX_OK_MASK: u8 = 0x01;

/// Latitude and longitude are sent in units of 1/`DEGREES_E7` degree.
pub const DEGREES_E7: i32 = 10_000_000;

/// Heading and heading accuracy are sent in units of 1/`DEGREES_E5` degree.
pub const DEGREES_E5: i32 = 100_000;

/// Millimetres in a metre, for altitudes, and millimetres per second in a
/// metre per second, for the speed accuracy.
pub const MILLI: i32 = 1000;

/// The dilution of precision and the rotation rates are sent in hundredths.
pub const CENTI: i32 = 100;

/// A speed of 1 mm/s is `KPH_E4_PER_MMPS` ten-thousandths of a km/h.
pub const KPH_E4_PER_MMPS: i64 = 36;

/// One position and motion sample, in the units of the packet.
#[derive(Debug, Clone, Copy, PartialEq, Eq, Structural)]
pub struct RaceBoxData {
    /// Device time of week, in milliseconds.
    pub timestamp_ms: u32,
    pub year: u16,
    pub month: u8,
    pub day: u8,
    pub hour: u8,
    pub minute: u8,
    pub second: u8,
    pub valid_time: bool,
    pub valid_date: bool,
    pub fix_status: u8,
    pub fix_ok: bool,
    /// Satellites used in the fix.
    pub num_sv: u8,
    /// Latitude, in 1e-7 degree.
    pub latitude_e7: i32,
    /// Longitude, in 1e-7 degree.
    pub longitude_e7: i32,
    /// Height above the WGS ellipsoid, in millimetres.
    pub wgs_alt_mm: i32,
    /// Height above mean sea level, in millimetres.
    pub msl_alt_mm: i32,
    /// Horizontal accuracy, in millimetres.
    pub horiz_acc_mm: u32,
    /// Vertical accuracy, in millimetres.
    pub vert_acc_mm: u32,
    /// Ground speed, in millimetres per second.
    pub speed_mmps: i32,
    /// Heading of motion, in 1e-5 degree.
    pub heading_e5: i32,
    /// Speed accuracy, in millimetres per second.
    pub speed_acc_mmps: u32,
    /// Heading accuracy, in 1e-5 degree.
    pub heading_acc_e5: u32,
    /// Position dilution of precision, in hundredths.
    pub pdop_centi: u16,
    /// Acceleration along each axis, in thousandths of g.
    pub g_force_x_milli: i16,
    pub g_force_y_milli: i16,
    pub g_force_z_milli: i16,
    /// Rotation rate about each axis, in hundredths of a degree per second.
    pub rot_rate_x_centi: i16,
    pub rot_rate_y_centi: i16,
    pub rot_rate_z_centi: i16,
}

impl RaceBoxData {
    /// Ground speed in units of 1e-4 km/h: the speed in mm/s times 3.6,
    /// over 1000, is the speed in km/h.
    pub fn speed_kph_e4(&self) -> (speed: i64)
        ensures
            speed == self.speed_mmps * KPH_E4_PER_MMPS,
    {
        (self.speed_mmps as i64) * KPH_E4_PER_MMPS
    }
}

/// The unsigned 16-bit field at `at`.
pub open spec fn field_u16(data: Seq<u8>, at: int) -> u16 {
    le_u16(data[at], data[at + 1]) as u16
}

/// The signed 16-bit field at `at`.
pub open spec fn field_i16(data: Seq<u8>, at: int) -> i16 {
    signed16(le_u16(data[at], data[at + 1])) as i16
}

/// The unsigned 32-bit field at `at`.
pub open spec fn field_u32(data: Seq<u8>, at: int) -> u32 {
    le_u32(data[at], data[at + 1], data[at + 2], data[at + 3]) as u32
}

/// The signed 32-bit field at `at`.
pub open spec fn field_i32(data: Seq<u8>, at: int) -> i32 {
    signed32(le_u32(data[at], data[at + 1], data[at + 2], data[at + 3])) as i32
}

/// Whether a payload is taken as a data packet: long enough, and with the
/// preamble in front.
pub open spec fn is_data_packet(data: Seq<u8>) -> bool {
    &&& data.len() >= PACKET_LEN
    &&& data[0] == PREAMBLE_0
    &&& data[1] == PREAMBLE_1
    &&& data[2] == PREAMBLE_2
    &&& data[3] == PREAMBLE_3
}

/// The record that the first `PACKET_LEN` bytes of a payload hold.
pub open spec fn packet_fields(data: Seq<u8>) -> RaceBoxData {
    RaceBoxData {
        timestamp_ms: field_u32(data, 6),
        year: field_u16(data, 10),
        month: data[12],
        day: data[13],
        hour: data[14],
        minute: data[15],
        second: data[16],
        valid_date: data[17] & VALID_DATE_MASK != 0,
        valid_time: data[17] & VALID_TIME_MASK != 0,
        fix_status: data[20],
        fix_ok: data[21] & FIX_OK_MASK != 0,
        num_sv: data[23],
        longitude_e7: field_i32(data, 24),
        latitude_e7: field_i32(data, 28),
        wgs_alt_mm: field_i32(data, 32),
        msl_alt_mm: field_i32(data, 36),
        horiz_acc_mm: field_u32(data, 40),
        vert_acc_mm: field_u32(data, 44),
        speed_mmps: field_i32(data, 48),
        heading_e5: field_i32(data, 52),
        speed_acc_mmps: field_u32(data, 56),
        heading_acc_e5: field_u32(data, 60),
        pdop_centi: field_u16(data, 64),
        g_force_x_milli: field_i16(data, 68),
        g_force_y_milli: field_i16(data, 70),
        g_force_z_milli: field_i16(data, 72),
        rot_rate_x_centi: field_i16(data, 74),
        rot_rate_y_centi: field_i16(data, 76),
        rot_rate_z_centi: field_i16(data, 78),
    }
}

/// What a payload decodes to: nothing unless it is a data packet, else its
/// record. No checksum is looked at.
pub open spec fn decode_packet(data: Seq<u8>) -> Option<RaceBoxData> {
    if is_data_packet(data) {
        Some(packet_fields(data))
    } else {
        None
    }
}

fn read_u16(data: &[u8], at: usize) -> (v: u16)
    requires
        at + 2 <= data@.len(),
    ensures
        v == field_u16(data@, at as int),
{
    u16_from_le(data[at], data[at + 1])
}

fn read_i16(data: &[u8], at: usize) -> (v: i16)
    requires
        at + 2 <= data@.len(),
    ensures
        v == field_i16(data@, at as int),
{
    i16_from_le(data[at], data[at + 1])
}

fn read_u32(data: &[u8], at: usize) -> (v: u32)
    requires
        at + 4 <= data@.len(),
    ensures
        v == field_u32(data@, at as int),
{
    u32_from_le(data[at], data[at + 1], data[at + 2], data[at + 3])
}

fn read_i32(data: &[u8], at: usize) -> (v: i32)
    requires
        at + 4 <= data@.len(),
    ensures
        v == field_i32(data@, at as int),
{
    i32_from_le(data[at], data[at + 1], data[at + 2], data[at + 3])
}

/// Decodes one notification payload.
pub fn parse_packet(data: &[u8]) -> (sample: Option<RaceBoxData>)
    ensures
        sample == decode_packet(data@),
{
    if data.len() < PACKET_LEN || data[0] != PREAMBLE_0 || data[1] != PREAMBLE_1 || data[2]
        != PREAMBLE_2 || data[3] != PREAMBLE_3 {
        return None;
    }
    let valid_flags = data[17];
    let fix_flags = data[21];
    Some(
        RaceBoxData {
            timestamp_ms: read_u32(data, 6),
            year: read_u16(data, 10),
            month: data[12],
            day: data[13],
            hour: data[14],
            minute: data[15],
            second: data[16],
            valid_date: valid_flags & VALID_DATE_MASK != 0,
            valid_time: valid_flags & VALID_TIME_MASK != 0,
            fix_status: data[20],
            fix_ok: fix_flags & FIX_OK_MASK != 0,
            num_sv: data[23],
            longitude_e7: read_i32(data, 24),
            latitude_e7: read_i32(data, 28),
            wgs_alt_mm: read_i32(data, 32),
            msl_alt_mm: read_i32(data, 36),
            horiz_acc_mm: read_u32(data, 40),
            vert_acc_mm: read_u32(data, 44),
            speed_mmps: read_i32(data, 48),
            heading_e5: read_i32(data, 52),
            speed_acc_mmps: read_u32(data, 56),
            heading_acc_e5: read_u32(data, 60),
            pdop_centi: read_u16(data, 64),
            g_force_x_milli: read_i16(data, 68),
            g_force_y_milli: read_i16(data, 70),
            g_force_z_milli: read_i16(data, 72),
            rot_rate_x_centi: read_i16(data, 74),
            rot_rate_y_centi: read_i16(data, 76),
            rot_rate_z_centi: read_i16(data, 78),
        },
    )
}

} // verus!

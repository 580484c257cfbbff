//! One serial frame: its layout, its checks and the fields it carries.
//!
//! A frame is `[START][LENGTH][VERSION][TLV ...][CRC16][END]`. LENGTH counts
//! the VERSION byte and the TLV bytes; the checksum covers the same bytes
//! and is sent high byte first.

use crate::bytes::{be_u16, i16_from_be, signed16, u16_from_be};
use crate::esp32::crc::{crc16, lemma_crc16_detects_one_byte};
use crate::telemetry::{ESP32Data, StatusFlags};
use vstd::array::spec_array_update;
use vstd::prelude::*;

verus! {

/// The byte that opens a frame.
pub const FRAME_START: u8 = 0xAA;

/// The byte that closes a frame.
pub const FRAME_END: u8 = 0x55;

/// The shortest buffer that is looked at as a frame.
pub const MIN_FRAME_LEN: usize = 8;

/// The bytes of a frame that LENGTH does not count: START, LENGTH, the two
/// checksum bytes and END.
pub const FRAME_OVERHEAD: usize = 5;

/// Where the first TLV triple starts.
pub const TLV_START: usize = 3;

pub const TAG_FUEL_LEVEL: u8 = 0x01;

pub const TAG_OIL_PRESSURE: u8 = 0x02;

pub const TAG_BOOST_PRESSURE: u8 = 0x03;

pub const TAG_RPM: u8 = 0x04;

pub const TAG_SPEED: u8 = 0x05;

pub const TAG_STATUS_FLAGS: u8 = 0x06;

pub const TAG_STEERING_ANGLE: u8 = 0x07;

pub const TAG_BRAKE_PRESSURE: u8 = 0x08;

pub const TAG_THROTTLE_POSITION: u8 = 0x09;

pub const TAG_GEAR_POSITION: u8 = 0x0A;

/// The tag of the first tyre pressure; the other three follow it.
pub const TAG_TYRE_PRESSURE_BASE: u8 = 0x0B;

/// The tag of the first tyre temperature; the other three follow it.
pub const TAG_TYRE_TEMP_BASE: u8 = 0x0F;

/// The highest tag that stands for a field.
pub const TAG_LAST: u8 = 0x12;

/// Why a buffer was not accepted as a frame.
#[derive(Debug, Clone, Copy, PartialEq, Eq, Structural)]
pub enum FrameError {
    /// Fewer than `MIN_FRAME_LEN` bytes.
    TooShort,
    /// The buffer does not end where LENGTH says the frame ends.
    LengthMismatch,
    /// The checksum sent differs from the one computed.
    CrcMismatch,
    /// The last byte is not `FRAME_END`.
    MissingEnd,
}

/// Whether `tag` stands for a field of the sample.
pub open spec fn is_known_tag(tag: u8) -> bool {
    TAG_FUEL_LEVEL <= tag <= TAG_LAST
}

/// The sample after one triple with tag `tag` whose value starts with the
/// bytes `v0`, `v1`. Two-byte fields are read high byte first, one-byte
/// fields from `v0` alone; a tag that stands for no field changes nothing.
pub open spec fn apply_tlv(d: ESP32Data, tag: u8, v0: u8, v1: u8) -> ESP32Data {
    let word = be_u16(v0, v1) as u16;
    let signed = signed16(be_u16(v0, v1)) as i16;
    if tag == TAG_FUEL_LEVEL {
        ESP32Data { fuel_level: Some(word), ..d }
    } else if tag == TAG_OIL_PRESSURE {
        ESP32Data { oil_pressure: Some(word), ..d }
    } else if tag == TAG_BOOST_PRESSURE {
        ESP32Data { boost_pressure: Some(word), ..d }
    } else if tag == TAG_RPM {
        ESP32Data { rpm: Some(word), ..d }
    } else if tag == TAG_SPEED {
        ESP32Data { speed: Some(word), ..d }
    } else if tag == TAG_STATUS_FLAGS {
        ESP32Data { status_flags: Some(StatusFlags::of_byte(v0)), ..d }
    } else if tag == TAG_STEERING_ANGLE {
        ESP32Data { steering_angle: Some(signed), ..d }
    } else if tag == TAG_BRAKE_PRESSURE {
        ESP32Data { brake_pressure: Some(word), ..d }
    } else if tag == TAG_THROTTLE_POSITION {
        ESP32Data { throttle_position: Some(v0), ..d }
    } else if tag == TAG_GEAR_POSITION {
        ESP32Data { gear_position: Some(v0), ..d }
    } else if TAG_TYRE_PRESSURE_BASE <= tag < TAG_TYRE_TEMP_BASE {
        ESP32Data {
            tyre_pressures: spec_array_update(
                d.tyre_pressures,
                tag - TAG_TYRE_PRESSURE_BASE,
                Some(word),
            ),
            ..d
        }
    } else if TAG_TYRE_TEMP_BASE <= tag <= TAG_LAST {
        ESP32Data {
            tyre_temps: spec_array_update(d.tyre_temps, tag - TAG_TYRE_TEMP_BASE, Some(signed)),
            ..d
        }
    } else {
        d
    }
}

/// The sample after the triples of `frame[pos..end]` have been applied to
/// `d` in order. A triple is a tag, a length and a value; the walk reads a
/// field's fixed width at the start of the value and then steps over the
/// declared length, whatever the tag. In a frame three bytes follow the
/// region, so every triple that starts inside it can be read.
pub open spec fn walk_tlvs(frame: Seq<u8>, pos: int, end: int, d: ESP32Data) -> ESP32Data
    decreases end + 0x100 - pos,
{
    if pos < 0 || pos >= end || end + 3 > frame.len() {
        d
    } else {
        walk_tlvs(
            frame,
            pos + 2 + frame[pos + 1],
            end,
            apply_tlv(d, frame[pos], frame[pos + 2], frame[pos + 3]),
        )
    }
}

/// Where the checksum of a frame of `len` bytes starts, which is also where
/// its TLV region ends.
pub open spec fn crc_offset(len: int) -> int {
    len - 3
}

/// The bytes of `frame` that the checksum covers: VERSION and the TLVs.
pub open spec fn crc_region(frame: Seq<u8>) -> Seq<u8> {
    frame.subrange(2, crc_offset(frame.len() as int))
}

/// What a buffer decodes to. The checks are made in this order: the
/// shortest length, LENGTH against the buffer, the checksum, the closing
/// byte. A buffer that passes them gives the sample of its TLV region,
/// every field without a triple left unset.
pub open spec fn decode_frame(frame: Seq<u8>) -> Result<ESP32Data, FrameError> {
    let len = frame.len() as int;
    if len < MIN_FRAME_LEN {
        Err(FrameError::TooShort)
    } else if len != frame[1] + FRAME_OVERHEAD {
        Err(FrameError::LengthMismatch)
    } else if crc16(crc_region(frame)) != be_u16(frame[len - 3], frame[len - 2]) {
        Err(FrameError::CrcMismatch)
    } else if frame[len - 1] != FRAME_END {
        Err(FrameError::MissingEnd)
    } else {
        Ok(walk_tlvs(frame, TLV_START as int, crc_offset(len), ESP32Data::unset()))
    }
}

impl FrameError {
    /// The text of the error, as a spec value.
    pub open spec fn text(self) -> Seq<char> {
        match self {
            FrameError::TooShort => "Frame too short"@,
            FrameError::LengthMismatch => "Frame length mismatch"@,
            FrameError::CrcMismatch => "CRC mismatch"@,
            FrameError::MissingEnd => "Missing EOF byte"@,
        }
    }

    /// A short description of the error.
    pub fn message(&self) -> (text: &'static str)
        ensures
            text@ == self.text(),
    {
        match self {
            FrameError::TooShort => "Frame too short",
            FrameError::LengthMismatch => "Frame length mismatch",
            FrameError::CrcMismatch => "CRC mismatch",
            FrameError::MissingEnd => "Missing EOF byte",
        }
    }
}

/// Applies one triple to the sample.
pub fn store_tlv(data: &mut ESP32Data, tag: u8, v0: u8, v1: u8)
    ensures
        *final(data) == apply_tlv(*old(data), tag, v0, v1),
{
    if tag == TAG_FUEL_LEVEL {
        data.fuel_level = Some(u16_from_be(v0, v1));
    } else if tag == TAG_OIL_PRESSURE {
        data.oil_pressure = Some(u16_from_be(v0, v1));
    } else if tag == TAG_BOOST_PRESSURE {
        data.boost_pressure = Some(u16_from_be(v0, v1));
    } else if tag == TAG_RPM {
        data.rpm = Some(u16_from_be(v0, v1));
    } else if tag == TAG_SPEED {
        data.speed = Some(u16_from_be(v0, v1));
    } else if tag == TAG_STATUS_FLAGS {
        data.status_flags = Some(StatusFlags::from_byte(v0));
    } else if tag == TAG_STEERING_ANGLE {
        data.steering_angle = Some(i16_from_be(v0, v1));
    } else if tag == TAG_BRAKE_PRESSURE {
        data.brake_pressure = Some(u16_from_be(v0, v1));
    } else if tag == TAG_THROTTLE_POSITION {
        data.throttle_position = Some(v0);
    } else if tag == TAG_GEAR_POSITION {
        data.gear_position = Some(v0);
    } else if TAG_TYRE_PRESSURE_BASE <= tag && tag < TAG_TYRE_TEMP_BASE {
        let wheel: usize = (tag - TAG_TYRE_PRESSURE_BASE) as usize;
        data.tyre_pressures[wheel] = Some(u16_from_be(v0, v1));
    } else if TAG_TYRE_TEMP_BASE <= tag && tag <= TAG_LAST {
        let wheel: usize = (tag - TAG_TYRE_TEMP_BASE) as usize;
        data.tyre_temps[wheel] = Some(i16_from_be(v0, v1));
    }
}

/// The number that the field of `tag` holds in `d`, if the field is set: the
/// value itself, and for the status flags their byte. No field belongs to
/// a tag outside the known range.
pub open spec fn field_value(d: ESP32Data, tag: u8) -> Option<int> {
    if tag == TAG_FUEL_LEVEL {
        number_of_u16(d.fuel_level)
    } else if tag == TAG_OIL_PRESSURE {
        number_of_u16(d.oil_pressure)
    } else if tag == TAG_BOOST_PRESSURE {
        number_of_u16(d.boost_pressure)
    } else if tag == TAG_RPM {
        number_of_u16(d.rpm)
    } else if tag == TAG_SPEED {
        number_of_u16(d.speed)
    } else if tag == TAG_STATUS_FLAGS {
        match d.status_flags {
            Some(flags) => Some(flags.byte_value()),
            None => None,
        }
    } else if tag == TAG_STEERING_ANGLE {
        number_of_i16(d.steering_angle)
    } else if tag == TAG_BRAKE_PRESSURE {
        number_of_u16(d.brake_pressure)
    } else if tag == TAG_THROTTLE_POSITION {
        number_of_u8(d.throttle_position)
    } else if tag == TAG_GEAR_POSITION {
        number_of_u8(d.gear_position)
    } else if TAG_TYRE_PRESSURE_BASE <= tag < TAG_TYRE_TEMP_BASE {
        number_of_u16(d.tyre_pressures[tag - TAG_TYRE_PRESSURE_BASE])
    } else if TAG_TYRE_TEMP_BASE <= tag <= TAG_LAST {
        number_of_i16(d.tyre_temps[tag - TAG_TYRE_TEMP_BASE])
    } else {
        None
    }
}

pub open spec fn number_of_u8(value: Option<u8>) -> Option<int> {
    match value {
        Some(v) => Some(v as int),
        None => None,
    }
}

pub open spec fn number_of_u16(value: Option<u16>) -> Option<int> {
    match value {
        Some(v) => Some(v as int),
        None => None,
    }
}

pub open spec fn number_of_i16(value: Option<i16>) -> Option<int> {
    match value {
        Some(v) => Some(v as int),
        None => None,
    }
}

/// Whether the field of `tag` is a signed number.
pub open spec fn is_signed_tag(tag: u8) -> bool {
    tag == TAG_STEERING_ANGLE || TAG_TYRE_TEMP_BASE <= tag <= TAG_LAST
}

/// Whether the field of `tag` is one byte wide; the others are two.
pub open spec fn is_byte_tag(tag: u8) -> bool {
    tag == TAG_STATUS_FLAGS || tag == TAG_THROTTLE_POSITION || tag == TAG_GEAR_POSITION
}

/// The number that a triple with a known `tag` and a value starting with
/// `v0`, `v1` gives its field.
pub open spec fn tlv_value(tag: u8, v0: u8, v1: u8) -> int {
    if is_byte_tag(tag) {
        v0 as int
    } else if is_signed_tag(tag) {
        signed16(be_u16(v0, v1))
    } else {
        be_u16(v0, v1)
    }
}

/// The first two value bytes of the last triple with tag `tag` that the
/// walk over `frame[pos..end]` meets, if it meets one.
pub open spec fn last_triple(frame: Seq<u8>, pos: int, end: int, tag: u8) -> Option<(u8, u8)>
    decreases end + 0x100 - pos,
{
    if pos < 0 || pos >= end || end + 3 > frame.len() {
        None
    } else {
        match last_triple(frame, pos + 2 + frame[pos + 1], end, tag) {
            Some(value) => Some(value),
            None => if frame[pos] == tag {
                Some((frame[pos + 2], frame[pos + 3]))
            } else {
                None
            },
        }
    }
}

/// One triple sets the field of its tag, if it has one, and no other.
pub proof fn lemma_apply_tlv_sets_one_field(d: ESP32Data, tag: u8, v0: u8, v1: u8, other: u8)
    requires
        is_known_tag(other),
    ensures
        field_value(apply_tlv(d, tag, v0, v1), other) == if tag == other {
            Some(tlv_value(tag, v0, v1))
        } else {
            field_value(d, other)
        },
{
    StatusFlags::lemma_byte_of_flags(v0);
}

/// After a walk each field holds what the last triple with its tag gave it,
/// and a field without a triple holds what it held before.
pub proof fn lemma_walk_sets_fields(frame: Seq<u8>, pos: int, end: int, d: ESP32Data, tag: u8)
    requires
        is_known_tag(tag),
    ensures
        field_value(walk_tlvs(frame, pos, end, d), tag) == match last_triple(
            frame,
            pos,
            end,
            tag,
        ) {
            Some((v0, v1)) => Some(tlv_value(tag, v0, v1)),
            None => field_value(d, tag),
        },
    decreases end + 0x100 - pos,
{
    if !(pos < 0 || pos >= end || end + 3 > frame.len()) {
        let next = apply_tlv(d, frame[pos], frame[pos + 2], frame[pos + 3]);
        lemma_walk_sets_fields(frame, pos + 2 + frame[pos + 1], end, next, tag);
        lemma_apply_tlv_sets_one_field(d, frame[pos], frame[pos + 2], frame[pos + 3], tag);
    }
}

/// A good frame gives a sample with exactly the fields that its triples
/// name: each field holds the value of the last triple with its tag, and a
/// field without a triple is unset.
pub proof fn lemma_frame_fields(frame: Seq<u8>, tag: u8)
    requires
        decode_frame(frame) is Ok,
        is_known_tag(tag),
    ensures
        field_value(decode_frame(frame)->Ok_0, tag) == match last_triple(
            frame,
            TLV_START as int,
            crc_offset(frame.len() as int),
            tag,
        ) {
            Some((v0, v1)) => Some(tlv_value(tag, v0, v1)),
            None => None::<int>,
        },
{
    lemma_walk_sets_fields(
        frame,
        TLV_START as int,
        crc_offset(frame.len() as int),
        ESP32Data::unset(),
        tag,
    );
}

/// A good frame in which one byte of the checksummed region is replaced by
/// another value is rejected for its checksum.
pub proof fn lemma_corrupted_byte_is_rejected(frame: Seq<u8>, at: int, byte: u8)
    requires
        decode_frame(frame) is Ok,
        2 <= at < crc_offset(frame.len() as int),
        byte != frame[at],
    ensures
        decode_frame(frame.update(at, byte)) == Err::<ESP32Data, FrameError>(
            FrameError::CrcMismatch,
        ),
{
    let changed = frame.update(at, byte);
    assert(crc_region(changed) =~= crc_region(frame).update(at - 2, byte));
    lemma_crc16_detects_one_byte(0, crc_region(frame), at - 2, byte);
}

/// A good frame in which any one byte after the start byte is replaced by
/// another value is rejected, and the place of the byte decides the error:
/// the length for the length byte, the end for the last byte, and the
/// checksum for every byte between.
pub proof fn lemma_any_corrupted_byte_is_rejected(frame: Seq<u8>, at: int, byte: u8)
    requires
        decode_frame(frame) is Ok,
        1 <= at < frame.len(),
        byte != frame[at],
    ensures
        decode_frame(frame.update(at, byte)) == Err::<ESP32Data, FrameError>(
            if at == 1 {
                FrameError::LengthMismatch
            } else if at == frame.len() - 1 {
                FrameError::MissingEnd
            } else {
                FrameError::CrcMismatch
            },
        ),
{
    let changed = frame.update(at, byte);
    let end = crc_offset(frame.len() as int);
    if 2 <= at < end {
        lemma_corrupted_byte_is_rejected(frame, at, byte);
    } else {
        assert(crc_region(changed) =~= crc_region(frame));
    }
}

} // verus!

//! Writing a sample as a frame, and the proof that reading the frame gives
//! the sample back.

use crate::bytes::be_u16;
use crate::esp32::crc::{crc16, crc16_ccitt};
use crate::esp32::frame::{apply_tlv, crc_offset, crc_region, decode_frame, field_value,
    is_byte_tag, is_known_tag, number_of_i16, number_of_u16, number_of_u8, walk_tlvs, FrameError, FRAME_END, FRAME_START, TAG_BOOST_PRESSURE,
    TAG_BRAKE_PRESSURE, TAG_FUEL_LEVEL, TAG_GEAR_POSITION, TAG_LAST, TAG_OIL_PRESSURE, TAG_RPM,
    TAG_SPEED, TAG_STATUS_FLAGS, TAG_STEERING_ANGLE, TAG_THROTTLE_POSITION, TAG_TYRE_PRESSURE_BASE,
    TAG_TYRE_TEMP_BASE, TLV_START};
use crate::telemetry::{ESP32Data, StatusFlags};
use vstd::prelude::*;

verus! {

/// The 16-bit pattern of a number in two's complement.
pub open spec fn pattern16(value: int) -> int {
    if value < 0 {
        value + 0x1_0000
    } else {
        value
    }
}

/// The triple that carries the field of `tag`: the tag, the width of the
/// value, and the value, high byte first. It is empty when the field is
/// unset, and for a tag without a field.
pub open spec fn field_triple(d: ESP32Data, tag: u8) -> Seq<u8> {
    match field_value(d, tag) {
        None => Seq::empty(),
        Some(value) => if is_byte_tag(tag) {
            seq![tag, 1u8, value as u8]
        } else {
            seq![
                tag,
                2u8,
                (pattern16(value) / 0x100) as u8,
                (pattern16(value) % 0x100) as u8,
            ]
        },
    }
}

/// The triples of the fields with tags from `tag` on, in rising order.
pub open spec fn triples_from(d: ESP32Data, tag: int) -> Seq<u8>
    decreases TAG_LAST + 1 - tag,
{
    if tag < TAG_FUEL_LEVEL || tag > TAG_LAST {
        Seq::empty()
    } else {
        field_triple(d, tag as u8) + triples_from(d, tag + 1)
    }
}

/// The bytes that the checksum of a frame covers: the version and the
/// triples of all fields that are set.
pub open spec fn frame_body(version: u8, d: ESP32Data) -> Seq<u8> {
    seq![version] + triples_from(d, TAG_FUEL_LEVEL as int)
}

/// The frame that carries `d`.
pub open spec fn frame_of(version: u8, d: ESP32Data) -> Seq<u8> {
    let body = frame_body(version, d);
    seq![FRAME_START, body.len() as u8] + body + seq![
        (crc16(body) / 0x100) as u8,
        (crc16(body) % 0x100) as u8,
        FRAME_END,
    ]
}

/// The sample `d` with the fields of the tags from `tag` on unset.
pub open spec fn fields_before(d: ESP32Data, tag: int) -> ESP32Data {
    ESP32Data {
        fuel_level: if TAG_FUEL_LEVEL < tag {
            d.fuel_level
        } else {
            None
        },
        oil_pressure: if TAG_OIL_PRESSURE < tag {
            d.oil_pressure
        } else {
            None
        },
        boost_pressure: if TAG_BOOST_PRESSURE < tag {
            d.boost_pressure
        } else {
            None
        },
        rpm: if TAG_RPM < tag {
            d.rpm
        } else {
            None
        },
        speed: if TAG_SPEED < tag {
            d.speed
        } else {
            None
        },
        status_flags: if TAG_STATUS_FLAGS < tag {
            d.status_flags
        } else {
            None
        },
        steering_angle: if TAG_STEERING_ANGLE < tag {
            d.steering_angle
        } else {
            None
        },
        brake_pressure: if TAG_BRAKE_PRESSURE < tag {
            d.brake_pressure
        } else {
            None
        },
        throttle_position: if TAG_THROTTLE_POSITION < tag {
            d.throttle_position
        } else {
            None
        },
        gear_position: if TAG_GEAR_POSITION < tag {
            d.gear_position
        } else {
            None
        },
        tyre_pressures: [
            if TAG_TYRE_PRESSURE_BASE < tag {
                d.tyre_pressures[0]
            } else {
                None
            },
            if TAG_TYRE_PRESSURE_BASE + 1 < tag {
                d.tyre_pressures[1]
            } else {
                None
            },
            if TAG_TYRE_PRESSURE_BASE + 2 < tag {
                d.tyre_pressures[2]
            } else {
                None
            },
            if TAG_TYRE_PRESSURE_BASE + 3 < tag {
                d.tyre_pressures[3]
            } else {
                None
            },
        ],
        tyre_temps: [
            if TAG_TYRE_TEMP_BASE < tag {
                d.tyre_temps[0]
            } else {
                None
            },
            if TAG_TYRE_TEMP_BASE + 1 < tag {
                d.tyre_temps[1]
            } else {
                None
            },
            if TAG_TYRE_TEMP_BASE + 2 < tag {
                d.tyre_temps[2]
            } else {
                None
            },
            if TAG_TYRE_TEMP_BASE + 3 < tag {
                d.tyre_temps[3]
            } else {
                None
            },
        ],
    }
}

/// The triples of a sample take at most 69 bytes.
pub proof fn lemma_triples_are_short(d: ESP32Data, tag: int)
    requires
        TAG_FUEL_LEVEL <= tag <= TAG_LAST + 1,
    ensures
        triples_from(d, tag).len() <= 4 * (TAG_LAST + 1 - tag),
    decreases TAG_LAST + 1 - tag,
{
    if tag <= TAG_LAST {
        lemma_triples_are_short(d, tag + 1);
    }
}

/// Reading the triple of a field gives the field back.
proof fn lemma_triple_restores_field(d: ESP32Data, tag: u8, follower: u8)
    requires
        is_known_tag(tag),
        field_value(d, tag) is Some,
    ensures
        ({
            let triple = field_triple(d, tag);
            let v1 = if is_byte_tag(tag) {
                follower
            } else {
                triple[3]
            };
            apply_tlv(fields_before(d, tag as int), tag, triple[2], v1) == fields_before(
                d,
                tag + 1,
            )
        }),
{
    let triple = field_triple(d, tag);
    let v1 = if is_byte_tag(tag) {
        follower
    } else {
        triple[3]
    };
    let after = apply_tlv(fields_before(d, tag as int), tag, triple[2], v1);
    let wanted = fields_before(d, tag + 1);
    if tag == TAG_STATUS_FLAGS {
        StatusFlags::lemma_flags_of_byte(d.status_flags->Some_0);
    }
    assert(after.tyre_pressures =~= wanted.tyre_pressures);
    assert(after.tyre_temps =~= wanted.tyre_temps);
}

/// Where the fields before `tag` are unset nothing is lost by leaving an
/// unset field out.
proof fn lemma_unset_field_changes_nothing(d: ESP32Data, tag: u8)
    requires
        is_known_tag(tag),
        field_value(d, tag) is None,
    ensures
        fields_before(d, tag as int) == fields_before(d, tag + 1),
{
    let before = fields_before(d, tag as int);
    let after = fields_before(d, tag + 1);
    assert(before.tyre_pressures =~= after.tyre_pressures);
    assert(before.tyre_temps =~= after.tyre_temps);
}

/// The walk over the triples from `tag` on, begun with the fields before
/// `tag`, ends with the whole sample.
proof fn lemma_walk_restores_fields(frame: Seq<u8>, d: ESP32Data, tag: int)
    requires
        TAG_FUEL_LEVEL <= tag <= TAG_LAST + 1,
        frame.len() >= TLV_START + triples_from(d, tag).len() + 3,
        frame.subrange(
            crc_offset(frame.len() as int) - triples_from(d, tag).len(),
            crc_offset(frame.len() as int),
        ) == triples_from(d, tag),
    ensures
        walk_tlvs(
            frame,
            crc_offset(frame.len() as int) - triples_from(d, tag).len(),
            crc_offset(frame.len() as int),
            fields_before(d, tag),
        ) == d,
    decreases TAG_LAST + 1 - tag,
{
    let end = crc_offset(frame.len() as int);
    let rest = triples_from(d, tag);
    let pos = end - rest.len();
    if tag == TAG_LAST + 1 {
        let whole = fields_before(d, tag);
        assert(whole.tyre_pressures =~= d.tyre_pressures);
        assert(whole.tyre_temps =~= d.tyre_temps);
    } else {
        let triple = field_triple(d, tag as u8);
        let later = triples_from(d, tag + 1);
        assert(rest == triple + later);
        assert(frame.subrange(end - later.len(), end) =~= later) by {
            assert forall|j: int| 0 <= j < later.len() implies frame[end - later.len() + j]
                == later[j] by {
                assert(frame.subrange(pos, end)[triple.len() + j] == rest[triple.len() + j]);
            }
        }
        lemma_walk_restores_fields(frame, d, tag + 1);
        if field_value(d, tag as u8) is None {
            lemma_unset_field_changes_nothing(d, tag as u8);
        } else {
            assert forall|j: int| 0 <= j < triple.len() implies frame[pos + j] == triple[j] by {
                assert(frame.subrange(pos, end)[j] == rest[j]);
            }
            lemma_triple_restores_field(d, tag as u8, frame[pos + 3]);
        }
    }
}

/// Reading the frame of a sample gives the sample back, for every sample
/// with at least one field set. (The frame of a sample without fields is
/// shorter than the shortest frame that is accepted.)
pub proof fn lemma_frame_round_trip(version: u8, d: ESP32Data)
    requires
        d != ESP32Data::unset(),
    ensures
        decode_frame(frame_of(version, d)) == Ok::<ESP32Data, FrameError>(d),
{
    let body = frame_body(version, d);
    let triples = triples_from(d, TAG_FUEL_LEVEL as int);
    let frame = frame_of(version, d);
    lemma_triples_are_short(d, TAG_FUEL_LEVEL as int);
    lemma_sample_has_field(d);
    lemma_set_field_has_triple(d);
    let crc = crc16(body);
    assert(crc_region(frame) =~= body);
    assert(be_u16((crc / 0x100) as u8, (crc % 0x100) as u8) == crc);
    assert(frame.subrange(
        crc_offset(frame.len() as int) - triples.len(),
        crc_offset(frame.len() as int),
    ) =~= triples);
    lemma_walk_restores_fields(frame, d, TAG_FUEL_LEVEL as int);
    let none = fields_before(d, TAG_FUEL_LEVEL as int);
    assert(none.tyre_pressures =~= ESP32Data::unset().tyre_pressures);
    assert(none.tyre_temps =~= ESP32Data::unset().tyre_temps);
}

/// Whether some field of `d` is set.
pub open spec fn has_field(d: ESP32Data) -> bool {
    exists|tag: u8| is_known_tag(tag) && #[trigger] field_value(d, tag) is Some
}

/// A sample other than the unset one has a field set.
pub proof fn lemma_sample_has_field(d: ESP32Data)
    requires
        d != ESP32Data::unset(),
    ensures
        has_field(d),
{
    if forall|tag: u8| is_known_tag(tag) ==> #[trigger] field_value(d, tag) is None {
        assert(field_value(d, TAG_FUEL_LEVEL) is None);
        assert(field_value(d, TAG_OIL_PRESSURE) is None);
        assert(field_value(d, TAG_BOOST_PRESSURE) is None);
        assert(field_value(d, TAG_RPM) is None);
        assert(field_value(d, TAG_SPEED) is None);
        assert(field_value(d, TAG_STATUS_FLAGS) is None);
        assert(field_value(d, TAG_STEERING_ANGLE) is None);
        assert(field_value(d, TAG_BRAKE_PRESSURE) is None);
        assert(field_value(d, TAG_THROTTLE_POSITION) is None);
        assert(field_value(d, TAG_GEAR_POSITION) is None);
        assert(field_value(d, TAG_TYRE_PRESSURE_BASE) is None);
        assert(field_value(d, (TAG_TYRE_PRESSURE_BASE + 1) as u8) is None);
        assert(field_value(d, (TAG_TYRE_PRESSURE_BASE + 2) as u8) is None);
        assert(field_value(d, (TAG_TYRE_PRESSURE_BASE + 3) as u8) is None);
        assert(field_value(d, TAG_TYRE_TEMP_BASE) is None);
        assert(field_value(d, (TAG_TYRE_TEMP_BASE + 1) as u8) is None);
        assert(field_value(d, (TAG_TYRE_TEMP_BASE + 2) as u8) is None);
        assert(field_value(d, (TAG_TYRE_TEMP_BASE + 3) as u8) is None);
        assert(d.tyre_pressures =~= ESP32Data::unset().tyre_pressures);
        assert(d.tyre_temps =~= ESP32Data::unset().tyre_temps);
        assert(d == ESP32Data::unset());
    }
}

/// A sample with a field set has at least one triple, of three bytes or
/// more.
proof fn lemma_set_field_has_triple(d: ESP32Data)
    requires
        has_field(d),
    ensures
        triples_from(d, TAG_FUEL_LEVEL as int).len() >= 3,
{
    let tag = choose|tag: u8| is_known_tag(tag) && #[trigger] field_value(d, tag) is Some;
    lemma_triple_is_counted(d, TAG_FUEL_LEVEL as int, tag);
}

/// The triple of every field from `from` on is part of the triples from
/// `from` on.
proof fn lemma_triple_is_counted(d: ESP32Data, from: int, tag: u8)
    requires
        TAG_FUEL_LEVEL <= from <= tag <= TAG_LAST,
    ensures
        triples_from(d, from).len() >= field_triple(d, tag).len(),
    decreases tag - from,
{
    if from < tag {
        lemma_triple_is_counted(d, from + 1, tag);
    }
}

/// Adding the triple of one field to what stands before it leaves the
/// triples of the later fields to be added.
proof fn lemma_body_grows(written: Seq<u8>, d: ESP32Data, tag: u8)
    requires
        is_known_tag(tag),
    ensures
        (written + field_triple(d, tag)) + triples_from(d, tag + 1) == written + triples_from(
            d,
            tag as int,
        ),
{
    assert((written + field_triple(d, tag)) + triples_from(d, tag + 1) =~= written + (field_triple(
        d,
        tag,
    ) + triples_from(d, tag + 1)));
}

fn push_word(out: &mut Vec<u8>, tag: u8, value: Option<u16>, Ghost(d): Ghost<ESP32Data>)
    requires
        is_known_tag(tag),
        !is_byte_tag(tag),
        field_value(d, tag) == number_of_u16(value),
    ensures
        final(out)@ + triples_from(d, tag + 1) == old(out)@ + triples_from(d, tag as int),
{
    if let Some(v) = value {
        out.push(tag);
        out.push(2);
        out.push((v / 0x100) as u8);
        out.push((v % 0x100) as u8);
    }
    proof {
        assert(out@ =~= old(out)@ + field_triple(d, tag));
        lemma_body_grows(old(out)@, d, tag);
    }
}

fn push_signed(out: &mut Vec<u8>, tag: u8, value: Option<i16>, Ghost(d): Ghost<ESP32Data>)
    requires
        is_known_tag(tag),
        !is_byte_tag(tag),
        field_value(d, tag) == number_of_i16(value),
    ensures
        final(out)@ + triples_from(d, tag + 1) == old(out)@ + triples_from(d, tag as int),
{
    if let Some(v) = value {
        let raw: i32 = if v < 0 {
            v as i32 + 0x1_0000
        } else {
            v as i32
        };
        out.push(tag);
        out.push(2);
        out.push((raw / 0x100) as u8);
        out.push((raw % 0x100) as u8);
    }
    proof {
        assert(out@ =~= old(out)@ + field_triple(d, tag));
        lemma_body_grows(old(out)@, d, tag);
    }
}

fn push_byte(out: &mut Vec<u8>, tag: u8, value: Option<u8>, Ghost(d): Ghost<ESP32Data>)
    requires
        is_known_tag(tag),
        is_byte_tag(tag),
        field_value(d, tag) == number_of_u8(value),
    ensures
        final(out)@ + triples_from(d, tag + 1) == old(out)@ + triples_from(d, tag as int),
{
    if let Some(v) = value {
        out.push(tag);
        out.push(1);
        out.push(v);
    }
    proof {
        assert(out@ =~= old(out)@ + field_triple(d, tag));
        lemma_body_grows(old(out)@, d, tag);
    }
}

/// Writes the version and the triples of the fields that are set.
fn encode_body(version: u8, data: &ESP32Data) -> (body: Vec<u8>)
    ensures
        body@ == frame_body(version, *data),
{
    let ghost d = *data;
    let ghost whole = frame_body(version, d);
    let mut body: Vec<u8> = Vec::new();
    body.push(version);
    assert(body@ =~= seq![version]);
    push_word(&mut body, TAG_FUEL_LEVEL, data.fuel_level, Ghost(d));
    push_word(&mut body, TAG_OIL_PRESSURE, data.oil_pressure, Ghost(d));
    push_word(&mut body, TAG_BOOST_PRESSURE, data.boost_pressure, Ghost(d));
    push_word(&mut body, TAG_RPM, data.rpm, Ghost(d));
    push_word(&mut body, TAG_SPEED, data.speed, Ghost(d));
    let flags = match data.status_flags {
        Some(flags) => Some(flags.to_byte()),
        None => None,
    };
    push_byte(&mut body, TAG_STATUS_FLAGS, flags, Ghost(d));
    push_signed(&mut body, TAG_STEERING_ANGLE, data.steering_angle, Ghost(d));
    push_word(&mut body, TAG_BRAKE_PRESSURE, data.brake_pressure, Ghost(d));
    push_byte(&mut body, TAG_THROTTLE_POSITION, data.throttle_position, Ghost(d));
    push_byte(&mut body, TAG_GEAR_POSITION, data.gear_position, Ghost(d));
    let mut wheel: u8 = 0;
    while wheel < 4
        invariant
            wheel <= 4,
            d == *data,
            body@ + triples_from(d, TAG_TYRE_PRESSURE_BASE + wheel) == whole,
        decreases 4 - wheel,
    {
        push_word(
            &mut body,
            TAG_TYRE_PRESSURE_BASE + wheel,
            data.tyre_pressures[wheel as usize],
            Ghost(d),
        );
        wheel = wheel + 1;
    }
    wheel = 0;
    while wheel < 4
        invariant
            wheel <= 4,
            d == *data,
            body@ + triples_from(d, TAG_TYRE_TEMP_BASE + wheel) == whole,
        decreases 4 - wheel,
    {
        push_signed(
            &mut body,
            TAG_TYRE_TEMP_BASE + wheel,
            data.tyre_temps[wheel as usize],
            Ghost(d),
        );
        wheel = wheel + 1;
    }
    assert(body@ =~= whole);
    body
}

/// Writes a sample as a frame: the triples of the fields that are set, in
/// rising order of tag, between the header and the checksum.
pub fn encode_frame(version: u8, data: &ESP32Data) -> (frame: Vec<u8>)
    ensures
        frame@ == frame_of(version, *data),
{
    let mut body = encode_body(version, data);
    proof {
        lemma_triples_are_short(*data, TAG_FUEL_LEVEL as int);
    }
    let crc = crc16_ccitt(body.as_slice());
    let mut frame: Vec<u8> = Vec::new();
    frame.push(FRAME_START);
    frame.push(body.len() as u8);
    frame.append(&mut body);
    frame.push((crc / 0x100) as u8);
    frame.push((crc % 0x100) as u8);
    frame.push(FRAME_END);
    assert(frame@ =~= frame_of(version, *data));
    frame
}

} // verus!

//! Writing a position sample as a data packet, and the proof that reading
//! the packet gives the sample back.

use crate::bytes::{le_u16, le_u32, signed16, signed32};
use crate::racebox::parser::{decode_packet, packet_fields, RaceBoxData, FIX_OK_MASK, PACKET_LEN,
    PREAMBLE_0, PREAMBLE_1, PREAMBLE_2, PREAMBLE_3, VALID_DATE_MASK, VALID_TIME_MASK};
use vstd::prelude::*;

verus! {

/// The two bytes of a 16-bit number, low byte first. A negative number is
/// written in two's complement.
pub open spec fn le16_bytes(value: int) -> Seq<u8> {
    let pattern = if value < 0 {
        value + 0x1_0000
    } else {
        value
    };
    seq![(pattern % 0x100) as u8, (pattern / 0x100) as u8]
}

/// The four bytes of a 32-bit number, low byte first. A negative number is
/// written in two's complement.
pub open spec fn le32_bytes(value: int) -> Seq<u8> {
    let pattern = if value < 0 {
        value + 0x1_0000_0000
    } else {
        value
    };
    seq![
        (pattern % 0x100) as u8,
        (pattern / 0x100 % 0x100) as u8,
        (pattern / 0x1_0000 % 0x100) as u8,
        (pattern / 0x100_0000) as u8,
    ]
}

/// The byte that holds the two validity flags.
pub open spec fn validity_byte(valid_date: bool, valid_time: bool) -> u8 {
    if valid_date && valid_time {
        0x03
    } else if valid_time {
        0x02
    } else if valid_date {
        0x01
    } else {
        0x00
    }
}

/// The byte that holds the fix flag.
pub open spec fn fix_byte(fix_ok: bool) -> u8 {
    if fix_ok {
        0x01
    } else {
        0x00
    }
}

/// The byte at place `at` of the data packet that carries `d`. Every byte
/// that holds no field is zero.
pub open spec fn packet_byte(d: RaceBoxData, at: int) -> u8 {
    if at == 0 {
        PREAMBLE_0
    } else if at == 1 {
        PREAMBLE_1
    } else if at == 2 {
        PREAMBLE_2
    } else if at == 3 {
        PREAMBLE_3
    } else if 6 <= at < 10 {
        le32_bytes(d.timestamp_ms as int)[at - 6]
    } else if 10 <= at < 12 {
        le16_bytes(d.year as int)[at - 10]
    } else if at == 12 {
        d.month
    } else if at == 13 {
        d.day
    } else if at == 14 {
        d.hour
    } else if at == 15 {
        d.minute
    } else if at == 16 {
        d.second
    } else if at == 17 {
        validity_byte(d.valid_date, d.valid_time)
    } else if at == 20 {
        d.fix_status
    } else if at == 21 {
        fix_byte(d.fix_ok)
    } else if at == 23 {
        d.num_sv
    } else if 24 <= at < 28 {
        le32_bytes(d.longitude_e7 as int)[at - 24]
    } else if 28 <= at < 32 {
        le32_bytes(d.latitude_e7 as int)[at - 28]
    } else if 32 <= at < 36 {
        le32_bytes(d.wgs_alt_mm as int)[at - 32]
    } else if 36 <= at < 40 {
        le32_bytes(d.msl_alt_mm as int)[at - 36]
    } else if 40 <= at < 44 {
        le32_bytes(d.horiz_acc_mm as int)[at - 40]
    } else if 44 <= at < 48 {
        le32_bytes(d.vert_acc_mm as int)[at - 44]
    } else if 48 <= at < 52 {
        le32_bytes(d.speed_mmps as int)[at - 48]
    } else if 52 <= at < 56 {
        le32_bytes(d.heading_e5 as int)[at - 52]
    } else if 56 <= at < 60 {
        le32_bytes(d.speed_acc_mmps as int)[at - 56]
    } else if 60 <= at < 64 {
        le32_bytes(d.heading_acc_e5 as int)[at - 60]
    } else if 64 <= at < 66 {
        le16_bytes(d.pdop_centi as int)[at - 64]
    } else if 68 <= at < 70 {
        le16_bytes(d.g_force_x_milli as int)[at - 68]
    } else if 70 <= at < 72 {
        le16_bytes(d.g_force_y_milli as int)[at - 70]
    } else if 72 <= at < 74 {
        le16_bytes(d.g_force_z_milli as int)[at - 72]
    } else if 74 <= at < 76 {
        le16_bytes(d.rot_rate_x_centi as int)[at - 74]
    } else if 76 <= at < 78 {
        le16_bytes(d.rot_rate_y_centi as int)[at - 76]
    } else if 78 <= at < 80 {
        le16_bytes(d.rot_rate_z_centi as int)[at - 78]
    } else {
        0
    }
}

/// The data packet that carries `d`: `PACKET_LEN` bytes.
pub open spec fn packet_of(d: RaceBoxData) -> Seq<u8> {
    Seq::new(PACKET_LEN as nat, |at: int| packet_byte(d, at))
}

/// Reading two bytes written for an unsigned number gives the number back.
pub proof fn lemma_le16_unsigned(value: u16)
    ensures
        le16_bytes(value as int).len() == 2,
        le_u16(le16_bytes(value as int)[0], le16_bytes(value as int)[1]) == value,
{
}

/// Reading two bytes written for a signed number gives the number back.
pub proof fn lemma_le16_signed(value: i16)
    ensures
        le16_bytes(value as int).len() == 2,
        signed16(le_u16(le16_bytes(value as int)[0], le16_bytes(value as int)[1])) == value,
{
}

/// Reading four bytes written for an unsigned number gives the number back.
pub proof fn lemma_le32_unsigned(value: u32)
    ensures
        le32_bytes(value as int).len() == 4,
        le_u32(
            le32_bytes(value as int)[0],
            le32_bytes(value as int)[1],
            le32_bytes(value as int)[2],
            le32_bytes(value as int)[3],
        ) == value,
{
}

/// Reading four bytes written for a signed number gives the number back.
pub proof fn lemma_le32_signed(value: i32)
    ensures
        le32_bytes(value as int).len() == 4,
        signed32(
            le_u32(
                le32_bytes(value as int)[0],
                le32_bytes(value as int)[1],
                le32_bytes(value as int)[2],
                le32_bytes(value as int)[3],
            ),
        ) == value,
{
}

/// The flags come back out of the bytes written for them.
pub proof fn lemma_flag_bytes(valid_date: bool, valid_time: bool, fix_ok: bool)
    ensures
        (validity_byte(valid_date, valid_time) & VALID_DATE_MASK != 0) == valid_date,
        (validity_byte(valid_date, valid_time) & VALID_TIME_MASK != 0) == valid_time,
        (fix_byte(fix_ok) & FIX_OK_MASK != 0) == fix_ok,
{
    assert(0x00u8 & 0x01 == 0 && 0x01u8 & 0x01 != 0 && 0x02u8 & 0x01 == 0 && 0x03u8 & 0x01 != 0)
        by (bit_vector);
    assert(0x00u8 & 0x02 == 0 && 0x01u8 & 0x02 == 0 && 0x02u8 & 0x02 != 0 && 0x03u8 & 0x02 != 0)
        by (bit_vector);
}

/// Reading the packet of a sample gives the sample back.
pub proof fn lemma_packet_round_trip(d: RaceBoxData)
    ensures
        packet_of(d).len() == PACKET_LEN,
        decode_packet(packet_of(d)) == Some(d),
{
    let p = packet_of(d);
    lemma_le32_unsigned(d.timestamp_ms);
    lemma_le16_unsigned(d.year);
    lemma_flag_bytes(d.valid_date, d.valid_time, d.fix_ok);
    lemma_le32_signed(d.longitude_e7);
    lemma_le32_signed(d.latitude_e7);
    lemma_le32_signed(d.wgs_alt_mm);
    lemma_le32_signed(d.msl_alt_mm);
    lemma_le32_unsigned(d.horiz_acc_mm);
    lemma_le32_unsigned(d.vert_acc_mm);
    lemma_le32_signed(d.speed_mmps);
    lemma_le32_signed(d.heading_e5);
    lemma_le32_unsigned(d.speed_acc_mmps);
    lemma_le32_unsigned(d.heading_acc_e5);
    lemma_le16_unsigned(d.pdop_centi);
    lemma_le16_signed(d.g_force_x_milli);
    lemma_le16_signed(d.g_force_y_milli);
    lemma_le16_signed(d.g_force_z_milli);
    lemma_le16_signed(d.rot_rate_x_centi);
    lemma_le16_signed(d.rot_rate_y_centi);
    lemma_le16_signed(d.rot_rate_z_centi);
    assert(p.len() == PACKET_LEN);
    assert(packet_fields(p) == d);
}

fn put_byte(out: &mut Vec<u8>, byte: u8, Ghost(whole): Ghost<Seq<u8>>)
    requires
        old(out)@.len() < whole.len(),
        old(out)@ == whole.take(old(out)@.len() as int),
        whole[old(out)@.len() as int] == byte,
    ensures
        final(out)@ == whole.take(old(out)@.len() as int + 1),
{
    out.push(byte);
    assert(out@ =~= whole.take(old(out)@.len() as int + 1));
}

fn put_u16(out: &mut Vec<u8>, value: u16, Ghost(whole): Ghost<Seq<u8>>)
    requires
        old(out)@.len() + 2 <= whole.len(),
        old(out)@ == whole.take(old(out)@.len() as int),
        whole.subrange(old(out)@.len() as int, old(out)@.len() as int + 2) == le16_bytes(value as int),
    ensures
        final(out)@ == whole.take(old(out)@.len() as int + 2),
{
    let ghost at = out@.len() as int;
    assert(whole.subrange(at, at + 2)[0] == whole[at]);
    assert(whole.subrange(at, at + 2)[1] == whole[at + 1]);
    out.push((value % 0x100) as u8);
    out.push((value / 0x100) as u8);
    assert(out@ =~= whole.take(at + 2));
}

fn put_i16(out: &mut Vec<u8>, value: i16, Ghost(whole): Ghost<Seq<u8>>)
    requires
        old(out)@.len() + 2 <= whole.len(),
        old(out)@ == whole.take(old(out)@.len() as int),
        whole.subrange(old(out)@.len() as int, old(out)@.len() as int + 2) == le16_bytes(value as int),
    ensures
        final(out)@ == whole.take(old(out)@.len() as int + 2),
{
    let ghost at = out@.len() as int;
    assert(whole.subrange(at, at + 2)[0] == whole[at]);
    assert(whole.subrange(at, at + 2)[1] == whole[at + 1]);
    let pattern: i32 = if value < 0 {
        value as i32 + 0x1_0000
    } else {
        value as i32
    };
    out.push((pattern % 0x100) as u8);
    out.push((pattern / 0x100) as u8);
    assert(out@ =~= whole.take(at + 2));
}

fn put_u32(out: &mut Vec<u8>, value: u32, Ghost(whole): Ghost<Seq<u8>>)
    requires
        old(out)@.len() + 4 <= whole.len(),
        old(out)@ == whole.take(old(out)@.len() as int),
        whole.subrange(old(out)@.len() as int, old(out)@.len() as int + 4) == le32_bytes(value as int),
    ensures
        final(out)@ == whole.take(old(out)@.len() as int + 4),
{
    let ghost at = out@.len() as int;
    assert(whole.subrange(at, at + 4)[0] == whole[at]);
    assert(whole.subrange(at, at + 4)[1] == whole[at + 1]);
    assert(whole.subrange(at, at + 4)[2] == whole[at + 2]);
    assert(whole.subrange(at, at + 4)[3] == whole[at + 3]);
    out.push((value % 0x100) as u8);
    out.push((value / 0x100 % 0x100) as u8);
    out.push((value / 0x1_0000 % 0x100) as u8);
    out.push((value / 0x100_0000) as u8);
    assert(out@ =~= whole.take(at + 4));
}

fn put_i32(out: &mut Vec<u8>, value: i32, Ghost(whole): Ghost<Seq<u8>>)
    requires
        old(out)@.len() + 4 <= whole.len(),
        old(out)@ == whole.take(old(out)@.len() as int),
        whole.subrange(old(out)@.len() as int, old(out)@.len() as int + 4) == le32_bytes(value as int),
    ensures
        final(out)@ == whole.take(old(out)@.len() as int + 4),
{
    let ghost at = out@.len() as int;
    assert(whole.subrange(at, at + 4)[0] == whole[at]);
    assert(whole.subrange(at, at + 4)[1] == whole[at + 1]);
    assert(whole.subrange(at, at + 4)[2] == whole[at + 2]);
    assert(whole.subrange(at, at + 4)[3] == whole[at + 3]);
    let pattern: i64 = if value < 0 {
        value as i64 + 0x1_0000_0000
    } else {
        value as i64
    };
    out.push((pattern % 0x100) as u8);
    out.push((pattern / 0x100 % 0x100) as u8);
    out.push((pattern / 0x1_0000 % 0x100) as u8);
    out.push((pattern / 0x100_0000) as u8);
    assert(out@ =~= whole.take(at + 4));
}

/// The bytes of the packet of `d` from `at` on are those of `field`, where
/// the layout puts `field` there.
proof fn lemma_packet_window(d: RaceBoxData, at: int, field: Seq<u8>)
    requires
        0 <= at,
        at + field.len() <= PACKET_LEN,
        forall|j: int| 0 <= j < field.len() ==> packet_byte(d, at + j) == field[j],
    ensures
        packet_of(d).subrange(at, at + field.len()) == field,
{
    assert(packet_of(d).subrange(at, at + field.len()) =~= field);
}

fn encode_time(out: &mut Vec<u8>, d: &RaceBoxData)
    requires
        old(out)@.len() == 0,
    ensures
        final(out)@ == packet_of(*d).take(24),
{
    let ghost whole = packet_of(*d);
    proof {
        lemma_packet_window(*d, 6, le32_bytes(d.timestamp_ms as int));
        lemma_packet_window(*d, 10, le16_bytes(d.year as int));
    }
    assert(out@ =~= whole.take(0));
    put_byte(out, PREAMBLE_0, Ghost(whole));
    put_byte(out, PREAMBLE_1, Ghost(whole));
    put_byte(out, PREAMBLE_2, Ghost(whole));
    put_byte(out, PREAMBLE_3, Ghost(whole));
    put_byte(out, 0, Ghost(whole));
    put_byte(out, 0, Ghost(whole));
    put_u32(out, d.timestamp_ms, Ghost(whole));
    put_u16(out, d.year, Ghost(whole));
    put_byte(out, d.month, Ghost(whole));
    put_byte(out, d.day, Ghost(whole));
    put_byte(out, d.hour, Ghost(whole));
    put_byte(out, d.minute, Ghost(whole));
    put_byte(out, d.second, Ghost(whole));
    let validity: u8 = if d.valid_date && d.valid_time {
        0x03
    } else if d.valid_time {
        0x02
    } else if d.valid_date {
        0x01
    } else {
        0x00
    };
    put_byte(out, validity, Ghost(whole));
    put_byte(out, 0, Ghost(whole));
    put_byte(out, 0, Ghost(whole));
    put_byte(out, d.fix_status, Ghost(whole));
    put_byte(out, if d.fix_ok { 0x01 } else { 0x00 }, Ghost(whole));
    put_byte(out, 0, Ghost(whole));
    put_byte(out, d.num_sv, Ghost(whole));
}

fn encode_position(out: &mut Vec<u8>, d: &RaceBoxData)
    requires
        old(out)@ == packet_of(*d).take(24),
    ensures
        final(out)@ == packet_of(*d).take(64),
{
    let ghost whole = packet_of(*d);
    proof {
        lemma_packet_window(*d, 24, le32_bytes(d.longitude_e7 as int));
        lemma_packet_window(*d, 28, le32_bytes(d.latitude_e7 as int));
        lemma_packet_window(*d, 32, le32_bytes(d.wgs_alt_mm as int));
        lemma_packet_window(*d, 36, le32_bytes(d.msl_alt_mm as int));
        lemma_packet_window(*d, 40, le32_bytes(d.horiz_acc_mm as int));
        lemma_packet_window(*d, 44, le32_bytes(d.vert_acc_mm as int));
        lemma_packet_window(*d, 48, le32_bytes(d.speed_mmps as int));
        lemma_packet_window(*d, 52, le32_bytes(d.heading_e5 as int));
        lemma_packet_window(*d, 56, le32_bytes(d.speed_acc_mmps as int));
        lemma_packet_window(*d, 60, le32_bytes(d.heading_acc_e5 as int));
    }
    put_i32(out, d.longitude_e7, Ghost(whole));
    put_i32(out, d.latitude_e7, Ghost(whole));
    put_i32(out, d.wgs_alt_mm, Ghost(whole));
    put_i32(out, d.msl_alt_mm, Ghost(whole));
    put_u32(out, d.horiz_acc_mm, Ghost(whole));
    put_u32(out, d.vert_acc_mm, Ghost(whole));
    put_i32(out, d.speed_mmps, Ghost(whole));
    put_i32(out, d.heading_e5, Ghost(whole));
    put_u32(out, d.speed_acc_mmps, Ghost(whole));
    put_u32(out, d.heading_acc_e5, Ghost(whole));
}

fn encode_motion(out: &mut Vec<u8>, d: &RaceBoxData)
    requires
        old(out)@ == packet_of(*d).take(64),
    ensures
        final(out)@ == packet_of(*d),
{
    let ghost whole = packet_of(*d);
    proof {
        lemma_packet_window(*d, 64, le16_bytes(d.pdop_centi as int));
        lemma_packet_window(*d, 68, le16_bytes(d.g_force_x_milli as int));
        lemma_packet_window(*d, 70, le16_bytes(d.g_force_y_milli as int));
        lemma_packet_window(*d, 72, le16_bytes(d.g_force_z_milli as int));
        lemma_packet_window(*d, 74, le16_bytes(d.rot_rate_x_centi as int));
        lemma_packet_window(*d, 76, le16_bytes(d.rot_rate_y_centi as int));
        lemma_packet_window(*d, 78, le16_bytes(d.rot_rate_z_centi as int));
    }
    put_u16(out, d.pdop_centi, Ghost(whole));
    put_byte(out, 0, Ghost(whole));
    put_byte(out, 0, Ghost(whole));
    put_i16(out, d.g_force_x_milli, Ghost(whole));
    put_i16(out, d.g_force_y_milli, Ghost(whole));
    put_i16(out, d.g_force_z_milli, Ghost(whole));
    put_i16(out, d.rot_rate_x_centi, Ghost(whole));
    put_i16(out, d.rot_rate_y_centi, Ghost(whole));
    put_i16(out, d.rot_rate_z_centi, Ghost(whole));
    assert(whole.take(80) =~= whole);
}

/// Writes a position sample as a data packet of `PACKET_LEN` bytes.
pub fn encode_packet(d: &RaceBoxData) -> (packet: Vec<u8>)
    ensures
        packet@ == packet_of(*d),
{
    let mut packet: Vec<u8> = Vec::new();
    encode_time(&mut packet, d);
    encode_position(&mut packet, d);
    encode_motion(&mut packet, d);
    packet
}

} // verus!

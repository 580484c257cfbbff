//! The frame checksum: CRC-16 with polynomial 0x1021, initial value 0,
//! fed most significant bit first.

use vstd::prelude::*;

verus! {

/// The generator polynomial, without its leading term.
pub const CRC16_POLY: u16 = 0x1021;

/// One step of the shift register: shift left by one bit and, when a set
/// bit falls out, subtract the polynomial.
pub open spec fn crc16_shift(crc: u16) -> u16 {
    if crc & 0x8000 != 0 {
        (crc << 1) ^ CRC16_POLY
    } else {
        crc << 1
    }
}

/// `count` steps of the shift register.
pub open spec fn crc16_shifts(crc: u16, count: nat) -> u16
    decreases count,
{
    if count == 0 {
        crc
    } else {
        crc16_shift(crc16_shifts(crc, (count - 1) as nat))
    }
}

/// The register after one more byte: the byte is added to the high half and
/// shifted through.
pub open spec fn crc16_byte(crc: u16, byte: u8) -> u16 {
    crc16_shifts(crc ^ ((byte as u16) << 8), 8)
}

/// The register after all of `data`, starting from `init`.
pub open spec fn crc16_from(init: u16, data: Seq<u8>) -> u16
    decreases data.len(),
{
    if data.len() == 0 {
        init
    } else {
        crc16_byte(crc16_from(init, data.drop_last()), data.last())
    }
}

/// The checksum of `data`.
pub open spec fn crc16(data: Seq<u8>) -> u16 {
    crc16_from(0, data)
}

/// Feeds one byte into the checksum register.
pub fn crc16_update(crc: u16, byte: u8) -> (next: u16)
    ensures
        next == crc16_byte(crc, byte),
{
    let mut reg: u16 = crc ^ ((byte as u16) << 8);
    let ghost start = reg;
    let mut round: u8 = 0;
    while round < 8
        invariant
            round <= 8,
            reg == crc16_shifts(start, round as nat),
        decreases 8 - round,
    {
        if reg & 0x8000 != 0 {
            reg = (reg << 1) ^ CRC16_POLY;
        } else {
            reg = reg << 1;
        }
        round = round + 1;
    }
    reg
}

/// Computes the checksum of `data`.
pub fn crc16_ccitt(data: &[u8]) -> (crc: u16)
    ensures
        crc == crc16(data@),
{
    let mut crc: u16 = 0;
    let mut at: usize = 0;
    while at < data.len()
        invariant
            at <= data@.len(),
            crc == crc16(data@.take(at as int)),
        decreases data@.len() - at,
    {
        proof {
            let next = data@.take(at as int + 1);
            assert(next.drop_last() =~= data@.take(at as int));
            assert(next.last() == data@[at as int]);
        }
        crc = crc16_update(crc, data[at]);
        at = at + 1;
    }
    proof {
        assert(data@.take(data@.len() as int) =~= data@);
    }
    crc
}

/// Two registers that differ still differ after a shift.
pub proof fn lemma_shift_keeps_apart(a: u16, b: u16)
    requires
        a != b,
    ensures
        crc16_shift(a) != crc16_shift(b),
{
    assert(a != b ==> (if a & 0x8000 != 0 {
        (a << 1) ^ 0x1021u16
    } else {
        a << 1
    }) != (if b & 0x8000 != 0 {
        (b << 1) ^ 0x1021u16
    } else {
        b << 1
    })) by (bit_vector);
}

/// Two registers that differ still differ after any number of shifts.
pub proof fn lemma_shifts_keep_apart(a: u16, b: u16, count: nat)
    requires
        a != b,
    ensures
        crc16_shifts(a, count) != crc16_shifts(b, count),
    decreases count,
{
    if count > 0 {
        lemma_shifts_keep_apart(a, b, (count - 1) as nat);
        lemma_shift_keeps_apart(
            crc16_shifts(a, (count - 1) as nat),
            crc16_shifts(b, (count - 1) as nat),
        );
    }
}

/// Fed the same byte, two registers that differ still differ.
pub proof fn lemma_byte_keeps_registers_apart(a: u16, b: u16, byte: u8)
    requires
        a != b,
    ensures
        crc16_byte(a, byte) != crc16_byte(b, byte),
{
    let shifted: u16 = (byte as u16) << 8;
    assert(a != b ==> a ^ shifted != b ^ shifted) by (bit_vector);
    lemma_shifts_keep_apart(a ^ shifted, b ^ shifted, 8);
}

/// Fed two bytes that differ, one register gives two that differ.
pub proof fn lemma_bytes_part_registers(crc: u16, x: u8, y: u8)
    requires
        x != y,
    ensures
        crc16_byte(crc, x) != crc16_byte(crc, y),
{
    assert(x != y ==> crc ^ ((x as u16) << 8) != crc ^ ((y as u16) << 8)) by (bit_vector);
    lemma_shifts_keep_apart(crc ^ ((x as u16) << 8), crc ^ ((y as u16) << 8), 8);
}

/// The checksum tells apart any two messages of one length that differ in
/// exactly one byte.
pub proof fn lemma_crc16_detects_one_byte(init: u16, data: Seq<u8>, at: int, byte: u8)
    requires
        0 <= at < data.len(),
        byte != data[at],
    ensures
        crc16_from(init, data.update(at, byte)) != crc16_from(init, data),
    decreases data.len(),
{
    let changed = data.update(at, byte);
    if at == data.len() - 1 {
        assert(changed.drop_last() =~= data.drop_last());
        lemma_bytes_part_registers(crc16_from(init, data.drop_last()), byte, data[at]);
    } else {
        assert(changed.drop_last() =~= data.drop_last().update(at, byte));
        lemma_crc16_detects_one_byte(init, data.drop_last(), at, byte);
        lemma_byte_keeps_registers_apart(
            crc16_from(init, changed.drop_last()),
            crc16_from(init, data.drop_last()),
            data.last(),
        );
    }
}

} // verus!

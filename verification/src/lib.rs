//! Protocol engine and activity orchestration for an SGP41 raw VOC/NOx sensor
//! on a shared two-wire bus: command framing with CRC-8, response checking,
//! the warm-up and measurement activities as state machines, and the
//! indicator intents they emit.

use vstd::prelude::*;

pub mod frame;
pub mod gas_index;
pub mod led;
pub mod tasks;

use crate::frame::{high_byte, low_byte, split_word, word_group};

verus! {

/// One shift of the CRC-8 register: the register moves left by one bit and
/// the polynomial 0x31 is folded in when the bit shifted out was set.
pub open spec fn crc8_shift(crc: u8) -> u8 {
    if crc & 0x80 != 0 {
        (crc << 1) ^ 0x31
    } else {
        crc << 1
    }
}

/// `n` shifts of the CRC-8 register.
pub open spec fn crc8_shifts(crc: u8, n: nat) -> u8
    decreases n,
{
    if n == 0 {
        crc
    } else {
        crc8_shift(crc8_shifts(crc, (n - 1) as nat))
    }
}

/// The register after one more data byte: the byte is folded into the
/// register, most significant bit first, and eight shifts follow.
pub open spec fn crc8_byte(crc: u8, byte: u8) -> u8 {
    crc8_shifts(crc ^ byte, 8)
}

/// CRC-8 of a byte sequence: polynomial 0x31, initial value 0xFF, most
/// significant bit first, no final XOR.
pub open spec fn crc8(data: Seq<u8>) -> u8
    decreases data.len(),
{
    if data.len() == 0 {
        0xFF
    } else {
        crc8_byte(crc8(data.drop_last()), data.last())
    }
}

/// A shift of the CRC-8 register loses nothing: two registers that differ
/// still differ after any number of shifts.
pub proof fn crc8_shifts_keep_apart(a: u8, b: u8, n: nat)
    requires
        a != b,
    ensures
        crc8_shifts(a, n) != crc8_shifts(b, n),
    decreases n,
{
    if n > 0 {
        crc8_shifts_keep_apart(a, b, (n - 1) as nat);
        let x = crc8_shifts(a, (n - 1) as nat);
        let y = crc8_shifts(b, (n - 1) as nat);
        assert(x != y ==> crc8_shift(x) != crc8_shift(y)) by (bit_vector);
    }
}

/// An error that is confined to one byte never goes unseen: two blocks of
/// one length that differ in the byte at `at` and nowhere else have
/// different checksums.
pub proof fn crc8_sees_one_changed_byte(data: Seq<u8>, changed: Seq<u8>, at: int)
    requires
        data.len() == changed.len(),
        0 <= at < data.len(),
        data[at] != changed[at],
        forall|i: int| 0 <= i < data.len() && i != at ==> data[i] == changed[i],
    ensures
        crc8(data) != crc8(changed),
    decreases data.len(),
{
    let before = crc8(data.drop_last());
    let before_changed = crc8(changed.drop_last());
    let x = data.last();
    let y = changed.last();
    if at == data.len() - 1 {
        assert(data.drop_last() =~= changed.drop_last());
        assert(before ^ x != before ^ y) by (bit_vector)
            requires
                x != y,
        ;
    } else {
        crc8_sees_one_changed_byte(data.drop_last(), changed.drop_last(), at);
        assert(before ^ x != before_changed ^ y) by (bit_vector)
            requires
                before != before_changed,
                x == y,
        ;
    }
    crc8_shifts_keep_apart(before ^ x, before_changed ^ y, 8);
}

/// A block that is followed by its own checksum has the checksum zero.
pub proof fn crc8_of_checked_block_is_zero(data: Seq<u8>)
    ensures
        crc8(data.push(crc8(data))) == 0,
{
    let sum = crc8(data);
    let block = data.push(sum);
    assert(block.drop_last() =~= data);
    assert(sum ^ sum == 0) by (bit_vector);
    assert(crc8_shift(0) == 0) by (bit_vector);
    assert(crc8_shifts(0, 8) == 0) by {
        reveal_with_fuel(crc8_shifts, 9);
    }
}

/// The checksum the sensor protocol puts behind every pair of data bytes.
pub fn calculate_crc(data: &[u8]) -> (crc: u8)
    ensures
        crc == crc8(data@),
{
    let mut crc: u8 = 0xFF;
    let mut i: usize = 0;
    while i < data.len()
        invariant
            i <= data.len(),
            crc == crc8(data@.take(i as int)),
        decreases data.len() - i,
    {
        let ghost before = crc;
        crc = crc ^ data[i];
        let mut bit: u8 = 0;
        while bit < 8
            invariant
                bit <= 8,
                crc == crc8_shifts(before ^ data@[i as int], bit as nat),
            decreases 8 - bit,
        {
            if crc & 0x80 != 0 {
                crc = (crc << 1) ^ 0x31;
            } else {
                crc = crc << 1;
            }
            bit = bit + 1;
        }
        proof {
            let next = data@.take(i + 1);
            assert(next.drop_last() =~= data@.take(i as int));
        }
        i = i + 1;
    }
    proof {
        assert(data@.take(data@.len() as int) =~= data@);
    }
    crc
}

/// The compensation block of a command frame: the humidity word, then the
/// temperature word, each followed by its checksum.
pub open spec fn compensation_block(temp_ticks: u16, humidity_ticks: u16) -> [u8; 6] {
    [
        high_byte(humidity_ticks),
        low_byte(humidity_ticks),
        crc8(seq![high_byte(humidity_ticks), low_byte(humidity_ticks)]),
        high_byte(temp_ticks),
        low_byte(temp_ticks),
        crc8(seq![high_byte(temp_ticks), low_byte(temp_ticks)]),
    ]
}

/// Lays out ambient temperature and relative humidity, both already in the
/// sensor's ticks, as the six bytes that follow a command's opcode.
///
/// Temperature ticks run from 0 at -45 degrees Celsius to 65535 at 130 degrees;
/// humidity ticks from 0 at 0 percent to 65535 at 100 percent.
pub fn prepare_temp_hum_params(temp_ticks: u16, humidity_ticks: u16) -> (params: [u8; 6])
    ensures
        params == compensation_block(temp_ticks, humidity_ticks),
        params@ == word_group(humidity_ticks) + word_group(temp_ticks),
{
    let (hum_hi, hum_lo) = split_word(humidity_ticks);
    let (temp_hi, temp_lo) = split_word(temp_ticks);
    let hum_pair = [hum_hi, hum_lo];
    let temp_pair = [temp_hi, temp_lo];
    let hum_crc = calculate_crc(&hum_pair);
    let temp_crc = calculate_crc(&temp_pair);
    [hum_hi, hum_lo, hum_crc, temp_hi, temp_lo, temp_crc]
}

} // verus!

//! Frame codec: the command frames written to the sensor and the response
//! frames read back from it.
//!
//! Every 16-bit word on the wire travels big-endian and is followed by the
//! CRC-8 of its two bytes.

use vstd::prelude::*;
use crate::{calculate_crc, compensation_block, crc8};

verus! {

/// Bus address of the sensor.
pub const SGP41_ADDR: u8 = 0x59;

/// Opcode that runs one conditioning step.
pub const CMD_EXECUTE_CONDITIONING: [u8; 2] = [0x26, 0x12];

/// Opcode that measures the raw VOC and NOx signals.
pub const CMD_MEASURE_RAW_SIGNALS: [u8; 2] = [0x26, 0x19];

/// The more significant byte of a word.
pub open spec fn high_byte(word: u16) -> u8 {
    (word / 256) as u8
}

/// The less significant byte of a word.
pub open spec fn low_byte(word: u16) -> u8 {
    (word % 256) as u8
}

/// The word that two bytes form, the more significant one first.
pub open spec fn be16(hi: u8, lo: u8) -> u16 {
    (hi * 256 + lo) as u16
}

/// A word as it stands on the wire: its two bytes, then their checksum.
pub open spec fn word_group(word: u16) -> Seq<u8> {
    seq![high_byte(word), low_byte(word), crc8(seq![high_byte(word), low_byte(word)])]
}

/// Splits a word into its more and its less significant byte.
pub fn split_word(word: u16) -> (bytes: (u8, u8))
    ensures
        bytes.0 == high_byte(word),
        bytes.1 == low_byte(word),
        be16(bytes.0, bytes.1) == word,
{
    let hi = (word >> 8) as u8;
    let lo = (word & 0xFF) as u8;
    assert(word >> 8 == word / 256 && word & 0xFF == word % 256) by (bit_vector);
    (hi, lo)
}

/// Joins two bytes into a word, the more significant one first.
pub fn join_word(hi: u8, lo: u8) -> (word: u16)
    ensures
        word == be16(hi, lo),
        high_byte(word) == hi,
        low_byte(word) == lo,
{
    let word = ((hi as u16) << 8) | (lo as u16);
    assert((((hi as u16) << 8) | (lo as u16)) == hi as u16 * 256 + lo as u16) by (bit_vector);
    word
}

/// A command for the sensor: a two-byte opcode, and for the commands that
/// take ambient compensation the six bytes of the compensation block.
///
/// A frame is built anew for every transaction and never changed afterwards.
#[derive(Clone, Copy, Debug, PartialEq, Eq)]
pub struct CommandFrame {
    pub opcode: [u8; 2],
    pub compensation: Option<[u8; 6]>,
}

impl View for CommandFrame {
    type V = Seq<u8>;

    /// The bytes that go on the wire.
    open spec fn view(&self) -> Seq<u8> {
        match self.compensation {
            Some(block) => self.opcode@ + block@,
            None => self.opcode@,
        }
    }
}

impl CommandFrame {
    /// The bytes that go on the wire, in order.
    pub fn to_bytes(&self) -> (bytes: Vec<u8>)
        ensures
            bytes@ == self@,
    {
        let mut bytes: Vec<u8> = Vec::new();
        bytes.push(self.opcode[0]);
        bytes.push(self.opcode[1]);
        match self.compensation {
            Some(block) => {
                let mut i: usize = 0;
                while i < 6
                    invariant
                        i <= 6,
                        bytes@ == self.opcode@ + block@.take(i as int),
                    decreases 6 - i,
                {
                    bytes.push(block[i]);
                    i = i + 1;
                }
            },
            None => {},
        }
        bytes
    }
}

/// The frame that runs one conditioning step under the given compensation.
pub open spec fn conditioning_frame(compensation: [u8; 6]) -> CommandFrame {
    CommandFrame { opcode: CMD_EXECUTE_CONDITIONING, compensation: Some(compensation) }
}

/// The frame that measures the raw signals under the given compensation.
pub open spec fn measurement_frame(compensation: [u8; 6]) -> CommandFrame {
    CommandFrame { opcode: CMD_MEASURE_RAW_SIGNALS, compensation: Some(compensation) }
}

/// Builds the frame that runs one conditioning step: the opcode, then the
/// compensation block.
pub fn build_conditioning_frame(compensation: [u8; 6]) -> (frame: CommandFrame)
    ensures
        frame == conditioning_frame(compensation),
        frame@ == seq![0x26u8, 0x12u8] + compensation@,
{
    let frame = CommandFrame { opcode: CMD_EXECUTE_CONDITIONING, compensation: Some(compensation) };
    frame
}

/// Builds the frame that measures the raw signals: the opcode, then the
/// compensation block.
pub fn build_measurement_frame(compensation: [u8; 6]) -> (frame: CommandFrame)
    ensures
        frame == measurement_frame(compensation),
        frame@ == seq![0x26u8, 0x19u8] + compensation@,
{
    let frame = CommandFrame { opcode: CMD_MEASURE_RAW_SIGNALS, compensation: Some(compensation) };
    frame
}

/// Why a response frame was rejected: `channel` is the first group of three
/// bytes whose checksum does not match its data, or that is cut short.
#[derive(Clone, Copy, Debug, PartialEq, Eq)]
pub struct ChecksumError {
    pub channel: usize,
}

/// The number of three-byte groups that a response touches, a trailing
/// partial group included.
pub open spec fn group_count(bytes: Seq<u8>) -> int {
    (bytes.len() as int + 2) / 3
}

/// Group `g` of a response is complete and its third byte is the checksum of
/// its first two.
pub open spec fn group_ok(bytes: Seq<u8>, g: int) -> bool {
    &&& 3 * g + 2 < bytes.len()
    &&& crc8(seq![bytes[3 * g], bytes[3 * g + 1]]) == bytes[3 * g + 2]
}

/// Every group of a response is complete and carries the right checksum.
pub open spec fn frame_valid(bytes: Seq<u8>) -> bool {
    forall|g: int| 0 <= g < group_count(bytes) ==> group_ok(bytes, g)
}

/// Group `g` is the first group of a response that is cut short or carries a
/// wrong checksum.
pub open spec fn is_first_bad_group(bytes: Seq<u8>, g: int) -> bool {
    &&& 0 <= g < group_count(bytes)
    &&& !group_ok(bytes, g)
    &&& forall|k: int| 0 <= k < g ==> group_ok(bytes, k)
}

/// The first bad group of a response that is not valid.
pub open spec fn first_bad_group(bytes: Seq<u8>) -> int {
    choose|g: int| is_first_bad_group(bytes, g)
}

/// A response has at most one first bad group.
pub proof fn first_bad_group_is_unique(bytes: Seq<u8>, g: int)
    requires
        is_first_bad_group(bytes, g),
    ensures
        first_bad_group(bytes) == g,
        !frame_valid(bytes),
{
}

/// The word that group `g` of a response carries.
pub open spec fn channel_value(bytes: Seq<u8>, g: int) -> u16 {
    be16(bytes[3 * g], bytes[3 * g + 1])
}

/// The words of a response, one for each complete group.
pub open spec fn channel_values(bytes: Seq<u8>) -> Seq<u16> {
    Seq::new((bytes.len() / 3) as nat, |g: int| channel_value(bytes, g))
}

/// A word on the wire reads back: its group is a valid response that
/// carries the word.
pub proof fn word_group_reads_back(word: u16)
    ensures
        frame_valid(word_group(word)),
        channel_values(word_group(word)) == seq![word],
{
}

/// The compensation block reads back: as a response it is valid and
/// carries the humidity ticks, then the temperature ticks.
pub proof fn compensation_block_reads_back(temp_ticks: u16, humidity_ticks: u16)
    ensures
        frame_valid(compensation_block(temp_ticks, humidity_ticks)@),
        channel_values(compensation_block(temp_ticks, humidity_ticks)@) == seq![
            humidity_ticks,
            temp_ticks,
        ],
{
}

/// A response whose length is no multiple of three is never valid.
pub proof fn cut_short_is_rejected(bytes: Seq<u8>)
    requires
        bytes.len() % 3 != 0,
    ensures
        !frame_valid(bytes),
{
    let g = bytes.len() as int / 3;
    assert(!group_ok(bytes, g));
}

/// Checks every group of a response and hands out the words it carries.
///
/// The whole frame is rejected at the first group that is cut short or whose
/// checksum does not match.
pub fn parse_response(bytes: &[u8]) -> (parsed: Result<Vec<u16>, ChecksumError>)
    ensures
        parsed is Ok <==> frame_valid(bytes@),
        parsed matches Ok(values) ==> values@ == channel_values(bytes@),
        parsed matches Err(e) ==> e.channel == first_bad_group(bytes@),
{
    let len = bytes.len();
    let mut values: Vec<u16> = Vec::new();
    let mut g: usize = 0;
    while g < len / 3
        invariant
            len == bytes@.len(),
            g <= len / 3,
            values@.len() == g,
            forall|k: int| 0 <= k < g ==> group_ok(bytes@, k),
            forall|k: int| 0 <= k < g ==> values@[k] == channel_value(bytes@, k),
        decreases len / 3 - g,
    {
        let hi = bytes[3 * g];
        let lo = bytes[3 * g + 1];
        let pair = [hi, lo];
        if calculate_crc(&pair) != bytes[3 * g + 2] {
            proof {
                first_bad_group_is_unique(bytes@, g as int);
            }
            return Err(ChecksumError { channel: g });
        }
        values.push(join_word(hi, lo));
        g = g + 1;
    }
    if len % 3 != 0 {
        proof {
            first_bad_group_is_unique(bytes@, g as int);
        }
        return Err(ChecksumError { channel: g });
    }
    Ok(values)
}

} // verus!

//! The three activities of the firmware as state machines.
//!
//! An activity never waits and never touches the bus, the timer, the queue
//! or the indicator. Each step takes the outcome of the action it asked for
//! last, decides, and hands out the next action. Whoever runs the activity
//! carries the action out and comes back with its outcome.

use vstd::prelude::*;
use crate::frame::{first_bad_group, frame_valid, parse_response, ChecksumError, CommandFrame};
use crate::led::LedCommand;
use crate::tasks::conditioning::ConditioningActivity;
use crate::tasks::sgp41_measurement::MeasurementActivity;

pub mod conditioning;
pub mod led;
pub mod sgp41_measurement;

verus! {

/// Milliseconds between writing a command and reading its response.
pub const CONVERSION_DELAY_MS: u64 = 50;

/// Milliseconds that end every cycle, a failed one too.
pub const CYCLE_PAUSE_MS: u64 = 1000;

/// What an activity asks its runner to do next.
#[derive(Clone, Copy, Debug, PartialEq, Eq)]
pub enum Action {
    /// Read the conditioning flag, with acquire ordering.
    Poll,
    /// Suspend for this many milliseconds.
    Sleep(u64),
    /// Take the bus, write the frame to the sensor, give the bus back.
    Write(CommandFrame),
    /// Take the bus, read this many bytes from the sensor, give the bus back.
    Read(usize),
    /// Queue the intent for the indicator, suspended while the queue is full.
    Send(LedCommand),
    /// Take the oldest intent from the queue, suspended while it is empty.
    Receive,
    /// Put the colour `(r, g, b)` on the indicator.
    SetColor(u8, u8, u8),
    /// Set the conditioning flag, with release ordering.
    Publish,
    /// Nothing is left to do: the activity has ended.
    Stop,
}

/// The outcome of the action that an activity asked for last.
#[derive(Debug, PartialEq, Eq)]
pub enum Event {
    /// The action was carried out; it has nothing to report.
    Done,
    /// The transport refused the write or the read.
    Failed,
    /// The bytes that were read from the sensor.
    Data(Vec<u8>),
    /// The conditioning flag as it was read.
    Flag(bool),
    /// The intent that was taken from the queue.
    Intent(LedCommand),
}

/// Whether the checksums of a response are looked at.
#[derive(Clone, Copy, Debug, PartialEq, Eq)]
pub enum ChecksumPolicy {
    /// The data bytes are used as they came; the checksum bytes are ignored.
    PassThrough,
    /// A response with a wrong checksum counts as a failed read.
    Enforce,
}

/// What a step has to tell besides its action: worth a line in a log.
#[derive(Clone, Copy, Debug, PartialEq, Eq)]
pub enum Report {
    /// Nothing to tell.
    Nothing,
    /// The command could not be written.
    WriteFailed,
    /// The response could not be read, or had the wrong length.
    ReadFailed,
    /// The response was read, and rejected for its checksum.
    ChecksumFailed(ChecksumError),
    /// A conditioning step gave this raw VOC signal; the post-processor made
    /// this index of it.
    Conditioned { voc_raw: u16, voc_index: i32 },
    /// A measurement gave these raw signals; the post-processors made these
    /// indices of them.
    Measured { voc_raw: u16, nox_raw: u16, voc_index: i32, nox_index: i32 },
}

impl Report {
    /// The report tells of a write or a read that came to nothing.
    pub open spec fn is_failure(self) -> bool {
        self is WriteFailed || self is ReadFailed || self is ChecksumFailed
    }
}

/// Why the outcome of a read of `len` bytes is turned down, if it is: any
/// outcome but data is a failed read, and so is data of another length;
/// where checksums are enforced, data that is not a valid frame is rejected
/// with its first bad group.
pub open spec fn read_rejection(policy: ChecksumPolicy, event: Event, len: nat) -> Option<Report> {
    match event {
        Event::Data(bytes) => if bytes@.len() != len {
            Some(Report::ReadFailed)
        } else if policy == ChecksumPolicy::Enforce && !frame_valid(bytes@) {
            Some(
                Report::ChecksumFailed(ChecksumError { channel: first_bad_group(bytes@) as usize }),
            )
        } else {
            None
        },
        _ => Some(Report::ReadFailed),
    }
}

/// To enforce checksums changes nothing for a response that is valid: it is
/// taken under either policy.
pub proof fn valid_response_is_taken(policy: ChecksumPolicy, bytes: Vec<u8>)
    requires
        frame_valid(bytes@),
    ensures
        read_rejection(policy, Event::Data(bytes), bytes@.len()) is None,
{
}

/// Where checksums pass through, every response of the right length is
/// taken, whatever its checksum bytes hold.
pub proof fn pass_through_takes_any_checksum(bytes: Vec<u8>)
    ensures
        read_rejection(ChecksumPolicy::PassThrough, Event::Data(bytes), bytes@.len()) is None,
{
}

/// Takes the bytes out of the outcome of a read of `len` bytes, or says why
/// the outcome is turned down.
pub fn take_response(policy: ChecksumPolicy, event: Event, len: usize) -> (taken: Result<
    Vec<u8>,
    Report,
>)
    ensures
        match read_rejection(policy, event, len as nat) {
            Some(rejection) => taken == Err::<Vec<u8>, Report>(rejection),
            None => taken is Ok && event == Event::Data(taken->Ok_0),
        },
{
    match event {
        Event::Data(bytes) => {
            if bytes.len() != len {
                return Err(Report::ReadFailed);
            }
            match policy {
                ChecksumPolicy::PassThrough => Ok(bytes),
                ChecksumPolicy::Enforce => match parse_response(bytes.as_slice()) {
                    Ok(_) => Ok(bytes),
                    Err(e) => Err(Report::ChecksumFailed(e)),
                },
            }
        },
        _ => Err(Report::ReadFailed),
    }
}

/// The two activities never meet on the bus, not even in the gap between
/// the write and the read of one transaction, where the bus is free for the
/// taking: as long as the flag is read as set only once the conditioning
/// activity has asked for it to be set, at most one of the two has a
/// transaction open, however their steps interleave.
pub proof fn activities_never_share_the_bus(
    conditioning: ConditioningActivity,
    steps: nat,
    measurement: MeasurementActivity,
    events: Seq<Event>,
)
    requires
        measurement.waiting_for_conditioning(),
        (exists|i: int| 0 <= i < events.len() && events[i] == Event::Flag(true))
            ==> conditioning.after(steps).published(),
    ensures
        !(conditioning.after(steps).in_transaction() && measurement.run(events).in_transaction()),
{
    if exists|i: int| 0 <= i < events.len() && events[i] == Event::Flag(true) {
    } else {
        measurement.never_starts_early(events);
    }
}

} // verus!

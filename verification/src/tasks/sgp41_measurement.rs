//! The measurement activity: what the firmware does for as long as it runs
//! once the sensor is warmed up.
//!
//! The activity polls the conditioning flag until it is set. From then on it
//! runs cycle after cycle: it writes the measurement command, waits for the
//! conversion, reads both raw signals, has the post-processors turn them
//! into indices, queues the colour that stands for the air quality, and
//! pauses. A write or a read that fails ends the cycle early: nothing
//! further is done in it but the pause, and the next cycle starts afresh.

use vstd::prelude::*;
use gas_index_algorithm::GasIndexAlgorithm;
use crate::{compensation_block, prepare_temp_hum_params};
use crate::frame::{build_measurement_frame, channel_value, join_word, measurement_frame};
use crate::gas_index::index_in_range;
use crate::led::LedCommand;
use crate::tasks::{
    read_rejection, take_response, Action, ChecksumPolicy, Event, Report, CONVERSION_DELAY_MS,
    CYCLE_PAUSE_MS,
};

verus! {

/// Milliseconds between two looks at the conditioning flag.
pub const POLL_INTERVAL_MS: u64 = 100;

/// The number of bytes in the response to a measurement command: the raw
/// VOC word, its checksum, the raw NOx word, its checksum.
pub const MEASUREMENT_RESPONSE_LEN: usize = 6;

/// The colour for a VOC index: red above 155, pink above 114, yellow above
/// 92, and a pale green for all below.
pub open spec fn voc_color(voc_index: i32) -> (u8, u8, u8) {
    if voc_index > 155 {
        (30, 0, 0)
    } else if voc_index > 114 {
        (30, 10, 20)
    } else if voc_index > 92 {
        (30, 30, 0)
    } else {
        (21, 27, 28)
    }
}

/// The colour for a pair of indices: magenta where the NOx index is above
/// 30, whatever the VOC index; else the colour for the VOC index.
pub open spec fn air_quality_color(voc_index: i32, nox_index: i32) -> (u8, u8, u8) {
    if nox_index > 30 {
        (30, 0, 30)
    } else {
        voc_color(voc_index)
    }
}

/// The intent for a pair of indices: a blink in their colour, its period
/// left to the indicator.
pub open spec fn air_quality_intent(voc_index: i32, nox_index: i32) -> LedCommand {
    let color = air_quality_color(voc_index, nox_index);
    LedCommand::Blink(color.0, color.1, color.2, None)
}

/// Chooses the intent that shows a pair of indices on the indicator.
pub fn indicate_air_quality(voc_index: i32, nox_index: i32) -> (intent: LedCommand)
    ensures
        intent == air_quality_intent(voc_index, nox_index),
{
    if nox_index > 30 {
        LedCommand::Blink(30, 0, 30, None)
    } else if voc_index > 155 {
        LedCommand::Blink(30, 0, 0, None)
    } else if voc_index > 114 {
        LedCommand::Blink(30, 10, 20, None)
    } else if voc_index > 92 {
        LedCommand::Blink(30, 30, 0, None)
    } else {
        LedCommand::Blink(21, 27, 28, None)
    }
}

/// Where the measurement activity stands: which action it asked for last.
#[derive(Clone, Copy, Debug, PartialEq, Eq)]
pub enum MeasurementPhase {
    /// Nothing was asked for yet.
    Idle,
    /// The conditioning flag is being read.
    Polling,
    /// The flag was not set: the wait before the next look.
    Waiting,
    /// The measurement command is being written.
    Writing,
    /// The sensor converts.
    Converting,
    /// The response is being read.
    Reading,
    /// The intent is on its way to the indicator.
    Sending,
    /// The pause that ends a cycle.
    Pausing,
}

/// The state of the measurement activity.
#[derive(Clone, Copy, Debug, PartialEq, Eq)]
pub struct MeasurementActivity {
    /// The action in flight.
    pub phase: MeasurementPhase,
    /// Ambient temperature for the sensor's compensation, in ticks.
    pub temp_ticks: u16,
    /// Ambient relative humidity for the sensor's compensation, in ticks.
    pub humidity_ticks: u16,
    /// Whether the checksums of a response are looked at.
    pub policy: ChecksumPolicy,
}

impl MeasurementActivity {
    /// The activity before its first step.
    pub open spec fn start(
        temp_ticks: u16,
        humidity_ticks: u16,
        policy: ChecksumPolicy,
    ) -> MeasurementActivity {
        MeasurementActivity { phase: MeasurementPhase::Idle, temp_ticks, humidity_ticks, policy }
    }

    /// The activity still waits for the sensor to be warmed up.
    pub open spec fn waiting_for_conditioning(self) -> bool {
        self.phase is Idle || self.phase is Polling || self.phase is Waiting
    }

    /// A transaction with the sensor is open: its command is being written,
    /// the sensor converts, or its response is being read.
    pub open spec fn in_transaction(self) -> bool {
        self.phase is Writing || self.phase is Converting || self.phase is Reading
    }

    /// The activity in another phase.
    pub open spec fn at(self, phase: MeasurementPhase) -> MeasurementActivity {
        MeasurementActivity { phase, ..self }
    }

    /// The command of every cycle, built from the activity's compensation.
    pub open spec fn command(self) -> Action {
        Action::Write(measurement_frame(compensation_block(self.temp_ticks, self.humidity_ticks)))
    }

    /// The outcome `event` of a read is taken as a response.
    pub open spec fn takes(self, event: Event) -> bool {
        read_rejection(self.policy, event, MEASUREMENT_RESPONSE_LEN as nat) is None
    }

    /// The state after the step that takes the outcome `event`.
    pub open spec fn next(self, event: Event) -> MeasurementActivity {
        match self.phase {
            MeasurementPhase::Idle | MeasurementPhase::Waiting => self.at(
                MeasurementPhase::Polling,
            ),
            MeasurementPhase::Polling => if event == Event::Flag(true) {
                self.at(MeasurementPhase::Writing)
            } else {
                self.at(MeasurementPhase::Waiting)
            },
            MeasurementPhase::Writing => if event is Done {
                self.at(MeasurementPhase::Converting)
            } else {
                self.at(MeasurementPhase::Pausing)
            },
            MeasurementPhase::Converting => self.at(MeasurementPhase::Reading),
            MeasurementPhase::Reading => if self.takes(event) {
                self.at(MeasurementPhase::Sending)
            } else {
                self.at(MeasurementPhase::Pausing)
            },
            MeasurementPhase::Sending => self.at(MeasurementPhase::Pausing),
            MeasurementPhase::Pausing => self.at(MeasurementPhase::Writing),
        }
    }

    /// What the step that takes the outcome `event` may report. A write
    /// failed unless it is done. Of a read that is taken, the raw VOC signal
    /// is the first word of the response and the raw NOx signal the second;
    /// the indices are what the post-processors made of them, of which only
    /// their range is known.
    pub open spec fn reports(self, event: Event, report: Report) -> bool {
        match self.phase {
            MeasurementPhase::Writing => report == if event is Done {
                Report::Nothing
            } else {
                Report::WriteFailed
            },
            MeasurementPhase::Reading => match read_rejection(
                self.policy,
                event,
                MEASUREMENT_RESPONSE_LEN as nat,
            ) {
                Some(rejection) => report == rejection,
                None => report matches Report::Measured { voc_raw, nox_raw, voc_index, nox_index }
                    && voc_raw == channel_value(event->Data_0@, 0)
                    && nox_raw == channel_value(event->Data_0@, 1)
                    && index_in_range(voc_index)
                    && index_in_range(nox_index),
            },
            _ => report == Report::Nothing,
        }
    }

    /// The action that the step asks for, given the outcome `event` that it
    /// takes and what it reports.
    pub open spec fn action(self, event: Event, report: Report) -> Action {
        match self.phase {
            MeasurementPhase::Idle | MeasurementPhase::Waiting => Action::Poll,
            MeasurementPhase::Polling => if event == Event::Flag(true) {
                self.command()
            } else {
                Action::Sleep(POLL_INTERVAL_MS)
            },
            MeasurementPhase::Writing => if event is Done {
                Action::Sleep(CONVERSION_DELAY_MS)
            } else {
                Action::Sleep(CYCLE_PAUSE_MS)
            },
            MeasurementPhase::Converting => Action::Read(MEASUREMENT_RESPONSE_LEN),
            MeasurementPhase::Reading => match report {
                Report::Measured { voc_index, nox_index, .. } => Action::Send(
                    air_quality_intent(voc_index, nox_index),
                ),
                _ => Action::Sleep(CYCLE_PAUSE_MS),
            },
            MeasurementPhase::Sending => Action::Sleep(CYCLE_PAUSE_MS),
            MeasurementPhase::Pausing => self.command(),
        }
    }

    /// The activity before its first step, with the compensation that every
    /// one of its commands will carry.
    pub fn new(temp_ticks: u16, humidity_ticks: u16, policy: ChecksumPolicy) -> (activity:
        MeasurementActivity)
        ensures
            activity == MeasurementActivity::start(temp_ticks, humidity_ticks, policy),
    {
        MeasurementActivity { phase: MeasurementPhase::Idle, temp_ticks, humidity_ticks, policy }
    }

    /// Builds the command of a cycle.
    fn build_command(&self) -> (action: Action)
        ensures
            action == self.command(),
    {
        let params = prepare_temp_hum_params(self.temp_ticks, self.humidity_ticks);
        Action::Write(build_measurement_frame(params))
    }
}

impl MeasurementActivity {
    /// The state after a run of steps that take the outcomes `events` in
    /// order.
    pub open spec fn run(self, events: Seq<Event>) -> MeasurementActivity
        decreases events.len(),
    {
        if events.len() == 0 {
            self
        } else {
            self.run(events.drop_last()).next(events.last())
        }
    }

    /// The measurement has no end, and the conditioning flag is not its to
    /// set: no step asks to stop or to publish.
    pub proof fn runs_for_ever(self, event: Event, report: Report)
        ensures
            self.action(event, report) != Action::Stop,
            self.action(event, report) != Action::Publish,
    {
    }

    /// While the activity waits for the sensor to be warmed up it asks for
    /// nothing but a look at the flag or the wait before the next look, and
    /// it goes on waiting, unless the step takes a flag that is set.
    pub proof fn waits_for_the_flag(self, event: Event, report: Report)
        requires
            self.waiting_for_conditioning(),
            event != Event::Flag(true),
        ensures
            self.next(event).waiting_for_conditioning(),
            self.action(event, report) == Action::Poll || self.action(event, report)
                == Action::Sleep(POLL_INTERVAL_MS),
    {
    }

    /// Measurement never starts before conditioning has finished: a run
    /// from the start in which no set flag was seen is still waiting.
    pub proof fn never_starts_early(self, events: Seq<Event>)
        requires
            self.waiting_for_conditioning(),
            forall|i: int| 0 <= i < events.len() ==> events[i] != Event::Flag(true),
        ensures
            self.run(events).waiting_for_conditioning(),
        decreases events.len(),
    {
        if events.len() > 0 {
            let earlier = events.drop_last();
            self.never_starts_early(earlier);
            self.run(earlier).waits_for_the_flag(events.last(), Report::Nothing);
        }
    }

    /// The first look at a set flag starts the first cycle with its
    /// command.
    pub proof fn starts_on_the_flag(self, report: Report)
        requires
            self.phase is Polling,
        ensures
            self.action(Event::Flag(true), report) == self.command(),
            self.next(Event::Flag(true)).phase is Writing,
    {
    }

    /// Nothing is tried again at once: the step that reports a failure asks
    /// for the pause of a full cycle.
    pub proof fn failure_is_paced(self, event: Event, report: Report)
        requires
            self.reports(event, report),
            report.is_failure(),
        ensures
            self.action(event, report) == Action::Sleep(CYCLE_PAUSE_MS),
    {
    }

    /// A write that fails ends its cycle: the step reports the failure and
    /// asks for the pause; the step after the pause asks for the command of
    /// the next cycle. No read and no intent lie between.
    pub proof fn failed_write_skips_the_cycle(
        self,
        failure: Event,
        report: Report,
        after_pause: Event,
        later_report: Report,
    )
        requires
            self.phase is Writing,
            !(failure is Done),
            self.reports(failure, report),
        ensures
            report == Report::WriteFailed,
            self.action(failure, report) == Action::Sleep(CYCLE_PAUSE_MS),
            self.next(failure).action(after_pause, later_report) == self.command(),
            self.next(failure).next(after_pause).phase is Writing,
    {
    }

    /// A read that fails, or whose response is turned down, ends its cycle
    /// in the same way: the step reports why and asks for the pause; the
    /// step after the pause asks for the command of the next cycle. No
    /// intent lies between.
    pub proof fn failed_read_skips_the_cycle(
        self,
        failure: Event,
        report: Report,
        after_pause: Event,
        later_report: Report,
    )
        requires
            self.phase is Reading,
            !self.takes(failure),
            self.reports(failure, report),
        ensures
            !(report is Measured),
            self.action(failure, report) == Action::Sleep(CYCLE_PAUSE_MS),
            self.next(failure).action(after_pause, later_report) == self.command(),
            self.next(failure).next(after_pause).phase is Writing,
    {
    }

    /// An intent is queued only in the step that takes a response, and it
    /// is the intent for the indices made of that very response.
    pub proof fn intent_comes_from_the_reading(self, event: Event, report: Report)
        requires
            self.reports(event, report),
            self.action(event, report) is Send,
        ensures
            self.phase is Reading,
            self.takes(event),
            report matches Report::Measured { voc_raw, nox_raw, voc_index, nox_index }
                && voc_raw == channel_value(event->Data_0@, 0)
                && nox_raw == channel_value(event->Data_0@, 1)
                && self.action(event, report) == Action::Send(
                air_quality_intent(voc_index, nox_index),
            ),
    {
    }

    /// What the steps of a cycle that meets no failure ask for, in order:
    /// the wait for the conversion, the read of both signals, the intent,
    /// the pause, and the command of the next cycle.
    pub proof fn cycle_runs_its_course(
        self,
        response: Event,
        report: Report,
        sent: Event,
        paused: Event,
    )
        requires
            self.phase is Writing,
            self.at(MeasurementPhase::Reading).takes(response),
            self.at(MeasurementPhase::Reading).reports(response, report),
        ensures
            ({
                let converting = self.next(Event::Done);
                let reading = converting.next(Event::Done);
                let sending = reading.next(response);
                let pausing = sending.next(sent);
                &&& self.action(Event::Done, Report::Nothing) == Action::Sleep(CONVERSION_DELAY_MS)
                &&& converting.action(Event::Done, Report::Nothing) == Action::Read(
                    MEASUREMENT_RESPONSE_LEN,
                )
                &&& reading.action(response, report) is Send
                &&& sending.action(sent, Report::Nothing) == Action::Sleep(CYCLE_PAUSE_MS)
                &&& pausing.action(paused, Report::Nothing) == self.command()
                &&& pausing.next(paused) == self
            }),
    {
    }
}

/// One step of the measurement activity: takes the outcome of the action
/// asked for last and hands out the next action, with what there is to
/// report.
///
/// Each post-processor is fed the raw signal of its channel from every
/// response that is taken, and is left alone otherwise.
pub fn sgp41_measurement_task(
    activity: &mut MeasurementActivity,
    event: Event,
    voc_algo: &mut GasIndexAlgorithm,
    nox_algo: &mut GasIndexAlgorithm,
) -> (step: (Action, Report))
    ensures
        *final(activity) == old(activity).next(event),
        old(activity).reports(event, step.1),
        step.0 == old(activity).action(event, step.1),
        !(step.1 is Measured) ==> *final(voc_algo) == *old(voc_algo) && *final(nox_algo) == *old(
            nox_algo,
        ),
{
    match activity.phase {
        MeasurementPhase::Idle | MeasurementPhase::Waiting => {
            activity.phase = MeasurementPhase::Polling;
            (Action::Poll, Report::Nothing)
        },
        MeasurementPhase::Polling => match event {
            Event::Flag(true) => {
                activity.phase = MeasurementPhase::Writing;
                (activity.build_command(), Report::Nothing)
            },
            _ => {
                activity.phase = MeasurementPhase::Waiting;
                (Action::Sleep(POLL_INTERVAL_MS), Report::Nothing)
            },
        },
        MeasurementPhase::Writing => match event {
            Event::Done => {
                activity.phase = MeasurementPhase::Converting;
                (Action::Sleep(CONVERSION_DELAY_MS), Report::Nothing)
            },
            _ => {
                activity.phase = MeasurementPhase::Pausing;
                (Action::Sleep(CYCLE_PAUSE_MS), Report::WriteFailed)
            },
        },
        MeasurementPhase::Converting => {
            activity.phase = MeasurementPhase::Reading;
            (Action::Read(MEASUREMENT_RESPONSE_LEN), Report::Nothing)
        },
        MeasurementPhase::Reading => match take_response(
            activity.policy,
            event,
            MEASUREMENT_RESPONSE_LEN,
        ) {
            Ok(bytes) => {
                let voc_raw = join_word(bytes[0], bytes[1]);
                let nox_raw = join_word(bytes[3], bytes[4]);
                let voc_index = voc_algo.process(voc_raw as i32);
                let nox_index = nox_algo.process(nox_raw as i32);
                activity.phase = MeasurementPhase::Sending;
                (
                    Action::Send(indicate_air_quality(voc_index, nox_index)),
                    Report::Measured { voc_raw, nox_raw, voc_index, nox_index },
                )
            },
            Err(rejection) => {
                activity.phase = MeasurementPhase::Pausing;
                (Action::Sleep(CYCLE_PAUSE_MS), rejection)
            },
        },
        MeasurementPhase::Sending => {
            activity.phase = MeasurementPhase::Pausing;
            (Action::Sleep(CYCLE_PAUSE_MS), Report::Nothing)
        },
        MeasurementPhase::Pausing => {
            activity.phase = MeasurementPhase::Writing;
            (activity.build_command(), Report::Nothing)
        },
    }
}

} // verus!

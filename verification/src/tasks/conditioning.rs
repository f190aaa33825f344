//! The conditioning activity: the warm-up that the sensor needs once after
//! power-up, before its readings count.
//!
//! The activity announces itself on the indicator and then runs a fixed
//! number of cycles. Each cycle signals the indicator, writes the
//! conditioning command, waits for the conversion, reads the raw VOC signal
//! and pauses. A write or a read that fails is reported and otherwise
//! passed over: the cycle runs on as if it had succeeded. After the last
//! cycle the activity signals the indicator, asks for the conditioning flag
//! to be set, and ends.

use vstd::prelude::*;
use gas_index_algorithm::GasIndexAlgorithm;
use crate::{compensation_block, prepare_temp_hum_params};
use crate::frame::{build_conditioning_frame, channel_value, conditioning_frame, join_word};
use crate::gas_index::index_in_range;
use crate::led::LedCommand;
use crate::tasks::{
    read_rejection, take_response, Action, ChecksumPolicy, Event, Report, CONVERSION_DELAY_MS,
    CYCLE_PAUSE_MS,
};

pub use crate::frame::{CMD_EXECUTE_CONDITIONING, CMD_MEASURE_RAW_SIGNALS, SGP41_ADDR};

verus! {

/// The usual number of cycles: ten, of about one second each.
pub const DEFAULT_CONDITIONING_CYCLES: u8 = 10;

/// The number of bytes in the response to a conditioning command: the raw
/// VOC word and its checksum.
pub const CONDITIONING_RESPONSE_LEN: usize = 3;

/// Where the conditioning activity stands: which action it asked for last.
#[derive(Clone, Copy, Debug, PartialEq, Eq)]
pub enum ConditioningPhase {
    /// Nothing was asked for yet.
    Idle,
    /// The intent that announces the warm-up is on its way.
    Announcing,
    /// The intent that opens a cycle is on its way.
    Signalling,
    /// The conditioning command is being written.
    Writing,
    /// The sensor converts.
    Converting,
    /// The response is being read.
    Reading,
    /// The pause that ends a cycle.
    Pausing,
    /// The intent that tells of the end of the warm-up is on its way.
    Completing,
    /// The conditioning flag is being set.
    Publishing,
    /// The activity has ended.
    Finished,
}

/// The state of the conditioning activity.
#[derive(Clone, Copy, Debug, PartialEq, Eq)]
pub struct ConditioningActivity {
    /// The action in flight.
    pub phase: ConditioningPhase,
    /// The cycle that is running, counted from 1; 0 before the first.
    pub cycle: u8,
    /// The number of cycles to run.
    pub cycles: u8,
    /// Ambient temperature for the sensor's compensation, in ticks.
    pub temp_ticks: u16,
    /// Ambient relative humidity for the sensor's compensation, in ticks.
    pub humidity_ticks: u16,
    /// Whether the checksum of a response is looked at.
    pub policy: ChecksumPolicy,
}

impl ConditioningActivity {
    /// The activity before its first step.
    pub open spec fn start(
        cycles: u8,
        temp_ticks: u16,
        humidity_ticks: u16,
        policy: ChecksumPolicy,
    ) -> ConditioningActivity {
        ConditioningActivity {
            phase: ConditioningPhase::Idle,
            cycle: 0,
            cycles,
            temp_ticks,
            humidity_ticks,
            policy,
        }
    }

    /// The activity has asked for the conditioning flag to be set.
    pub open spec fn published(self) -> bool {
        self.phase is Publishing || self.phase is Finished
    }

    /// A transaction with the sensor is open: its command is being written,
    /// the sensor converts, or its response is being read.
    pub open spec fn in_transaction(self) -> bool {
        self.phase is Writing || self.phase is Converting || self.phase is Reading
    }

    /// A cycle is still to come after the one that is running.
    pub open spec fn more_cycles(self) -> bool {
        self.cycle < self.cycles
    }

    /// The activity as it enters its next cycle.
    pub open spec fn enter_cycle(self) -> ConditioningActivity {
        ConditioningActivity {
            phase: ConditioningPhase::Signalling,
            cycle: (self.cycle + 1) as u8,
            ..self
        }
    }

    /// The activity in another phase.
    pub open spec fn at(self, phase: ConditioningPhase) -> ConditioningActivity {
        ConditioningActivity { phase, ..self }
    }

    /// The state after the next step. No outcome of an action changes the
    /// course of the warm-up.
    pub open spec fn next(self) -> ConditioningActivity {
        match self.phase {
            ConditioningPhase::Idle => self.at(ConditioningPhase::Announcing),
            ConditioningPhase::Announcing | ConditioningPhase::Pausing => if self.more_cycles() {
                self.enter_cycle()
            } else {
                self.at(ConditioningPhase::Completing)
            },
            ConditioningPhase::Signalling => self.at(ConditioningPhase::Writing),
            ConditioningPhase::Writing => self.at(ConditioningPhase::Converting),
            ConditioningPhase::Converting => self.at(ConditioningPhase::Reading),
            ConditioningPhase::Reading => self.at(ConditioningPhase::Pausing),
            ConditioningPhase::Completing => self.at(ConditioningPhase::Publishing),
            ConditioningPhase::Publishing | ConditioningPhase::Finished => self.at(
                ConditioningPhase::Finished,
            ),
        }
    }

    /// The action that the next step asks for.
    pub open spec fn action(self) -> Action {
        match self.phase {
            ConditioningPhase::Idle => Action::Send(LedCommand::Solid(30, 0, 0)),
            ConditioningPhase::Announcing | ConditioningPhase::Pausing => if self.more_cycles() {
                Action::Send(LedCommand::Solid(30, 0, 30))
            } else {
                Action::Send(LedCommand::Solid(0, 30, 0))
            },
            ConditioningPhase::Signalling => Action::Write(
                conditioning_frame(compensation_block(self.temp_ticks, self.humidity_ticks)),
            ),
            ConditioningPhase::Writing => Action::Sleep(CONVERSION_DELAY_MS),
            ConditioningPhase::Converting => Action::Read(CONDITIONING_RESPONSE_LEN),
            ConditioningPhase::Reading => Action::Sleep(CYCLE_PAUSE_MS),
            ConditioningPhase::Completing => Action::Publish,
            ConditioningPhase::Publishing | ConditioningPhase::Finished => Action::Stop,
        }
    }

    /// What the next step may report of the outcome `event`. A write failed
    /// unless it is done. Of a read that is taken, the raw VOC signal is the
    /// first word of the response; the index is what the post-processor made
    /// of it, of which only its range is known.
    pub open spec fn reports(self, event: Event, report: Report) -> bool {
        match self.phase {
            ConditioningPhase::Writing => report == if event is Done {
                Report::Nothing
            } else {
                Report::WriteFailed
            },
            ConditioningPhase::Reading => match read_rejection(
                self.policy,
                event,
                CONDITIONING_RESPONSE_LEN as nat,
            ) {
                Some(rejection) => report == rejection,
                None => report matches Report::Conditioned { voc_raw, voc_index }
                    && voc_raw == channel_value(event->Data_0@, 0) && index_in_range(voc_index),
            },
            _ => report == Report::Nothing,
        }
    }

    /// The activity before its first step: `duration_secs` cycles of about
    /// one second each, under the given compensation.
    pub fn new(
        duration_secs: u8,
        temp_ticks: u16,
        humidity_ticks: u16,
        policy: ChecksumPolicy,
    ) -> (activity: ConditioningActivity)
        ensures
            activity == ConditioningActivity::start(
                duration_secs,
                temp_ticks,
                humidity_ticks,
                policy,
            ),
    {
        ConditioningActivity {
            phase: ConditioningPhase::Idle,
            cycle: 0,
            cycles: duration_secs,
            temp_ticks,
            humidity_ticks,
            policy,
        }
    }

    /// Whether the activity has asked for the conditioning flag to be set.
    pub fn is_published(&self) -> (published: bool)
        ensures
            published == self.published(),
    {
        match self.phase {
            ConditioningPhase::Publishing | ConditioningPhase::Finished => true,
            _ => false,
        }
    }
}

/// The number of steps that a warm-up has taken when `cycles` of its cycles
/// are over: one to announce itself, and five for each cycle.
pub open spec fn steps_through(cycles: nat) -> nat {
    1 + 5 * cycles
}

impl ConditioningActivity {
    /// The state after `steps` more steps.
    pub open spec fn after(self, steps: nat) -> ConditioningActivity
        decreases steps,
    {
        if steps == 0 {
            self
        } else {
            self.after((steps - 1) as nat).next()
        }
    }

    /// Steps add up: `a` steps and then `b` steps are `a + b` steps.
    pub proof fn after_adds(self, a: nat, b: nat)
        ensures
            self.after(a + b) == self.after(a).after(b),
        decreases b,
    {
        if b > 0 {
            self.after_adds(a, (b - 1) as nat);
        }
    }

    /// The conditioning flag is set at most once and never taken back: once
    /// the activity has asked for it, it has asked for it in every later
    /// state, and it does not ask again.
    pub proof fn published_is_stable(self, steps: nat)
        requires
            self.published(),
        ensures
            self.after(steps).published(),
            self.after(steps).action() == Action::Stop,
        decreases steps,
    {
        if steps > 0 {
            self.published_is_stable((steps - 1) as nat);
        }
    }

    /// The activity sets the flag and never reads it.
    pub proof fn never_polls(self)
        ensures
            self.action() != Action::Poll,
    {
    }

    /// The activity asks for the flag in exactly the step that takes it from
    /// not published to published.
    pub proof fn publishes_on_the_turn(self)
        ensures
            self.action() == Action::Publish <==> !self.published() && self.next().published(),
    {
    }

    /// Nothing is tried again at once, and no failure ends the warm-up: the
    /// step that reports a failure asks for the wait that would have
    /// followed a success.
    pub proof fn failure_is_paced(self, event: Event, report: Report)
        requires
            self.reports(event, report),
            report.is_failure(),
        ensures
            self.action() is Sleep,
            !self.next().published(),
    {
    }

    /// Of any two steps of one run, at most one asks for the flag.
    pub proof fn publishes_once(self, first: nat, second: nat)
        requires
            first < second,
            self.after(first).action() == Action::Publish,
        ensures
            self.after(second).action() != Action::Publish,
    {
        let turned = self.after(first).next();
        self.after_adds(first + 1, (second - first - 1) as nat);
        turned.published_is_stable((second - first - 1) as nat);
    }

    /// What the steps of a cycle ask for, in order, whatever comes of them:
    /// the intent that opens the cycle, the conditioning command, the wait
    /// for the conversion, the read of the response, and the pause. A cycle
    /// so takes 1050 milliseconds of waiting, failed or not.
    pub proof fn cycle_runs_its_course(self)
        requires
            self.phase is Announcing || self.phase is Pausing,
            self.more_cycles(),
        ensures
            self.action() == Action::Send(LedCommand::Solid(30, 0, 30)),
            self.after(1).action() == Action::Write(
                conditioning_frame(compensation_block(self.temp_ticks, self.humidity_ticks)),
            ),
            self.after(2).action() == Action::Sleep(50),
            self.after(3).action() == Action::Read(3),
            self.after(4).action() == Action::Sleep(1000),
            self.after(5) == self.enter_cycle().at(ConditioningPhase::Pausing),
    {
        reveal_with_fuel(ConditioningActivity::after, 6);
    }

    /// Where a warm-up of `cycles` cycles stands once `done` of them have
    /// run: in the pause of that cycle, or still announcing itself.
    proof fn cycles_run(
        cycles: u8,
        temp_ticks: u16,
        humidity_ticks: u16,
        policy: ChecksumPolicy,
        done: nat,
    )
        requires
            done <= cycles,
        ensures
            ConditioningActivity::start(cycles, temp_ticks, humidity_ticks, policy).after(
                steps_through(done),
            ) == (ConditioningActivity {
                phase: if done == 0 {
                    ConditioningPhase::Announcing
                } else {
                    ConditioningPhase::Pausing
                },
                cycle: done as u8,
                cycles,
                temp_ticks,
                humidity_ticks,
                policy,
            }),
        decreases done,
    {
        let start = ConditioningActivity::start(cycles, temp_ticks, humidity_ticks, policy);
        if done == 0 {
            reveal_with_fuel(ConditioningActivity::after, 2);
        } else {
            let before = (done - 1) as nat;
            ConditioningActivity::cycles_run(cycles, temp_ticks, humidity_ticks, policy, before);
            let entry = start.after(steps_through(before));
            entry.cycle_runs_its_course();
            start.after_adds(steps_through(before), 5);
        }
    }

    /// A warm-up of `cycles` cycles ends. It announces itself, runs its
    /// cycles, and then, in this order, signals the end on the indicator,
    /// asks for the conditioning flag, and stops: the flag is asked for in
    /// step `5 * cycles + 3`, and in no step before.
    pub proof fn warm_up_ends(
        cycles: u8,
        temp_ticks: u16,
        humidity_ticks: u16,
        policy: ChecksumPolicy,
    )
        ensures
            ({
                let start = ConditioningActivity::start(cycles, temp_ticks, humidity_ticks, policy);
                let last = steps_through(cycles as nat);
                &&& start.after(last).action() == Action::Send(LedCommand::Solid(0, 30, 0))
                &&& start.after(last + 1).action() == Action::Publish
                &&& start.after(last + 2).action() == Action::Stop
                &&& start.after(last + 2).published()
                &&& forall|k: nat| k <= last ==> !start.after(k).published()
            }),
    {
        let start = ConditioningActivity::start(cycles, temp_ticks, humidity_ticks, policy);
        let last = steps_through(cycles as nat);
        ConditioningActivity::cycles_run(cycles, temp_ticks, humidity_ticks, policy, cycles as nat);
        let end = start.after(last);
        assert(end.after(2).published() && end.after(1).action() == Action::Publish
            && end.after(2).action() == Action::Stop) by {
            reveal_with_fuel(ConditioningActivity::after, 3);
        }
        start.after_adds(last, 1);
        start.after_adds(last, 2);
        assert forall|k: nat| k <= last implies !start.after(k).published() by {
            if start.after(k).published() {
                start.after_adds(k, (last - k) as nat);
                start.after(k).published_is_stable((last - k) as nat);
            }
        }
    }
}

/// One step of the conditioning activity: takes the outcome of the action
/// asked for last and hands out the next action, with what there is to
/// report.
///
/// The post-processor is fed the raw VOC signal of every response that is
/// taken, and is left alone otherwise.
pub fn sgp41_conditioning_task(
    activity: &mut ConditioningActivity,
    event: Event,
    voc_algo: &mut GasIndexAlgorithm,
) -> (step: (Action, Report))
    ensures
        *final(activity) == old(activity).next(),
        step.0 == old(activity).action(),
        old(activity).reports(event, step.1),
        !(step.1 is Conditioned) ==> *final(voc_algo) == *old(voc_algo),
{
    match activity.phase {
        ConditioningPhase::Idle => {
            activity.phase = ConditioningPhase::Announcing;
            (Action::Send(LedCommand::Solid(30, 0, 0)), Report::Nothing)
        },
        ConditioningPhase::Announcing | ConditioningPhase::Pausing => {
            if activity.cycle < activity.cycles {
                activity.cycle = activity.cycle + 1;
                activity.phase = ConditioningPhase::Signalling;
                (Action::Send(LedCommand::Solid(30, 0, 30)), Report::Nothing)
            } else {
                activity.phase = ConditioningPhase::Completing;
                (Action::Send(LedCommand::Solid(0, 30, 0)), Report::Nothing)
            }
        },
        ConditioningPhase::Signalling => {
            let params = prepare_temp_hum_params(activity.temp_ticks, activity.humidity_ticks);
            activity.phase = ConditioningPhase::Writing;
            (Action::Write(build_conditioning_frame(params)), Report::Nothing)
        },
        ConditioningPhase::Writing => {
            let report = match event {
                Event::Done => Report::Nothing,
                _ => Report::WriteFailed,
            };
            activity.phase = ConditioningPhase::Converting;
            (Action::Sleep(CONVERSION_DELAY_MS), report)
        },
        ConditioningPhase::Converting => {
            activity.phase = ConditioningPhase::Reading;
            (Action::Read(CONDITIONING_RESPONSE_LEN), Report::Nothing)
        },
        ConditioningPhase::Reading => {
            let report = match take_response(activity.policy, event, CONDITIONING_RESPONSE_LEN) {
                Ok(bytes) => {
                    let voc_raw = join_word(bytes[0], bytes[1]);
                    let voc_index = voc_algo.process(voc_raw as i32);
                    Report::Conditioned { voc_raw, voc_index }
                },
                Err(rejection) => rejection,
            };
            activity.phase = ConditioningPhase::Pausing;
            (Action::Sleep(CYCLE_PAUSE_MS), report)
        },
        ConditioningPhase::Completing => {
            activity.phase = ConditioningPhase::Publishing;
            (Action::Publish, Report::Nothing)
        },
        ConditioningPhase::Publishing | ConditioningPhase::Finished => {
            activity.phase = ConditioningPhase::Finished;
            (Action::Stop, Report::Nothing)
        },
    }
}

} // verus!

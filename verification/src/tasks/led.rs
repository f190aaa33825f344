//! The indicator activity: the one consumer of the queue of intents.
//!
//! The activity takes one intent at a time and carries it out on the
//! indicator before it takes the next. A solid colour is shown at once. A
//! blink turns the indicator dark, waits for the blink's period, and shows
//! the colour once: it does not repeat.

use vstd::prelude::*;
use crate::led::LedCommand;
use crate::tasks::{Action, Event};

verus! {

/// The period, in milliseconds, of a blink that names none.
pub const DEFAULT_BLINK_PERIOD_MS: u16 = 300;

/// The number of intents that the queue between the activities holds.
pub const LED_QUEUE_CAPACITY: usize = 4;

/// Where the indicator activity stands: which action it asked for last.
#[derive(Clone, Copy, Debug, PartialEq, Eq)]
pub enum IndicatorActivity {
    /// Nothing was asked for yet.
    Idle,
    /// The next intent is being taken from the queue.
    Receiving,
    /// The indicator is being turned dark for a blink in the colour
    /// `(r, g, b)` with this period in milliseconds.
    Darkening(u8, u8, u8, u16),
    /// The dark part of a blink in the colour `(r, g, b)`.
    Holding(u8, u8, u8),
    /// The colour of an intent is being shown.
    Showing,
}

/// The period of a blink, in milliseconds.
pub open spec fn blink_period(period_ms: Option<u16>) -> u16 {
    match period_ms {
        Some(ms) => ms,
        None => DEFAULT_BLINK_PERIOD_MS,
    }
}

impl IndicatorActivity {
    /// The state after the step that takes the outcome `event`.
    pub open spec fn next(self, event: Event) -> IndicatorActivity {
        match self {
            IndicatorActivity::Idle | IndicatorActivity::Showing => IndicatorActivity::Receiving,
            IndicatorActivity::Receiving => match event {
                Event::Intent(LedCommand::Solid(_, _, _)) => IndicatorActivity::Showing,
                Event::Intent(LedCommand::Blink(r, g, b, period_ms)) => {
                    IndicatorActivity::Darkening(r, g, b, blink_period(period_ms))
                },
                _ => IndicatorActivity::Receiving,
            },
            IndicatorActivity::Darkening(r, g, b, _) => IndicatorActivity::Holding(r, g, b),
            IndicatorActivity::Holding(_, _, _) => IndicatorActivity::Showing,
        }
    }

    /// The action that the step asks for, given the outcome `event` that it
    /// takes.
    pub open spec fn action(self, event: Event) -> Action {
        match self {
            IndicatorActivity::Idle | IndicatorActivity::Showing => Action::Receive,
            IndicatorActivity::Receiving => match event {
                Event::Intent(LedCommand::Solid(r, g, b)) => Action::SetColor(r, g, b),
                Event::Intent(LedCommand::Blink(_, _, _, _)) => Action::SetColor(0, 0, 0),
                _ => Action::Receive,
            },
            IndicatorActivity::Darkening(_, _, _, period_ms) => Action::Sleep(period_ms as u64),
            IndicatorActivity::Holding(r, g, b) => Action::SetColor(r, g, b),
        }
    }

    /// The activity before its first step.
    pub fn new() -> (activity: IndicatorActivity)
        ensures
            activity == IndicatorActivity::Idle,
    {
        IndicatorActivity::Idle
    }
}

impl IndicatorActivity {
    /// The activity is between two intents: it has asked for the next one,
    /// or will do so in its next step.
    pub open spec fn at_rest(self) -> bool {
        self is Idle || self is Showing || self is Receiving
    }

    /// A solid intent is carried out in one step: its colour is shown, and
    /// the step after that asks for the next intent.
    pub proof fn solid_is_shown(r: u8, g: u8, b: u8, shown: Event)
        ensures
            ({
                let intent = Event::Intent(LedCommand::Solid(r, g, b));
                let showing = IndicatorActivity::Receiving.next(intent);
                &&& IndicatorActivity::Receiving.action(intent) == Action::SetColor(r, g, b)
                &&& showing.action(shown) == Action::Receive
                &&& showing.next(shown) == IndicatorActivity::Receiving
            }),
    {
    }

    /// A blink is carried out in three steps and once only: the indicator
    /// goes dark, stays dark for the blink's period, 300 milliseconds where
    /// it names none, and then shows the colour. The step after that asks
    /// for the next intent, whatever came of the steps before.
    pub proof fn blink_is_single_shot(
        r: u8,
        g: u8,
        b: u8,
        period_ms: Option<u16>,
        darkened: Event,
        waited: Event,
        shown: Event,
    )
        ensures
            ({
                let intent = Event::Intent(LedCommand::Blink(r, g, b, period_ms));
                let darkening = IndicatorActivity::Receiving.next(intent);
                let holding = darkening.next(darkened);
                let showing = holding.next(waited);
                &&& IndicatorActivity::Receiving.action(intent) == Action::SetColor(0, 0, 0)
                &&& darkening.action(darkened) == Action::Sleep(blink_period(period_ms) as u64)
                &&& holding.action(waited) == Action::SetColor(r, g, b)
                &&& showing.action(shown) == Action::Receive
                &&& showing.next(shown) == IndicatorActivity::Receiving
                &&& (period_ms is None ==> blink_period(period_ms) == 300)
            }),
    {
    }

    /// The indicator has no end and keeps off the bus and the flag: every
    /// step asks for an intent, a colour or a wait.
    pub proof fn only_drives_the_indicator(self, event: Event)
        ensures
            self.action(event) is Receive || self.action(event) is SetColor || self.action(
                event,
            ) is Sleep,
    {
    }

    /// The activity takes one intent at a time: it asks for an intent only
    /// when the one before is carried out in full.
    pub proof fn one_intent_at_a_time(self, event: Event)
        requires
            self.action(event) == Action::Receive,
        ensures
            self.at_rest(),
            self.next(event) == IndicatorActivity::Receiving,
    {
    }
}

/// One step of the indicator activity: takes the outcome of the action
/// asked for last and hands out the next action.
///
/// An outcome that brings no intent where one was asked for has the
/// activity ask again.
pub fn led_task(activity: &mut IndicatorActivity, event: Event) -> (action: Action)
    ensures
        *final(activity) == old(activity).next(event),
        action == old(activity).action(event),
{
    match *activity {
        IndicatorActivity::Idle | IndicatorActivity::Showing => {
            *activity = IndicatorActivity::Receiving;
            Action::Receive
        },
        IndicatorActivity::Receiving => match event {
            Event::Intent(LedCommand::Solid(r, g, b)) => {
                *activity = IndicatorActivity::Showing;
                Action::SetColor(r, g, b)
            },
            Event::Intent(LedCommand::Blink(r, g, b, period_ms)) => {
                let period = match period_ms {
                    Some(ms) => ms,
                    None => DEFAULT_BLINK_PERIOD_MS,
                };
                *activity = IndicatorActivity::Darkening(r, g, b, period);
                Action::SetColor(0, 0, 0)
            },
            _ => Action::Receive,
        },
        IndicatorActivity::Darkening(r, g, b, period_ms) => {
            *activity = IndicatorActivity::Holding(r, g, b);
            Action::Sleep(period_ms as u64)
        },
        IndicatorActivity::Holding(r, g, b) => {
            *activity = IndicatorActivity::Showing;
            Action::SetColor(r, g, b)
        },
    }
}

} // verus!

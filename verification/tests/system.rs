use embassy_sync::blocking_mutex::raw::NoopRawMutex;
use embassy_sync::channel::{Channel, TrySendError};
use embassy_sync::mutex::Mutex;
use esp_sgp41_voc_nox::gas_index::{INDEX_MAX, INDEX_MIN};
use esp_sgp41_voc_nox::led::LedCommand;
use esp_sgp41_voc_nox::tasks::conditioning::{
    sgp41_conditioning_task, ConditioningActivity, ConditioningPhase,
};
use esp_sgp41_voc_nox::tasks::led::{led_task, IndicatorActivity, LED_QUEUE_CAPACITY};
use esp_sgp41_voc_nox::tasks::sgp41_measurement::{
    sgp41_measurement_task, MeasurementActivity, MeasurementPhase,
};
use esp_sgp41_voc_nox::tasks::{Action, ChecksumPolicy, Event, Report};
use gas_index_algorithm::{AlgorithmType, GasIndexAlgorithm};

type Queue = Channel<NoopRawMutex, LedCommand, LED_QUEUE_CAPACITY>;

/// A transport that keeps a record of what crosses it.
struct Transport {
    log: Vec<(char, Vec<u8>)>,
}

/// A small generator of pseudo-random numbers, the same on every run.
struct Dice(u32);

impl Dice {
    fn roll(&mut self, sides: u32) -> u32 {
        self.0 = self.0.wrapping_mul(1664525).wrapping_add(1013904223);
        (self.0 >> 16) % sides
    }
}

fn conditioning_on_bus(activity: &ConditioningActivity) -> bool {
    matches!(
        activity.phase,
        ConditioningPhase::Writing | ConditioningPhase::Converting | ConditioningPhase::Reading
    )
}

fn measurement_on_bus(activity: &MeasurementActivity) -> bool {
    matches!(
        activity.phase,
        MeasurementPhase::Writing | MeasurementPhase::Converting | MeasurementPhase::Reading
    )
}

/// Carries out an action of a sensor activity. A send that finds the queue
/// full and a bus that is taken give `None`: the activity has to wait.
fn perform(
    who: char,
    action: Action,
    bus: &Mutex<NoopRawMutex, Transport>,
    queue: &Queue,
    flag: &mut bool,
) -> Option<Event> {
    match action {
        Action::Poll => Some(Event::Flag(*flag)),
        Action::Publish => {
            *flag = true;
            Some(Event::Done)
        }
        Action::Write(frame) => {
            let mut transport = bus.try_lock().ok()?;
            transport.log.push((who, frame.to_bytes()));
            Some(Event::Done)
        }
        Action::Read(len) => {
            let mut transport = bus.try_lock().ok()?;
            transport.log.push((who, vec![]));
            let response = [0x76, 0xF1, 0x53, 0x3A, 0x98, 0x00];
            Some(Event::Data(response[..len].to_vec()))
        }
        Action::Send(intent) => match queue.try_send(intent) {
            Ok(()) => Some(Event::Done),
            Err(TrySendError::Full(_)) => None,
        },
        _ => Some(Event::Done),
    }
}

#[test]
fn queue_of_four_holds_back_the_fifth_intent() {
    let queue = Queue::new();
    for i in 0..4u8 {
        assert_eq!(queue.try_send(LedCommand::Solid(i, 0, 0)), Ok(()));
    }
    let fifth = LedCommand::Blink(4, 0, 0, None);
    assert_eq!(queue.try_send(fifth), Err(TrySendError::Full(fifth)));
    assert_eq!(queue.try_receive(), Ok(LedCommand::Solid(0, 0, 0)));
    assert_eq!(queue.try_send(fifth), Ok(()));
    assert_eq!(queue.try_receive(), Ok(LedCommand::Solid(1, 0, 0)));
    assert_eq!(queue.try_receive(), Ok(LedCommand::Solid(2, 0, 0)));
    assert_eq!(queue.try_receive(), Ok(LedCommand::Solid(3, 0, 0)));
    assert_eq!(queue.try_receive(), Ok(fifth));
    assert!(queue.try_receive().is_err());
}

#[test]
fn bus_is_held_by_one_at_a_time() {
    let bus = Mutex::<NoopRawMutex, Transport>::new(Transport { log: Vec::new() });
    let held = bus.try_lock().unwrap();
    assert!(bus.try_lock().is_err());
    drop(held);
    assert!(bus.try_lock().is_ok());
}

#[test]
fn activities_never_meet_on_the_bus_and_no_intent_is_lost() {
    for seed in 0..20 {
        let mut dice = Dice(seed);
        let bus = Mutex::<NoopRawMutex, Transport>::new(Transport { log: Vec::new() });
        let queue = Queue::new();
        let mut flag = false;
        let mut voc = GasIndexAlgorithm::new(AlgorithmType::Voc, 1.0);
        let mut nox = GasIndexAlgorithm::new(AlgorithmType::Nox, 1.0);

        let mut conditioning =
            ConditioningActivity::new(3, 0x6666, 0x7FFF, ChecksumPolicy::Enforce);
        let mut measurement =
            MeasurementActivity::new(0x6666, 0x7FFF, ChecksumPolicy::PassThrough);
        let mut indicator = IndicatorActivity::new();
        let mut conditioning_pending: Option<Action> = None;
        let mut measurement_pending: Option<Action> = None;
        let mut conditioning_event = Some(Event::Done);
        let mut measurement_event = Some(Event::Done);
        let mut indicator_event = Some(Event::Done);
        let mut conditioning_over = false;

        let mut sent = Vec::new();
        let mut shown = Vec::new();
        let mut expected = Vec::new();
        let mut flags_seen = Vec::new();

        for _ in 0..3000 {
            match dice.roll(3) {
                0 if !conditioning_over => {
                    if let Some(event) = conditioning_event.take() {
                        let (action, _) =
                            sgp41_conditioning_task(&mut conditioning, event, &mut voc);
                        conditioning_over = action == Action::Stop;
                        conditioning_pending = Some(action);
                    }
                    if let Some(action) = conditioning_pending {
                        conditioning_event = perform('c', action, &bus, &queue, &mut flag);
                        if conditioning_event.is_some() {
                            conditioning_pending = None;
                            if let Action::Send(intent) = action {
                                sent.push(intent);
                            }
                        }
                    }
                }
                1 => {
                    if let Some(event) = measurement_event.take() {
                        let (action, report) =
                            sgp41_measurement_task(&mut measurement, event, &mut voc, &mut nox);
                        if let Report::Measured { voc_index, nox_index, .. } = report {
                            assert!(INDEX_MIN <= voc_index && voc_index <= INDEX_MAX);
                            assert!(INDEX_MIN <= nox_index && nox_index <= INDEX_MAX);
                        }
                        measurement_pending = Some(action);
                    }
                    if let Some(action) = measurement_pending {
                        measurement_event = perform('m', action, &bus, &queue, &mut flag);
                        if measurement_event.is_some() {
                            measurement_pending = None;
                            if let Action::Send(intent) = action {
                                sent.push(intent);
                            }
                        }
                    }
                }
                _ => {
                    // The indicator is slow: it gets a turn in four.
                    if dice.roll(4) == 0 {
                        let event = indicator_event.take().unwrap();
                        indicator_event = Some(match led_task(&mut indicator, event) {
                            Action::Receive => match queue.try_receive() {
                                Ok(intent) => {
                                    match intent {
                                        LedCommand::Solid(r, g, b) => expected.push((r, g, b)),
                                        LedCommand::Blink(r, g, b, _) => {
                                            expected.push((0, 0, 0));
                                            expected.push((r, g, b));
                                        }
                                    }
                                    Event::Intent(intent)
                                }
                                Err(_) => Event::Done,
                            },
                            Action::SetColor(r, g, b) => {
                                shown.push((r, g, b));
                                Event::Done
                            }
                            _ => Event::Done,
                        });
                    }
                }
            }
            assert!(!(conditioning_on_bus(&conditioning) && measurement_on_bus(&measurement)));
            flags_seen.push(flag);
            assert_eq!(flag, conditioning.is_published());
        }

        // The flag went from clear to set once and stayed.
        let first = flags_seen.iter().position(|f| *f).unwrap();
        assert!(flags_seen[first..].iter().all(|f| *f));

        // On the bus, all of the warm-up came before all of the measurement.
        let log = &bus.try_lock().unwrap().log;
        let last_conditioning = log.iter().rposition(|entry| entry.0 == 'c').unwrap();
        let first_measurement = log.iter().position(|entry| entry.0 == 'm').unwrap();
        assert!(last_conditioning < first_measurement);
        assert_eq!(last_conditioning + 1, 6);

        // Every intent that was sent is shown or still waits, in order.
        let mut waiting = Vec::new();
        while let Ok(intent) = queue.try_receive() {
            waiting.push(intent);
        }
        assert!(waiting.len() <= LED_QUEUE_CAPACITY);
        let taken = sent.len() - waiting.len();
        assert_eq!(&sent[taken..], &waiting[..]);
        assert!(taken > 5);
        assert!(expected.starts_with(&shown));
        assert!(shown.len() + 2 >= expected.len());
        assert_eq!(&sent[..5], &[
            LedCommand::Solid(30, 0, 0),
            LedCommand::Solid(30, 0, 30),
            LedCommand::Solid(30, 0, 30),
            LedCommand::Solid(30, 0, 30),
            LedCommand::Solid(0, 30, 0),
        ]);
    }
}

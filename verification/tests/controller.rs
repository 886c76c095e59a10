use duty_cycle::controller::STANDARD_CLOCK_POLL_LIMIT;
use duty_cycle::{
    Action, Config, ConfigError, ConnectivityState, DeliveryQuality, DutyCycleController, Event,
    Labels, Measurement, Mode, Phase, PublishOutcome, Reading,
};
use std::collections::VecDeque;

const SLOT_START: u64 = 1_736_340_300;
const SLOT: u64 = 1_929_267;

fn labels() -> Labels {
    Labels { base_topic: String::from("home/indoor"), source_id: String::from("DHT11_Indoor") }
}

fn single_shot() -> Config {
    let mode = Mode::SingleShot { clock_poll_limit: STANDARD_CLOCK_POLL_LIMIT };
    Config::standard(mode, labels())
}

fn continuous() -> Config {
    Config::standard(Mode::Continuous, labels())
}

/// Stubs for everything outside the controller, with a clock that moves
/// only when the controller pauses.
struct World {
    now: u64,
    millis: u64,
    boots: bool,
    connects: VecDeque<bool>,
    liveness: VecDeque<Option<bool>>,
    sensor: VecDeque<Option<Reading>>,
    publisher: VecDeque<Result<(), i32>>,
    actions: Vec<Action>,
    published: Vec<Measurement>,
    sensor_calls: u32,
}

impl World {
    fn at(now: u64) -> World {
        World {
            now,
            millis: 0,
            boots: true,
            connects: VecDeque::new(),
            liveness: VecDeque::new(),
            sensor: VecDeque::new(),
            publisher: VecDeque::new(),
            actions: Vec::new(),
            published: Vec::new(),
            sensor_calls: 0,
        }
    }

    fn pass(&mut self, millis: u32) {
        self.millis += u64::from(millis);
        self.now += self.millis / 1000;
        self.millis %= 1000;
    }

    /// Performs one action and notes it; `None` for the actions that
    /// nothing follows, which are not noted.
    fn perform(&mut self, action: &Action) -> Option<Event> {
        if !matches!(action, Action::Suspend { .. } | Action::Restart { .. } | Action::Abort) {
            self.actions.push(action.clone());
        }
        match action {
            Action::Initialize => Some(Event::Initialized(self.boots)),
            Action::Pause { millis } => {
                self.pass(*millis);
                Some(Event::Done)
            }
            Action::Connect => Some(Event::Connected(self.connects.pop_front().unwrap_or(true))),
            Action::CheckLiveness => {
                Some(Event::Liveness(self.liveness.pop_front().unwrap_or(Some(true))))
            }
            Action::CycleRadio { settle_millis } => {
                self.pass(*settle_millis);
                Some(Event::Done)
            }
            Action::Reconnect => Some(Event::Done),
            Action::ReadSensor => {
                self.sensor_calls += 1;
                Some(Event::Sample(self.sensor.pop_front().unwrap_or(None)))
            }
            Action::Publish(measurement) => {
                self.published.push(measurement.clone());
                Some(Event::Published(self.publisher.pop_front().unwrap_or(Ok(()))))
            }
            Action::Suspend { .. } | Action::Restart { .. } | Action::Abort => None,
        }
    }

    /// Runs the controller until it names an action that nothing follows,
    /// or until `stop` holds of the action that it names; returns that
    /// action.
    fn run(
        &mut self,
        controller: &mut DutyCycleController,
        stop: &dyn Fn(&World, &Action) -> bool,
    ) -> Action {
        let mut action = controller.pending();
        for _ in 0..100_000 {
            if stop(self, &action) {
                return action;
            }
            match self.perform(&action) {
                Some(event) => {
                    action = controller.step(self.now, event);
                    assert_eq!(action, controller.pending());
                }
                None => {
                    assert!(controller.is_finished());
                    return action;
                }
            }
        }
        panic!("the controller did not come to rest");
    }

    fn run_to_end(&mut self, controller: &mut DutyCycleController) -> Action {
        self.run(controller, &|_, _| false)
    }
}

fn temp(value: &str, quality: DeliveryQuality) -> Measurement {
    Measurement {
        topic: String::from("home/indoor/Temp"),
        payload: format!("{{\"id\": \"DHT11_Indoor\", \"Temp\": {}}}", value).into_bytes(),
        quality,
        retain: false,
    }
}

fn humidity(value: &str, quality: DeliveryQuality) -> Measurement {
    Measurement {
        topic: String::from("home/indoor/Humidity"),
        payload: format!("{{\"id\": \"DHT11_Indoor\", \"Humidity\": {}}}", value).into_bytes(),
        quality,
        retain: false,
    }
}

#[test]
fn standard_configuration() {
    let config = continuous();
    assert_eq!(config.mode, Mode::Continuous);
    assert_eq!(STANDARD_CLOCK_POLL_LIMIT, 15);
    assert_eq!(config.interval_seconds, 900);
    assert_eq!(config.window_seconds, 60);
    assert_eq!(config.min_plausible_epoch, 1_736_340_000);
    assert_eq!(config.sensor_attempts, 5);
    assert_eq!(config.recovery.handshake_limit, 10);
    assert_eq!(config.recovery.cycle_every, 5);
    assert_eq!(config.recovery.ceiling, 20);
    assert_eq!(config.timing.clock_poll_millis, 2000);
    assert_eq!(config.timing.connect_retry_millis, 5000);
    assert_eq!(config.timing.restart_grace_millis, 3000);
    assert_eq!(config.timing.settle_millis, 1000);
    assert_eq!(config.timing.backoff_millis, 5000);
    assert_eq!(config.timing.sensor_retry_millis, 2000);
    assert_eq!(config.timing.flush_millis, 2000);
    assert_eq!(config.timing.tick_millis, 1000);
    assert_eq!(config.quality, DeliveryQuality::AtLeastOnce);
    assert!(!config.retain);
    assert_eq!(config.labels, labels());
}

#[test]
fn zero_interval_is_refused() {
    let mut config = continuous();
    config.interval_seconds = 0;
    assert_eq!(DutyCycleController::new(config).err(), Some(ConfigError::ZeroInterval));
}

#[test]
fn backoff_below_settle_is_refused() {
    let mut config = continuous();
    config.timing.backoff_millis = 999;
    assert_eq!(DutyCycleController::new(config).err(), Some(ConfigError::BackoffBelowSettle));
    let mut both = continuous();
    both.timing.backoff_millis = 0;
    both.interval_seconds = 0;
    assert_eq!(DutyCycleController::new(both).err(), Some(ConfigError::ZeroInterval));
    let mut equal = continuous();
    equal.timing.backoff_millis = 1000;
    assert!(DutyCycleController::new(equal).is_ok());
}

#[test]
fn controller_boots_unserviced_and_down() {
    let controller = DutyCycleController::new(single_shot()).unwrap();
    assert_eq!(controller.phase(), Phase::Booting);
    assert_eq!(controller.pending(), Action::Initialize);
    assert_eq!(controller.last_serviced_slot(), 0);
    assert_eq!(controller.connectivity(), ConnectivityState::Down);
    assert_eq!(controller.mode(), Mode::SingleShot { clock_poll_limit: 15 });
    assert!(!controller.is_finished());
    assert!(controller.outcomes().is_empty());
}

#[test]
fn single_shot_samples_publishes_and_sleeps() {
    for quality in [DeliveryQuality::AtMostOnce, DeliveryQuality::AtLeastOnce] {
        let mut config = single_shot();
        config.quality = quality;
        config.timing.sensor_retry_millis = 0;
        config.timing.flush_millis = 0;
        let mut controller = DutyCycleController::new(config).unwrap();
        let mut world = World::at(SLOT_START + 10);
        world.sensor = VecDeque::from(vec![None, Some(Reading::new(215, 480))]);
        let last = world.run_to_end(&mut controller);
        assert_eq!(last, Action::Suspend { seconds: 890 });
        assert_eq!(
            world.actions,
            vec![
                Action::Initialize,
                Action::Connect,
                Action::ReadSensor,
                Action::Pause { millis: 0 },
                Action::ReadSensor,
                Action::Publish(temp("21.5", quality)),
                Action::Publish(humidity("48.0", quality)),
                Action::Pause { millis: 0 },
            ]
        );
        assert_eq!(world.sensor_calls, 2);
        assert_eq!(controller.sensor_attempts_made(), 2);
        assert_eq!(
            controller.outcomes().clone(),
            vec![PublishOutcome::Delivered, PublishOutcome::Delivered]
        );
        assert_eq!(controller.last_serviced_slot(), SLOT);
        assert_eq!(controller.phase(), Phase::Suspended { seconds: 890 });
    }
}

#[test]
fn single_shot_sleep_allows_for_the_time_spent() {
    let mut controller = DutyCycleController::new(single_shot()).unwrap();
    let mut world = World::at(SLOT_START + 10);
    world.sensor = VecDeque::from(vec![None, Some(Reading::new(215, 480))]);
    let last = world.run_to_end(&mut controller);
    assert_eq!(world.now, SLOT_START + 14);
    assert_eq!(last, Action::Suspend { seconds: 886 });
    assert_eq!(
        world.published,
        vec![
            temp("21.5", DeliveryQuality::AtLeastOnce),
            humidity("48.0", DeliveryQuality::AtLeastOnce)
        ]
    );
}

#[test]
fn single_shot_past_the_window_sleeps_at_once() {
    let mut controller = DutyCycleController::new(single_shot()).unwrap();
    let mut world = World::at(SLOT_START + 60);
    let last = world.run_to_end(&mut controller);
    assert_eq!(last, Action::Suspend { seconds: 840 });
    assert_eq!(world.actions, vec![Action::Initialize, Action::Connect]);
    assert_eq!(world.sensor_calls, 0);
    assert!(world.published.is_empty());
    assert_eq!(controller.last_serviced_slot(), SLOT);
}

#[test]
fn single_shot_on_the_boundary_samples() {
    let mut controller = DutyCycleController::new(single_shot()).unwrap();
    let mut world = World::at(SLOT_START);
    world.sensor = VecDeque::from(vec![Some(Reading::new(200, 500))]);
    let last = world.run_to_end(&mut controller);
    assert_eq!(world.sensor_calls, 1);
    assert_eq!(world.published.len(), 2);
    assert_eq!(last, Action::Suspend { seconds: 898 });
}

#[test]
fn single_shot_sensor_exhaustion_still_sleeps() {
    let mut controller = DutyCycleController::new(single_shot()).unwrap();
    let mut world = World::at(SLOT_START + 10);
    let last = world.run_to_end(&mut controller);
    assert_eq!(world.sensor_calls, 5);
    assert!(world.published.is_empty());
    assert_eq!(world.now, SLOT_START + 18);
    assert_eq!(last, Action::Suspend { seconds: 882 });
    assert_eq!(controller.last_serviced_slot(), SLOT);
    assert_eq!(
        world.actions.iter().filter(|a| **a == Action::Pause { millis: 2000 }).count(),
        4
    );
}

#[test]
fn single_shot_publish_failures_still_sleep() {
    let mut controller = DutyCycleController::new(single_shot()).unwrap();
    let mut world = World::at(SLOT_START + 10);
    world.sensor = VecDeque::from(vec![Some(Reading::new(215, 480))]);
    world.publisher = VecDeque::from(vec![Err(-1), Err(-2)]);
    let last = world.run_to_end(&mut controller);
    assert_eq!(world.published.len(), 2);
    assert_eq!(
        controller.outcomes().clone(),
        vec![PublishOutcome::Failed(-1), PublishOutcome::Failed(-2)]
    );
    assert_eq!(last, Action::Suspend { seconds: 888 });
    assert_eq!(controller.last_serviced_slot(), SLOT);
}

#[test]
fn first_publish_fails_second_is_delivered() {
    let mut controller = DutyCycleController::new(single_shot()).unwrap();
    let mut world = World::at(SLOT_START + 10);
    world.sensor = VecDeque::from(vec![Some(Reading::new(215, 480))]);
    world.publisher = VecDeque::from(vec![Err(-1), Ok(())]);
    world.run_to_end(&mut controller);
    assert_eq!(world.published.len(), 2);
    assert_eq!(
        controller.outcomes().clone(),
        vec![PublishOutcome::Failed(-1), PublishOutcome::Delivered]
    );
}

#[test]
fn single_shot_bounds_the_wait_for_the_clock() {
    let mut controller = DutyCycleController::new(single_shot()).unwrap();
    let mut world = World::at(1000);
    let last = world.run_to_end(&mut controller);
    assert_eq!(last, Action::Suspend { seconds: 900 });
    let pauses = world.actions.iter().filter(|a| **a == Action::Pause { millis: 2000 }).count();
    assert_eq!(pauses, 14);
    assert_eq!(world.actions.len(), 15);
    assert_eq!(world.sensor_calls, 0);
    assert_eq!(controller.last_serviced_slot(), 0);
}

#[test]
fn clock_that_synchronises_while_waiting() {
    let mut controller = DutyCycleController::new(single_shot()).unwrap();
    let mut world = World::at(1000);
    let pause = Action::Pause { millis: 2000 };
    assert_eq!(controller.step(world.now, Event::Initialized(true)), pause);
    assert_eq!(controller.phase(), Phase::SyncingClock);
    assert_eq!(controller.step(1002, Event::Done), Action::Pause { millis: 2000 });
    assert_eq!(controller.step(SLOT_START + 3, Event::Done), Action::Connect);
    assert_eq!(controller.phase(), Phase::ConnectingNetwork);
    assert_eq!(controller.connectivity(), ConnectivityState::Connecting);
    world.now = SLOT_START + 3;
    world.sensor = VecDeque::from(vec![Some(Reading::new(215, 480))]);
    let last = world.run_to_end(&mut controller);
    assert_eq!(last, Action::Suspend { seconds: 895 });
    assert_eq!(world.published.len(), 2);
}

#[test]
fn continuous_waits_for_the_clock_without_bound() {
    let mut controller = DutyCycleController::new(continuous()).unwrap();
    let mut world = World::at(1000);
    let stopped = world.run(&mut controller, &|world, _| world.actions.len() >= 5000);
    assert_eq!(stopped, Action::Pause { millis: 2000 });
    assert_eq!(controller.phase(), Phase::SyncingClock);
}

#[test]
fn boot_failure_aborts() {
    for config in [single_shot(), continuous()] {
        let mut controller = DutyCycleController::new(config).unwrap();
        let mut world = World::at(SLOT_START);
        world.boots = false;
        assert_eq!(world.run_to_end(&mut controller), Action::Abort);
        assert_eq!(controller.phase(), Phase::Failed);
        assert_eq!(world.actions, vec![Action::Initialize]);
    }
}

#[test]
fn tenth_failed_handshake_restarts() {
    for config in [single_shot(), continuous()] {
        let mut controller = DutyCycleController::new(config).unwrap();
        let mut world = World::at(SLOT_START);
        world.connects = VecDeque::from(vec![false; 10]);
        let last = world.run_to_end(&mut controller);
        assert_eq!(last, Action::Restart { grace_millis: 3000 });
        assert_eq!(world.actions.iter().filter(|a| **a == Action::Connect).count(), 10);
        assert_eq!(
            world.actions.iter().filter(|a| **a == Action::Pause { millis: 5000 }).count(),
            9
        );
        assert_eq!(controller.connectivity(), ConnectivityState::Down);
    }
}

#[test]
fn handshake_that_succeeds_at_last() {
    let mut controller = DutyCycleController::new(single_shot()).unwrap();
    let mut world = World::at(SLOT_START);
    let mut connects = vec![false; 9];
    connects.push(true);
    world.connects = VecDeque::from(connects);
    world.sensor = VecDeque::from(vec![Some(Reading::new(215, 480))]);
    let last = world.run_to_end(&mut controller);
    assert_eq!(world.now, SLOT_START + 47);
    assert_eq!(last, Action::Suspend { seconds: 853 });
    assert_eq!(world.published.len(), 2);
}

#[test]
fn continuous_boot_past_the_window_marks_the_slot_and_waits_for_the_next() {
    let mut controller = DutyCycleController::new(continuous()).unwrap();
    let mut world = World::at(SLOT_START + 500);
    world.sensor = VecDeque::from(vec![Some(Reading::new(215, 480))]);

    let first_rest =
        world.run(&mut controller, &|_, action| *action == Action::Pause { millis: 1000 });
    assert_eq!(first_rest, Action::Pause { millis: 1000 });
    assert_eq!(
        world.actions,
        vec![Action::Initialize, Action::Connect, Action::CheckLiveness]
    );
    assert_eq!(controller.last_serviced_slot(), SLOT);
    assert_eq!(controller.phase(), Phase::Resting);
    assert_eq!(world.sensor_calls, 0);

    let sampling = world.run(&mut controller, &|_, action| *action == Action::ReadSensor);
    assert_eq!(sampling, Action::ReadSensor);
    assert_eq!(world.now, SLOT_START + 900);
    assert!(world.published.is_empty());
    assert_eq!(controller.last_serviced_slot(), SLOT);

    world.run(&mut controller, &|world, _| world.now >= SLOT_START + 1799);
    assert_eq!(world.sensor_calls, 1);
    assert_eq!(world.published.len(), 2);
    assert_eq!(controller.last_serviced_slot(), SLOT + 1);
}

#[test]
fn continuous_services_each_slot_once() {
    let mut controller = DutyCycleController::new(continuous()).unwrap();
    let mut world = World::at(SLOT_START - 5);
    world.sensor = VecDeque::from(vec![Some(Reading::new(215, 480)); 10]);
    world.run(&mut controller, &|world, _| world.now >= SLOT_START + 3 * 900 - 1);
    assert_eq!(world.sensor_calls, 3);
    assert_eq!(world.published.len(), 6);
    assert_eq!(controller.last_serviced_slot(), SLOT + 2);
}

#[test]
fn continuous_sensor_exhaustion_marks_the_slot() {
    let mut controller = DutyCycleController::new(continuous()).unwrap();
    let mut world = World::at(SLOT_START);
    world.run(&mut controller, &|world, _| world.now >= SLOT_START + 899);
    assert_eq!(world.sensor_calls, 5);
    assert!(world.published.is_empty());
    assert_eq!(controller.last_serviced_slot(), SLOT);
}

#[test]
fn connectivity_loss_recovers_cycles_and_escalates() {
    let mut controller = DutyCycleController::new(continuous()).unwrap();
    let mut world = World::at(SLOT_START + 100);
    let mut liveness = vec![Some(true)];
    liveness.extend(vec![Some(false); 30]);
    world.liveness = VecDeque::from(liveness);
    let last = world.run_to_end(&mut controller);
    assert_eq!(last, Action::Restart { grace_millis: 0 });

    let mut expected = vec![
        Action::Initialize,
        Action::Connect,
        Action::CheckLiveness,
        Action::Pause { millis: 1000 },
    ];
    for attempt in 1..=20 {
        expected.push(Action::CheckLiveness);
        if attempt % 5 == 0 {
            expected.push(Action::CycleRadio { settle_millis: 1000 });
        }
        expected.push(Action::Reconnect);
        expected.push(Action::Pause { millis: 5000 });
    }
    expected.push(Action::CheckLiveness);
    assert_eq!(world.actions, expected);
    assert_eq!(controller.reconnect_attempt_count(), 20);
    assert_eq!(controller.connectivity(), ConnectivityState::Down);
    assert_eq!(world.sensor_calls, 0);
}

#[test]
fn restored_connectivity_resets_the_attempts() {
    let mut controller = DutyCycleController::new(continuous()).unwrap();
    let mut world = World::at(SLOT_START + 100);
    let mut liveness = vec![Some(false); 20];
    liveness.push(Some(true));
    liveness.extend(vec![Some(false); 20]);
    liveness.push(Some(true));
    world.liveness = VecDeque::from(liveness);
    world.run(&mut controller, &|world, _| world.liveness.is_empty());
    assert_eq!(controller.reconnect_attempt_count(), 0);
    assert_eq!(controller.connectivity(), ConnectivityState::Up);
    assert!(!controller.is_finished());
}

#[test]
fn recovery_takes_the_tick_even_inside_the_window() {
    let mut controller = DutyCycleController::new(continuous()).unwrap();
    let mut world = World::at(SLOT_START);
    world.liveness = VecDeque::from(vec![Some(false), Some(true)]);
    world.sensor = VecDeque::from(vec![Some(Reading::new(215, 480))]);
    let sampling = world.run(&mut controller, &|_, action| *action == Action::ReadSensor);
    assert_eq!(sampling, Action::ReadSensor);
    assert_eq!(
        world.actions,
        vec![
            Action::Initialize,
            Action::Connect,
            Action::CheckLiveness,
            Action::Reconnect,
            Action::Pause { millis: 5000 },
            Action::CheckLiveness,
        ]
    );
    assert_eq!(world.now, SLOT_START + 5);
}

#[test]
fn unanswered_liveness_check_goes_by_what_was_known() {
    let mut controller = DutyCycleController::new(continuous()).unwrap();
    let mut world = World::at(SLOT_START);
    world.liveness = VecDeque::from(vec![None]);
    let sampling = world.run(&mut controller, &|_, action| *action == Action::ReadSensor);
    assert_eq!(sampling, Action::ReadSensor);
    assert_eq!(controller.connectivity(), ConnectivityState::Up);

    let mut down = DutyCycleController::new(continuous()).unwrap();
    let mut world = World::at(SLOT_START);
    world.liveness = VecDeque::from(vec![Some(false), None]);
    world.run(&mut down, &|world, _| world.liveness.is_empty());
    assert_eq!(down.pending(), Action::Pause { millis: 1000 });
    assert_eq!(down.connectivity(), ConnectivityState::Connecting);
    assert_eq!(world.sensor_calls, 0);
    assert_eq!(down.last_serviced_slot(), 0);
}

#[test]
fn stray_events_are_dropped() {
    let mut controller = DutyCycleController::new(continuous()).unwrap();
    let strays = [
        Event::Done,
        Event::Connected(true),
        Event::Liveness(Some(true)),
        Event::Sample(Some(Reading::new(1, 2))),
        Event::Published(Ok(())),
    ];
    for stray in strays {
        assert_eq!(controller.step(SLOT_START, stray), Action::Initialize);
        assert_eq!(controller.phase(), Phase::Booting);
    }
    assert_eq!(controller.step(SLOT_START, Event::Initialized(true)), Action::Connect);
    assert_eq!(controller.step(SLOT_START, Event::Initialized(true)), Action::Connect);
    assert_eq!(controller.step(SLOT_START, Event::Connected(true)), Action::CheckLiveness);
    assert_eq!(controller.step(SLOT_START, Event::Liveness(Some(true))), Action::ReadSensor);
    assert_eq!(controller.step(SLOT_START, Event::Published(Ok(()))), Action::ReadSensor);
    assert_eq!(controller.sensor_attempts_made(), 0);
    let publish = controller.step(SLOT_START, Event::Sample(Some(Reading::new(215, 480))));
    assert_eq!(publish, Action::Publish(temp("21.5", DeliveryQuality::AtLeastOnce)));
    assert_eq!(controller.step(SLOT_START, Event::Done), publish);
    assert!(controller.outcomes().is_empty());
}

#[test]
fn final_phases_take_no_event() {
    let mut controller = DutyCycleController::new(single_shot()).unwrap();
    let mut world = World::at(SLOT_START + 60);
    let last = world.run_to_end(&mut controller);
    for event in [Event::Done, Event::Initialized(true), Event::Connected(true)] {
        assert_eq!(controller.step(SLOT_START + 2000, event), last);
    }
    assert!(controller.is_finished());
    assert!(Phase::Failed.is_terminal());
    assert!(Phase::Restarting { grace_millis: 0 }.is_terminal());
    assert!(!Phase::Resting.is_terminal());
    assert!(Phase::Publishing.is_in_service());
    assert!(!Phase::Idle.is_in_service());
}

#[test]
fn untrusted_clock_decides_nothing() {
    let mut controller = DutyCycleController::new(continuous()).unwrap();
    assert_eq!(controller.step(SLOT_START, Event::Initialized(true)), Action::Connect);
    assert_eq!(controller.step(SLOT_START, Event::Connected(true)), Action::CheckLiveness);
    assert_eq!(controller.step(900, Event::Liveness(Some(true))), Action::Pause { millis: 1000 });
    assert_eq!(controller.last_serviced_slot(), 0);
    assert_eq!(controller.step(900, Event::Done), Action::CheckLiveness);
    assert_eq!(controller.step(SLOT_START + 1, Event::Liveness(Some(true))), Action::ReadSensor);
}

#[test]
fn no_sensor_attempts_allowed_marks_the_slot_without_a_call() {
    let mut config = single_shot();
    config.sensor_attempts = 0;
    let mut controller = DutyCycleController::new(config).unwrap();
    let mut world = World::at(SLOT_START + 10);
    let last = world.run_to_end(&mut controller);
    assert_eq!(last, Action::Suspend { seconds: 890 });
    assert_eq!(world.sensor_calls, 0);
    assert_eq!(controller.last_serviced_slot(), SLOT);
}

#[test]
fn outcomes_belong_to_the_slot_last_taken_in_hand() {
    let mut controller = DutyCycleController::new(continuous()).unwrap();
    let mut world = World::at(SLOT_START);
    world.sensor = VecDeque::from(vec![Some(Reading::new(215, 480))]);
    world.publisher = VecDeque::from(vec![Ok(()), Err(-7)]);
    world.run(&mut controller, &|world, _| world.now >= SLOT_START + 899);
    assert_eq!(
        controller.outcomes().clone(),
        vec![PublishOutcome::Delivered, PublishOutcome::Failed(-7)]
    );
    assert_eq!(controller.sensor_attempts_made(), 1);
    world.run(&mut controller, &|world, _| world.now >= SLOT_START + 1799);
    assert!(controller.outcomes().is_empty());
    assert_eq!(controller.sensor_attempts_made(), 5);
    assert_eq!(world.sensor_calls, 6);
    assert_eq!(world.published.len(), 2);
    assert_eq!(controller.last_serviced_slot(), SLOT + 1);
}

//! The duty-cycle controller: one state machine that takes the node from
//! boot through clock synchronisation and connecting to sampling and
//! publishing once per cadence slot, and then to sleep.
//!
//! The controller performs nothing itself. It names the next [`Action`]; the
//! caller performs it and hands back the [`Event`] that tells how it went,
//! together with the wall-clock time at that moment.

use crate::clock::{ClockAnchor, ClockWait, SyncVerdict, MIN_PLAUSIBLE_EPOCH};
use crate::connectivity::{
    ConnectVerdict,
    ConnectivityState,
    ConnectivitySupervisor,
    RecoveryPolicy,
    RecoveryStep,
};
use crate::publish::{
    measurements_for,
    measurements_of,
    outcome_of,
    DeliveryQuality,
    Labels,
    LabelsView,
    Measurement,
    MeasurementView,
    PipelineView,
    PublishOutcome,
    PublishPipeline,
};
use crate::sensor::{AcquireStep, SensorAcquisition, Reading};
use crate::slot::{serviceable, SlotDecision, SlotScheduler};
use vstd::prelude::*;

verus! {

/// How the node spends the time between two slots.
#[derive(Clone, Copy, Debug, PartialEq, Eq, Structural)]
pub enum Mode {
    /// Wake, sample, publish, and suspend the whole process until the next
    /// slot. The wait for the clock gives up at the `clock_poll_limit`-th
    /// untrusted reading.
    SingleShot { clock_poll_limit: u32 },
    /// Connect once and stay awake, looking for the next slot at each tick.
    /// The wait for the clock is unbounded.
    Continuous,
}

/// The bound on the wait for the clock that goes with the standard pauses:
/// half a minute of looking every two seconds.
pub const STANDARD_CLOCK_POLL_LIMIT: u32 = 15;

/// The pauses of the cycle, in milliseconds.
#[derive(Clone, Copy, Debug, PartialEq, Eq, Structural)]
pub struct Timing {
    /// Between two looks at a clock that is not trusted yet.
    pub clock_poll_millis: u32,
    /// Between a failed handshake and the next.
    pub connect_retry_millis: u32,
    /// Before the restart that follows the last failed handshake.
    pub restart_grace_millis: u32,
    /// Between stopping and starting the radio stack when it is cycled.
    pub settle_millis: u32,
    /// After a request to reconnect, before liveness is checked again.
    pub backoff_millis: u32,
    /// Between a failed reading of the sensor and the next.
    pub sensor_retry_millis: u32,
    /// After the last message of a slot, for the publisher to send it.
    pub flush_millis: u32,
    /// Between two ticks in continuous mode.
    pub tick_millis: u32,
}

/// Everything that is fixed when the controller is made.
#[derive(Clone, Debug)]
pub struct Config {
    pub mode: Mode,
    pub interval_seconds: u64,
    pub window_seconds: u64,
    pub min_plausible_epoch: u64,
    pub sensor_attempts: u32,
    pub recovery: RecoveryPolicy,
    pub timing: Timing,
    pub quality: DeliveryQuality,
    pub retain: bool,
    pub labels: Labels,
}

/// A configuration as plain values.
pub struct ConfigView {
    pub mode: Mode,
    pub interval_seconds: u64,
    pub window_seconds: u64,
    pub min_plausible_epoch: u64,
    pub sensor_attempts: u32,
    pub recovery: RecoveryPolicy,
    pub timing: Timing,
    pub quality: DeliveryQuality,
    pub retain: bool,
    pub labels: LabelsView,
}

impl View for Config {
    type V = ConfigView;

    open spec fn view(&self) -> ConfigView {
        ConfigView {
            mode: self.mode,
            interval_seconds: self.interval_seconds,
            window_seconds: self.window_seconds,
            min_plausible_epoch: self.min_plausible_epoch,
            sensor_attempts: self.sensor_attempts,
            recovery: self.recovery,
            timing: self.timing,
            quality: self.quality,
            retain: self.retain,
            labels: self.labels@,
        }
    }
}

/// A fifteen-minute cadence with a window of one minute, five readings of
/// the sensor two seconds apart, ten handshakes five seconds apart, recovery
/// that cycles the radio at every fifth attempt and escalates after the
/// twentieth, and acknowledged delivery without retention.
pub open spec fn standard_config(mode: Mode, labels: LabelsView) -> ConfigView {
    ConfigView {
        mode,
        interval_seconds: 900,
        window_seconds: 60,
        min_plausible_epoch: MIN_PLAUSIBLE_EPOCH,
        sensor_attempts: 5,
        recovery: RecoveryPolicy { handshake_limit: 10, cycle_every: 5, ceiling: 20 },
        timing: Timing {
            clock_poll_millis: 2000,
            connect_retry_millis: 5000,
            restart_grace_millis: 3000,
            settle_millis: 1000,
            backoff_millis: 5000,
            sensor_retry_millis: 2000,
            flush_millis: 2000,
            tick_millis: 1000,
        },
        quality: DeliveryQuality::AtLeastOnce,
        retain: false,
        labels,
    }
}

impl Config {
    /// The standard configuration for the given mode and labels.
    pub fn standard(mode: Mode, labels: Labels) -> (config: Config)
        ensures
            config@ == standard_config(mode, labels@),
    {
        Config {
            mode,
            interval_seconds: 900,
            window_seconds: 60,
            min_plausible_epoch: MIN_PLAUSIBLE_EPOCH,
            sensor_attempts: 5,
            recovery: RecoveryPolicy { handshake_limit: 10, cycle_every: 5, ceiling: 20 },
            timing: Timing {
                clock_poll_millis: 2000,
                connect_retry_millis: 5000,
                restart_grace_millis: 3000,
                settle_millis: 1000,
                backoff_millis: 5000,
                sensor_retry_millis: 2000,
                flush_millis: 2000,
                tick_millis: 1000,
            },
            quality: DeliveryQuality::AtLeastOnce,
            retain: false,
            labels,
        }
    }
}

/// Why a configuration was refused.
#[derive(Clone, Copy, Debug, PartialEq, Eq, Structural)]
pub enum ConfigError {
    /// An interval of zero seconds has no slots.
    ZeroInterval,
    /// The pause after a reconnect request is shorter than the time that
    /// the radio stack is given to settle.
    BackoffBelowSettle,
}

impl ConfigView {
    /// What is wrong with the configuration, if anything.
    pub open spec fn fault(self) -> Option<ConfigError> {
        if self.interval_seconds == 0 {
            Some(ConfigError::ZeroInterval)
        } else if self.timing.backoff_millis < self.timing.settle_millis {
            Some(ConfigError::BackoffBelowSettle)
        } else {
            None
        }
    }
}

/// Where the controller stands. Each phase waits for the answer to one
/// action.
#[derive(Clone, Copy, Debug, PartialEq, Eq, Structural)]
pub enum Phase {
    /// Peripherals and services are being brought up.
    Booting,
    /// The clock is not trusted yet; pausing before the next look.
    SyncingClock,
    /// A handshake with the network is under way.
    ConnectingNetwork,
    /// The last handshake failed; pausing before the next.
    ConnectBackoff,
    /// Continuous mode, at the top of a tick: liveness is being checked.
    Idle,
    /// Recovery: the radio stack is being cycled.
    CyclingRadio,
    /// Recovery: a reconnect is being asked for.
    Reconnecting,
    /// Recovery: pausing before liveness is checked again.
    RecoveryBackoff,
    /// The sensor is being read.
    Sampling,
    /// The last reading failed; pausing before the next.
    SampleBackoff,
    /// The messages of the slot are being published, then flushed.
    Publishing,
    /// Continuous mode: pausing until the next tick.
    Resting,
    /// The process is to be suspended for this many seconds. Final.
    Suspended { seconds: u64 },
    /// The process is to be restarted after this pause. Final.
    Restarting { grace_millis: u32 },
    /// Bringing up the peripherals failed. Final.
    Failed,
}

impl Phase {
    /// The slot in hand is being sampled or published.
    pub open spec fn in_service(self) -> bool {
        self is Sampling || self is SampleBackoff || self is Publishing
    }

    /// Nothing follows this phase.
    pub open spec fn terminal(self) -> bool {
        self is Suspended || self is Restarting || self is Failed
    }

    /// The phase belongs to the loop of continuous mode.
    pub open spec fn continuous_only(self) -> bool {
        self is Idle || self is CyclingRadio || self is Reconnecting || self is RecoveryBackoff
            || self is Resting
    }

    pub fn is_in_service(&self) -> (in_service: bool)
        ensures
            in_service == self.in_service(),
    {
        match self {
            Phase::Sampling | Phase::SampleBackoff | Phase::Publishing => true,
            _ => false,
        }
    }

    pub fn is_terminal(&self) -> (terminal: bool)
        ensures
            terminal == self.terminal(),
    {
        match self {
            Phase::Suspended { .. } | Phase::Restarting { .. } | Phase::Failed => true,
            _ => false,
        }
    }
}

/// What the caller is to do next.
#[derive(Clone, Debug, PartialEq, Eq)]
pub enum Action {
    /// Bring up the peripherals, the sensor and the publisher. Answered by
    /// `Initialized`.
    Initialize,
    /// Do nothing for so long. Answered by `Done`.
    Pause { millis: u32 },
    /// Associate with the network and wait until it is ready. Answered by
    /// `Connected`.
    Connect,
    /// Ask the network whether it is up, without blocking. Answered by
    /// `Liveness`.
    CheckLiveness,
    /// Stop the radio stack, pause, start it. Answered by `Done`.
    CycleRadio { settle_millis: u32 },
    /// Ask for a reconnect without waiting for it. Answered by `Done`.
    Reconnect,
    /// Read the sensor once. Answered by `Sample`.
    ReadSensor,
    /// Hand this message to the publisher. Answered by `Published`.
    Publish(Measurement),
    /// Suspend the process for so many seconds. Nothing follows.
    Suspend { seconds: u64 },
    /// Restart the process after the pause. Nothing follows.
    Restart { grace_millis: u32 },
    /// Give up with the failure of bringing up the peripherals. Nothing
    /// follows.
    Abort,
}

/// An action as plain values.
pub enum ActionView {
    Initialize,
    Pause { millis: u32 },
    Connect,
    CheckLiveness,
    CycleRadio { settle_millis: u32 },
    Reconnect,
    ReadSensor,
    Publish(MeasurementView),
    Suspend { seconds: u64 },
    Restart { grace_millis: u32 },
    Abort,
}

impl View for Action {
    type V = ActionView;

    open spec fn view(&self) -> ActionView {
        match self {
            Action::Initialize => ActionView::Initialize,
            Action::Pause { millis } => ActionView::Pause { millis: *millis },
            Action::Connect => ActionView::Connect,
            Action::CheckLiveness => ActionView::CheckLiveness,
            Action::CycleRadio { settle_millis } => ActionView::CycleRadio {
                settle_millis: *settle_millis,
            },
            Action::Reconnect => ActionView::Reconnect,
            Action::ReadSensor => ActionView::ReadSensor,
            Action::Publish(measurement) => ActionView::Publish(measurement@),
            Action::Suspend { seconds } => ActionView::Suspend { seconds: *seconds },
            Action::Restart { grace_millis } => ActionView::Restart {
                grace_millis: *grace_millis,
            },
            Action::Abort => ActionView::Abort,
        }
    }
}

/// How the action that was asked for went.
#[derive(Clone, Copy, Debug, PartialEq, Eq)]
pub enum Event {
    /// The peripherals came up, or did not.
    Initialized(bool),
    /// A pause, a radio cycle or a reconnect request is over.
    Done,
    /// The handshake ended with the network ready, or failed.
    Connected(bool),
    /// The network says that it is up, or that it is not; `None` where it
    /// could not be asked.
    Liveness(Option<bool>),
    /// The sensor gave a reading, or the reading failed.
    Sample(Option<Reading>),
    /// The publisher took the message, or failed with a code.
    Published(Result<(), i32>),
}

/// The controller as plain values.
pub struct ControllerView {
    pub mode: Mode,
    pub scheduler: SlotScheduler,
    pub sensor_attempts: u32,
    pub timing: Timing,
    pub quality: DeliveryQuality,
    pub retain: bool,
    pub labels: LabelsView,
    pub phase: Phase,
    pub clock: ClockWait,
    pub supervisor: ConnectivitySupervisor,
    pub acquisition: SensorAcquisition,
    pub pipeline: PipelineView,
    /// The newest slot that was serviced or given up; zero at boot.
    pub last_serviced_slot: u64,
    /// The slot in hand while it is being sampled and published.
    pub slot: u64,
}

impl ControllerView {
    /// The controller at boot.
    pub open spec fn initial(config: ConfigView) -> Self {
        ControllerView {
            mode: config.mode,
            scheduler: SlotScheduler::with_cadence(
                config.interval_seconds,
                config.window_seconds,
            ),
            sensor_attempts: config.sensor_attempts,
            timing: config.timing,
            quality: config.quality,
            retain: config.retain,
            labels: config.labels,
            phase: Phase::Booting,
            clock: ClockWait::fresh(
                ClockAnchor::at(config.min_plausible_epoch),
                match config.mode {
                    Mode::SingleShot { clock_poll_limit } => Some(clock_poll_limit),
                    Mode::Continuous => None,
                },
            ),
            supervisor: ConnectivitySupervisor::fresh(config.recovery),
            acquisition: SensorAcquisition::fresh(
                config.sensor_attempts,
                config.timing.sensor_retry_millis,
            ),
            pipeline: PipelineView::fresh(Seq::empty()),
            last_serviced_slot: 0,
            slot: 0,
        }
    }

    /// The action that the controller is waiting on.
    pub open spec fn pending(self) -> ActionView {
        match self.phase {
            Phase::Booting => ActionView::Initialize,
            Phase::SyncingClock => ActionView::Pause { millis: self.timing.clock_poll_millis },
            Phase::ConnectingNetwork => ActionView::Connect,
            Phase::ConnectBackoff => ActionView::Pause {
                millis: self.timing.connect_retry_millis,
            },
            Phase::Idle => ActionView::CheckLiveness,
            Phase::CyclingRadio => ActionView::CycleRadio {
                settle_millis: self.timing.settle_millis,
            },
            Phase::Reconnecting => ActionView::Reconnect,
            Phase::RecoveryBackoff => ActionView::Pause { millis: self.timing.backoff_millis },
            Phase::Sampling => ActionView::ReadSensor,
            Phase::SampleBackoff => ActionView::Pause { millis: self.acquisition.delay() },
            Phase::Publishing => match self.pipeline.next() {
                Some(measurement) => ActionView::Publish(measurement),
                None => ActionView::Pause { millis: self.timing.flush_millis },
            },
            Phase::Resting => ActionView::Pause { millis: self.timing.tick_millis },
            Phase::Suspended { seconds } => ActionView::Suspend { seconds },
            Phase::Restarting { grace_millis } => ActionView::Restart { grace_millis },
            Phase::Failed => ActionView::Abort,
        }
    }

    /// Whether `event` is an answer to the pending action. Any other event
    /// is dropped.
    pub open spec fn expects(self, event: Event) -> bool {
        match (self.pending(), event) {
            (ActionView::Initialize, Event::Initialized(_)) => true,
            (ActionView::Pause { .. }, Event::Done) => true,
            (ActionView::CycleRadio { .. }, Event::Done) => true,
            (ActionView::Reconnect, Event::Done) => true,
            (ActionView::Connect, Event::Connected(_)) => true,
            (ActionView::CheckLiveness, Event::Liveness(_)) => true,
            (ActionView::ReadSensor, Event::Sample(_)) => true,
            (ActionView::Publish(_), Event::Published(_)) => true,
            _ => false,
        }
    }

    /// After a look at the clock, at boot or while synchronising: on to the
    /// network once the clock is trusted; another pause while it is not; in
    /// single-shot mode, when the wait gives up, sleep for one interval.
    pub open spec fn observed(self, now: u64) -> Self {
        let clock = self.clock.after(now);
        match self.clock.verdict(now) {
            SyncVerdict::Trusted => ControllerView {
                clock,
                supervisor: self.supervisor.after_begin_connect(),
                phase: Phase::ConnectingNetwork,
                ..self
            },
            SyncVerdict::KeepWaiting => ControllerView {
                clock,
                phase: Phase::SyncingClock,
                ..self
            },
            SyncVerdict::GaveUp => ControllerView {
                clock,
                phase: Phase::Suspended { seconds: self.scheduler.interval() },
                ..self
            },
        }
    }

    /// With nothing left to do in this slot: continuous mode pauses until
    /// the next tick, single-shot mode sleeps until the next slot begins.
    pub open spec fn rested(self, now: u64) -> Self {
        match self.mode {
            Mode::Continuous => ControllerView { phase: Phase::Resting, ..self },
            Mode::SingleShot { .. } => ControllerView {
                phase: Phase::Suspended { seconds: self.scheduler.until_next(now) },
                ..self
            },
        }
    }

    /// The slot in hand is done with, however it went: it is marked, and
    /// the controller rests.
    pub open spec fn concluded(self, now: u64) -> Self {
        ControllerView { last_serviced_slot: self.slot, ..self }.rested(now)
    }

    /// The scheduler's decision at `now`, as far as the clock allows one: a
    /// reading that is not trusted decides nothing.
    pub open spec fn slot_decision(self, now: u64) -> SlotDecision {
        if self.clock.anchor().trusts(now) {
            self.scheduler.decision(now, self.last_serviced_slot)
        } else {
            SlotDecision::Hold
        }
    }

    /// With connectivity confirmed at `now`: a new slot inside its window is
    /// taken in hand, with no reading and no outcome yet, and sampled; a new
    /// slot past its window is marked and left; otherwise nothing changes.
    /// Then, unless sampling began, the controller rests.
    pub open spec fn decided(self, now: u64) -> Self {
        match self.slot_decision(now) {
            SlotDecision::Service { slot } => {
                let acquisition = SensorAcquisition::fresh(
                    self.sensor_attempts,
                    self.timing.sensor_retry_millis,
                );
                let taken = ControllerView {
                    slot,
                    acquisition,
                    pipeline: PipelineView::fresh(Seq::empty()),
                    ..self
                };
                if acquisition.open() {
                    ControllerView { phase: Phase::Sampling, ..taken }
                } else {
                    taken.concluded(now)
                }
            },
            SlotDecision::Skip { slot } => ControllerView {
                last_serviced_slot: slot,
                ..self
            }.rested(now),
            SlotDecision::Hold => self.rested(now),
        }
    }

    /// After a handshake.
    pub open spec fn connected(self, now: u64, ok: bool) -> Self {
        let joined = ControllerView { supervisor: self.supervisor.after_connect(ok), ..self };
        match self.supervisor.connect_verdict(ok) {
            ConnectVerdict::Connected => match self.mode {
                Mode::SingleShot { .. } => joined.decided(now),
                Mode::Continuous => ControllerView { phase: Phase::Idle, ..joined },
            },
            ConnectVerdict::Retry => ControllerView { phase: Phase::ConnectBackoff, ..joined },
            ConnectVerdict::Fatal => ControllerView {
                phase: Phase::Restarting { grace_millis: self.timing.restart_grace_millis },
                ..joined
            },
        }
    }

    /// After a liveness check that gave no answer: nothing is learned. The
    /// slot is looked at if the network was up when last heard of; if not,
    /// the tick is over.
    pub open spec fn unanswered(self, now: u64) -> Self {
        if self.supervisor.state() == ConnectivityState::Up {
            self.decided(now)
        } else {
            self.rested(now)
        }
    }

    /// After a liveness check at the top of a tick: with the network up the
    /// slot is looked at; with the network down recovery takes the tick.
    pub open spec fn polled(self, now: u64, up: bool) -> Self {
        let seen = self.supervisor.after_liveness(up);
        if up {
            ControllerView { supervisor: seen, ..self }.decided(now)
        } else {
            let recovering = ControllerView { supervisor: seen.after_recover(), ..self };
            match seen.recovery_step() {
                RecoveryStep::Escalate => ControllerView {
                    phase: Phase::Restarting { grace_millis: 0 },
                    ..recovering
                },
                RecoveryStep::CycleThenReconnect => ControllerView {
                    phase: Phase::CyclingRadio,
                    ..recovering
                },
                RecoveryStep::Reconnect => ControllerView {
                    phase: Phase::Reconnecting,
                    ..recovering
                },
                RecoveryStep::Nothing => ControllerView { phase: Phase::Resting, ..recovering },
            }
        }
    }

    /// After one reading of the sensor: a reading becomes the messages to
    /// publish; a failure is retried after a pause while attempts are left;
    /// after the last failure the slot is concluded without publishing.
    pub open spec fn sampled(self, now: u64, outcome: Option<Reading>) -> Self {
        let tried = ControllerView { acquisition: self.acquisition.after(outcome), ..self };
        match self.acquisition.verdict(outcome) {
            AcquireStep::Done(reading) => ControllerView {
                pipeline: PipelineView::fresh(
                    measurements_of(self.labels, reading, self.quality, self.retain),
                ),
                phase: Phase::Publishing,
                ..tried
            },
            AcquireStep::Retry { .. } => ControllerView { phase: Phase::SampleBackoff, ..tried },
            AcquireStep::Exhausted => tried.concluded(now),
        }
    }

    /// The controller after `event`, which came at wall-clock time `now`.
    pub open spec fn step(self, now: u64, event: Event) -> Self {
        if !self.expects(event) {
            self
        } else {
            match (self.phase, event) {
                (Phase::Booting, Event::Initialized(true)) => self.observed(now),
                (Phase::Booting, Event::Initialized(false)) => ControllerView {
                    phase: Phase::Failed,
                    ..self
                },
                (Phase::SyncingClock, Event::Done) => self.observed(now),
                (Phase::ConnectingNetwork, Event::Connected(ok)) => self.connected(now, ok),
                (Phase::ConnectBackoff, Event::Done) => ControllerView {
                    supervisor: self.supervisor.after_begin_connect(),
                    phase: Phase::ConnectingNetwork,
                    ..self
                },
                (Phase::Idle, Event::Liveness(Some(up))) => self.polled(now, up),
                (Phase::Idle, Event::Liveness(None)) => self.unanswered(now),
                (Phase::CyclingRadio, Event::Done) => ControllerView {
                    phase: Phase::Reconnecting,
                    ..self
                },
                (Phase::Reconnecting, Event::Done) => ControllerView {
                    phase: Phase::RecoveryBackoff,
                    ..self
                },
                (Phase::RecoveryBackoff, Event::Done) => ControllerView {
                    phase: Phase::Idle,
                    ..self
                },
                (Phase::Sampling, Event::Sample(outcome)) => self.sampled(now, outcome),
                (Phase::SampleBackoff, Event::Done) => ControllerView {
                    phase: Phase::Sampling,
                    ..self
                },
                (Phase::Publishing, Event::Published(result)) => ControllerView {
                    pipeline: self.pipeline.after(result),
                    ..self
                },
                (Phase::Publishing, Event::Done) => self.concluded(now),
                (Phase::Resting, Event::Done) => ControllerView { phase: Phase::Idle, ..self },
                _ => self,
            }
        }
    }

    /// The controller after a sequence of events, each with its time.
    pub open spec fn run(self, events: Seq<(u64, Event)>) -> Self
        decreases events.len(),
    {
        if events.len() == 0 {
            self
        } else {
            self.step(events[0].0, events[0].1).run(events.drop_first())
        }
    }

    /// The controller after one tick of continuous mode in which the network
    /// was found down: the liveness check, and then whatever recovery asked
    /// for, each step of it done. All of it happens at time `now`.
    #[verifier::opaque]
    pub open spec fn failed_tick(self, now: u64) -> Self {
        self.step(now, Event::Liveness(Some(false))).step(now, Event::Done).step(
            now,
            Event::Done,
        ).step(now, Event::Done)
    }

    /// The controller after one failed tick at each of the times `ticks`.
    pub open spec fn failed_ticks(self, ticks: Seq<u64>) -> Self
        decreases ticks.len(),
    {
        if ticks.len() == 0 {
            self
        } else {
            self.failed_ticks(ticks.drop_last()).failed_tick(ticks.last())
        }
    }

    /// An upper bound on the events that a controller in single-shot mode
    /// can still take before it suspends, restarts or fails.
    pub open spec fn wake_budget(self) -> nat {
        let publishing: nat = 3;
        let sampling: nat = 2 * self.sensor_attempts as nat + publishing;
        let connecting: nat = 2 * self.supervisor.policy().handshake_limit as nat + sampling + 1;
        let handshakes_left: nat = if self.supervisor.policy().handshake_limit
            > self.supervisor.failed_handshakes() {
            (self.supervisor.policy().handshake_limit
                - self.supervisor.failed_handshakes()) as nat
        } else {
            0
        };
        let polls_left: nat = match self.clock.bound() {
            Some(bound) if bound > self.clock.seen() => (bound - self.clock.seen()) as nat,
            _ => 0,
        };
        let readings_left: nat = if self.acquisition.limit() > self.acquisition.calls() {
            (self.acquisition.limit() - self.acquisition.calls()) as nat
        } else {
            0
        };
        let messages_left: nat = if self.pipeline.queue.len() > self.pipeline.outcomes.len() {
            (self.pipeline.queue.len() - self.pipeline.outcomes.len()) as nat
        } else {
            0
        };
        match self.phase {
            Phase::Booting => polls_left + connecting + 2,
            Phase::SyncingClock => polls_left + connecting + 1,
            Phase::ConnectingNetwork => 2 * handshakes_left + sampling + 1,
            Phase::ConnectBackoff => 2 * handshakes_left + sampling + 2,
            Phase::Sampling => 2 * readings_left + publishing,
            Phase::SampleBackoff => 2 * readings_left + publishing + 1,
            Phase::Publishing => messages_left + 1,
            _ => 0,
        }
    }

    /// What holds of the controller at boot and after every event.
    pub open spec fn inv(self) -> bool {
        &&& self.scheduler.wf()
        &&& self.supervisor.wf()
        &&& self.acquisition.wf()
        &&& self.timing.backoff_millis >= self.timing.settle_millis
        &&& self.phase.in_service() ==> {
            &&& self.slot > self.last_serviced_slot
            &&& self.supervisor.state() == ConnectivityState::Up
        }
        &&& self.acquisition.limit() == self.sensor_attempts
        &&& (self.phase is Sampling || self.phase is SampleBackoff) ==> self.acquisition.open()
        &&& self.phase is Publishing ==> self.pipeline.wf() && self.pipeline.queue.len() == 2
        &&& self.mode is SingleShot ==> !self.phase.continuous_only()
        &&& self.mode is Continuous ==> !(self.phase is Suspended) && self.clock.bound() is None
        &&& self.mode matches Mode::SingleShot { clock_poll_limit } ==> self.clock.bound()
            == Some(clock_poll_limit)
        &&& self.phase matches Phase::Suspended { seconds } ==> 1 <= seconds
            <= self.scheduler.interval()
    }
}

/// The duty-cycle controller. It owns the marker of the last serviced slot,
/// the connectivity supervisor and the progress of the slot in hand.
#[derive(Debug)]
pub struct DutyCycleController {
    pub(crate) mode: Mode,
    pub(crate) scheduler: SlotScheduler,
    pub(crate) sensor_attempts: u32,
    pub(crate) timing: Timing,
    pub(crate) quality: DeliveryQuality,
    pub(crate) retain: bool,
    pub(crate) labels: Labels,
    pub(crate) phase: Phase,
    pub(crate) clock: ClockWait,
    pub(crate) supervisor: ConnectivitySupervisor,
    pub(crate) acquisition: SensorAcquisition,
    pub(crate) pipeline: PublishPipeline,
    pub(crate) last_serviced_slot: u64,
    pub(crate) slot: u64,
}

impl View for DutyCycleController {
    type V = ControllerView;

    open(crate) spec fn view(&self) -> ControllerView {
        ControllerView {
            mode: self.mode,
            scheduler: self.scheduler,
            sensor_attempts: self.sensor_attempts,
            timing: self.timing,
            quality: self.quality,
            retain: self.retain,
            labels: self.labels@,
            phase: self.phase,
            clock: self.clock,
            supervisor: self.supervisor,
            acquisition: self.acquisition,
            pipeline: self.pipeline@,
            last_serviced_slot: self.last_serviced_slot,
            slot: self.slot,
        }
    }
}

impl DutyCycleController {
    /// A controller at boot, or the reason why the configuration is refused.
    pub fn new(config: Config) -> (made: Result<Self, ConfigError>)
        ensures
            match made {
                Ok(controller) => config@.fault() is None && controller@
                    == ControllerView::initial(config@) && controller@.inv(),
                Err(error) => config@.fault() == Some(error),
            },
    {
        let scheduler = match SlotScheduler::new(config.interval_seconds, config.window_seconds) {
            Some(scheduler) => scheduler,
            None => {
                return Err(ConfigError::ZeroInterval);
            },
        };
        if config.timing.backoff_millis < config.timing.settle_millis {
            return Err(ConfigError::BackoffBelowSettle);
        }
        let anchor = ClockAnchor::new(config.min_plausible_epoch);
        let clock = match config.mode {
            Mode::SingleShot { clock_poll_limit } => ClockWait::bounded(anchor, clock_poll_limit),
            Mode::Continuous => ClockWait::unbounded(anchor),
        };
        let controller = DutyCycleController {
            mode: config.mode,
            scheduler,
            sensor_attempts: config.sensor_attempts,
            timing: config.timing,
            quality: config.quality,
            retain: config.retain,
            labels: config.labels,
            phase: Phase::Booting,
            clock,
            supervisor: ConnectivitySupervisor::new(config.recovery),
            acquisition: SensorAcquisition::begin(
                config.sensor_attempts,
                config.timing.sensor_retry_millis,
            ),
            pipeline: PublishPipeline::empty(),
            last_serviced_slot: 0,
            slot: 0,
        };
        Ok(controller)
    }

    pub fn mode(&self) -> (mode: Mode)
        ensures
            mode == self@.mode,
    {
        self.mode
    }

    pub fn phase(&self) -> (phase: Phase)
        ensures
            phase == self@.phase,
    {
        self.phase
    }

    pub fn last_serviced_slot(&self) -> (slot: u64)
        ensures
            slot == self@.last_serviced_slot,
    {
        self.last_serviced_slot
    }

    /// The connectivity state, as the supervisor has it.
    pub fn connectivity(&self) -> (state: ConnectivityState)
        ensures
            state == self@.supervisor.state(),
    {
        self.supervisor.connectivity()
    }

    pub fn reconnect_attempt_count(&self) -> (attempts: u32)
        ensures
            attempts == self@.supervisor.attempts(),
    {
        self.supervisor.reconnect_attempt_count()
    }

    /// Readings of the sensor made for the slot last taken in hand.
    pub fn sensor_attempts_made(&self) -> (attempts: u32)
        ensures
            attempts == self@.acquisition.calls(),
    {
        self.acquisition.attempts()
    }

    /// The outcomes of the messages published for the slot last taken in
    /// hand, in their order; empty while it has none.
    pub fn outcomes(&self) -> (outcomes: &Vec<PublishOutcome>)
        ensures
            outcomes@ == self@.pipeline.outcomes,
    {
        self.pipeline.outcomes()
    }

    /// Whether the controller has reached a phase that nothing follows.
    pub fn is_finished(&self) -> (finished: bool)
        ensures
            finished == self@.phase.terminal(),
    {
        self.phase.is_terminal()
    }

    /// The action that the controller is waiting on. It is the same until
    /// an event that answers it arrives.
    pub fn pending(&self) -> (action: Action)
        ensures
            action@ == self@.pending(),
    {
        match self.phase {
            Phase::Booting => Action::Initialize,
            Phase::SyncingClock => Action::Pause { millis: self.timing.clock_poll_millis },
            Phase::ConnectingNetwork => Action::Connect,
            Phase::ConnectBackoff => Action::Pause { millis: self.timing.connect_retry_millis },
            Phase::Idle => Action::CheckLiveness,
            Phase::CyclingRadio => Action::CycleRadio { settle_millis: self.timing.settle_millis },
            Phase::Reconnecting => Action::Reconnect,
            Phase::RecoveryBackoff => Action::Pause { millis: self.timing.backoff_millis },
            Phase::Sampling => Action::ReadSensor,
            Phase::SampleBackoff => Action::Pause {
                millis: self.acquisition.retry_delay_millis(),
            },
            Phase::Publishing => match self.pipeline.next() {
                Some(measurement) => Action::Publish(measurement.duplicate()),
                None => Action::Pause { millis: self.timing.flush_millis },
            },
            Phase::Resting => Action::Pause { millis: self.timing.tick_millis },
            Phase::Suspended { seconds } => Action::Suspend { seconds },
            Phase::Restarting { grace_millis } => Action::Restart { grace_millis },
            Phase::Failed => Action::Abort,
        }
    }

    fn observe(&mut self, now: u64)
        ensures
            final(self)@ == old(self)@.observed(now),
    {
        match self.clock.observe(now) {
            SyncVerdict::Trusted => {
                self.supervisor.begin_connect();
                self.phase = Phase::ConnectingNetwork;
            },
            SyncVerdict::KeepWaiting => {
                self.phase = Phase::SyncingClock;
            },
            SyncVerdict::GaveUp => {
                self.phase = Phase::Suspended { seconds: self.scheduler.interval_seconds() };
            },
        }
    }

    fn rest(&mut self, now: u64)
        ensures
            final(self)@ == old(self)@.rested(now),
    {
        match self.mode {
            Mode::Continuous => {
                self.phase = Phase::Resting;
            },
            Mode::SingleShot { .. } => {
                self.phase = Phase::Suspended {
                    seconds: self.scheduler.seconds_until_next_slot(now),
                };
            },
        }
    }

    fn conclude(&mut self, now: u64)
        ensures
            final(self)@ == old(self)@.concluded(now),
    {
        self.last_serviced_slot = self.slot;
        self.rest(now);
    }

    fn decide(&mut self, now: u64)
        ensures
            final(self)@ == old(self)@.decided(now),
    {
        let decision = if self.clock.anchor.is_trustworthy(now) {
            self.scheduler.decide(now, self.last_serviced_slot)
        } else {
            SlotDecision::Hold
        };
        match decision {
            SlotDecision::Service { slot } => {
                self.slot = slot;
                self.acquisition = SensorAcquisition::begin(
                    self.sensor_attempts,
                    self.timing.sensor_retry_millis,
                );
                self.pipeline = PublishPipeline::empty();
                if self.acquisition.is_open() {
                    self.phase = Phase::Sampling;
                } else {
                    self.conclude(now);
                }
            },
            SlotDecision::Skip { slot } => {
                self.last_serviced_slot = slot;
                self.rest(now);
            },
            SlotDecision::Hold => {
                self.rest(now);
            },
        }
    }

    fn on_connected(&mut self, now: u64, ok: bool)
        ensures
            final(self)@ == old(self)@.connected(now, ok),
    {
        match self.supervisor.connect_finished(ok) {
            ConnectVerdict::Connected => match self.mode {
                Mode::SingleShot { .. } => {
                    self.decide(now);
                },
                Mode::Continuous => {
                    self.phase = Phase::Idle;
                },
            },
            ConnectVerdict::Retry => {
                self.phase = Phase::ConnectBackoff;
            },
            ConnectVerdict::Fatal => {
                self.phase = Phase::Restarting { grace_millis: self.timing.restart_grace_millis };
            },
        }
    }

    fn on_liveness(&mut self, now: u64, up: bool)
        ensures
            final(self)@ == old(self)@.polled(now, up),
    {
        self.supervisor.poll_liveness(up);
        if up {
            self.decide(now);
        } else {
            match self.supervisor.recover() {
                RecoveryStep::Escalate => {
                    self.phase = Phase::Restarting { grace_millis: 0 };
                },
                RecoveryStep::CycleThenReconnect => {
                    self.phase = Phase::CyclingRadio;
                },
                RecoveryStep::Reconnect => {
                    self.phase = Phase::Reconnecting;
                },
                RecoveryStep::Nothing => {
                    self.phase = Phase::Resting;
                },
            }
        }
    }

    fn on_sample(&mut self, now: u64, outcome: Option<Reading>)
        ensures
            final(self)@ == old(self)@.sampled(now, outcome),
    {
        match self.acquisition.record(outcome) {
            AcquireStep::Done(reading) => {
                self.pipeline = PublishPipeline::new(
                    measurements_for(&self.labels, reading, self.quality, self.retain),
                );
                self.phase = Phase::Publishing;
            },
            AcquireStep::Retry { .. } => {
                self.phase = Phase::SampleBackoff;
            },
            AcquireStep::Exhausted => {
                self.conclude(now);
            },
        }
    }

    /// Takes the answer to the pending action, which arrived at wall-clock
    /// time `now`, and names the action that follows. An event that does
    /// not answer the pending action is dropped, and the action is named
    /// again.
    pub fn step(&mut self, now: u64, event: Event) -> (action: Action)
        ensures
            final(self)@ == old(self)@.step(now, event),
            action@ == final(self)@.pending(),
            old(self)@.inv() ==> final(self)@.inv(),
    {
        proof {
            if self@.inv() {
                law_invariant_is_kept(self@, now, event);
            }
        }
        match (self.phase, event) {
            (Phase::Booting, Event::Initialized(true)) => {
                self.observe(now);
            },
            (Phase::Booting, Event::Initialized(false)) => {
                self.phase = Phase::Failed;
            },
            (Phase::SyncingClock, Event::Done) => {
                self.observe(now);
            },
            (Phase::ConnectingNetwork, Event::Connected(ok)) => {
                self.on_connected(now, ok);
            },
            (Phase::ConnectBackoff, Event::Done) => {
                self.supervisor.begin_connect();
                self.phase = Phase::ConnectingNetwork;
            },
            (Phase::Idle, Event::Liveness(Some(up))) => {
                self.on_liveness(now, up);
            },
            (Phase::Idle, Event::Liveness(None)) => {
                if self.supervisor.is_up() {
                    self.decide(now);
                } else {
                    self.rest(now);
                }
            },
            (Phase::CyclingRadio, Event::Done) => {
                self.phase = Phase::Reconnecting;
            },
            (Phase::Reconnecting, Event::Done) => {
                self.phase = Phase::RecoveryBackoff;
            },
            (Phase::RecoveryBackoff, Event::Done) => {
                self.phase = Phase::Idle;
            },
            (Phase::Sampling, Event::Sample(outcome)) => {
                self.on_sample(now, outcome);
            },
            (Phase::SampleBackoff, Event::Done) => {
                self.phase = Phase::Sampling;
            },
            (Phase::Publishing, Event::Published(result)) => {
                self.pipeline.record(result);
            },
            (Phase::Publishing, Event::Done) => {
                if self.pipeline.is_finished() {
                    self.conclude(now);
                }
            },
            (Phase::Resting, Event::Done) => {
                self.phase = Phase::Idle;
            },
            _ => {},
        }
        self.pending()
    }
}

/// The invariant holds at boot for every configuration without a fault.
pub proof fn law_invariant_holds_at_boot(config: ConfigView)
    requires
        config.fault() is None,
    ensures
        ControllerView::initial(config).inv(),
{
}

/// The invariant is kept by every event at every time.
pub proof fn law_invariant_is_kept(controller: ControllerView, now: u64, event: Event)
    requires
        controller.inv(),
    ensures
        controller.step(now, event).inv(),
{
}

/// The invariant holds after every sequence of events.
pub proof fn law_invariant_along_every_run(controller: ControllerView, events: Seq<(u64, Event)>)
    requires
        controller.inv(),
    ensures
        controller.run(events).inv(),
    decreases events.len(),
{
    if events.len() > 0 {
        law_invariant_is_kept(controller, events[0].0, events[0].1);
        law_invariant_along_every_run(
            controller.step(events[0].0, events[0].1),
            events.drop_first(),
        );
    }
}

/// An event that does not answer the pending action changes nothing.
pub proof fn law_stray_event_is_dropped(controller: ControllerView, now: u64, event: Event)
    requires
        !controller.expects(event),
    ensures
        controller.step(now, event) == controller,
{
}

/// The marker of the last serviced slot never moves back.
pub proof fn law_marker_never_moves_back(controller: ControllerView, now: u64, event: Event)
    requires
        controller.inv(),
    ensures
        controller.step(now, event).last_serviced_slot >= controller.last_serviced_slot,
{
}

/// The sensor is asked for only while a slot is being sampled, and the
/// publisher only while it is being published with the network confirmed up.
pub proof fn law_sensor_and_publisher_are_asked_in_service(controller: ControllerView)
    requires
        controller.inv(),
    ensures
        controller.pending() is ReadSensor ==> controller.phase is Sampling
            && controller.acquisition.open() && controller.slot > controller.last_serviced_slot,
        controller.pending() is Publish ==> controller.phase is Publishing
            && controller.supervisor.state() == ConnectivityState::Up && controller.slot
            > controller.last_serviced_slot,
{
}

/// Sampling begins only for a new slot inside its window, at a time that
/// the clock anchor trusts, and with the network confirmed up.
pub proof fn law_service_begins_in_a_fresh_open_slot(
    controller: ControllerView,
    now: u64,
    event: Event,
)
    requires
        controller.inv(),
        !controller.phase.in_service(),
        controller.step(now, event).phase.in_service(),
    ensures
        controller.clock.anchor().trusts(now),
        serviceable(
            controller.scheduler.slot_of(now),
            controller.last_serviced_slot,
            controller.scheduler.offset_of(now),
            controller.scheduler.window(),
        ),
        controller.step(now, event).slot == controller.scheduler.slot_of(now),
        controller.step(now, event).phase is Sampling,
        controller.step(now, event).acquisition.calls() == 0,
        controller.step(now, event).supervisor.state() == ConnectivityState::Up,
        controller.step(now, event).last_serviced_slot == controller.last_serviced_slot,
{
}

/// While a slot is in hand it stays the same slot, and the marker stays
/// behind it.
pub proof fn law_slot_in_hand_is_kept(controller: ControllerView, now: u64, event: Event)
    requires
        controller.inv(),
        controller.phase.in_service(),
        controller.step(now, event).phase.in_service(),
    ensures
        controller.step(now, event).slot == controller.slot,
        controller.step(now, event).last_serviced_slot == controller.last_serviced_slot,
{
}

/// Every way out of a slot marks it: after the messages were published and
/// flushed, whatever their outcomes, and after the sensor was exhausted.
pub proof fn law_leaving_service_marks_the_slot(
    controller: ControllerView,
    now: u64,
    event: Event,
)
    requires
        controller.inv(),
        controller.phase.in_service(),
        !controller.step(now, event).phase.in_service(),
    ensures
        controller.step(now, event).last_serviced_slot == controller.slot,
        match controller.mode {
            Mode::Continuous => controller.step(now, event).phase is Resting,
            Mode::SingleShot { .. } => controller.step(now, event).phase == (Phase::Suspended {
                seconds: controller.scheduler.until_next(now),
            }),
        },
{
}

/// At most once per slot: once the marker has reached a slot, no sequence
/// of events at whatever times brings that slot, or an older one, in hand
/// again.
pub proof fn law_marked_slot_is_never_sampled_again(
    controller: ControllerView,
    slot: u64,
    events: Seq<(u64, Event)>,
)
    requires
        controller.inv(),
        controller.last_serviced_slot >= slot,
    ensures
        controller.run(events).last_serviced_slot >= slot,
        controller.run(events).phase.in_service() ==> controller.run(events).slot > slot,
    decreases events.len(),
{
    if events.len() > 0 {
        let next = controller.step(events[0].0, events[0].1);
        law_invariant_is_kept(controller, events[0].0, events[0].1);
        law_marker_never_moves_back(controller, events[0].0, events[0].1);
        law_marked_slot_is_never_sampled_again(next, slot, events.drop_first());
    }
}

/// No retroactive late sampling: when the network is found up at a trusted
/// time in a new slot whose window has closed, the slot is marked and
/// nothing is sampled or published for it.
pub proof fn law_late_slot_is_marked_without_sampling(
    controller: ControllerView,
    now: u64,
    event: Event,
)
    requires
        controller.inv(),
        controller.clock.anchor().trusts(now),
        controller.scheduler.slot_of(now) > controller.last_serviced_slot,
        controller.scheduler.offset_of(now) >= controller.scheduler.window(),
        (controller.phase is Idle && event == Event::Liveness(Some(true))) || (controller.phase
            is ConnectingNetwork && controller.mode is SingleShot && event == Event::Connected(
            true,
        )),
    ensures
        controller.step(now, event).last_serviced_slot == controller.scheduler.slot_of(now),
        !controller.step(now, event).phase.in_service(),
        !(controller.step(now, event).pending() is ReadSensor),
        !(controller.step(now, event).pending() is Publish),
        controller.mode is Continuous ==> controller.step(now, event).phase is Resting,
        controller.mode is SingleShot ==> controller.step(now, event).phase == (Phase::Suspended {
            seconds: controller.scheduler.until_next(now),
        }),
{
}

/// With the network found down, recovery takes the tick: nothing is
/// sampled, and the marker stays where it is.
pub proof fn law_recovery_skips_the_tick(controller: ControllerView, now: u64)
    requires
        controller.inv(),
        controller.phase is Idle,
    ensures
        !controller.step(now, Event::Liveness(Some(false))).phase.in_service(),
        controller.step(now, Event::Liveness(Some(false))).last_serviced_slot
            == controller.last_serviced_slot,
        controller.step(now, Event::Liveness(Some(false))).phase is Restarting
            <==> controller.supervisor.after_liveness(false).recovery_step() is Escalate,
{
}

/// The pause between two recovery attempts is fixed, and is not shorter
/// than the time that the radio stack is given to settle.
pub proof fn law_backoff_lets_the_radio_settle(controller: ControllerView)
    requires
        controller.inv(),
        controller.phase is RecoveryBackoff,
    ensures
        controller.pending() == (ActionView::Pause { millis: controller.timing.backoff_millis }),
        controller.timing.backoff_millis >= controller.timing.settle_millis,
{
}

/// A wake in single-shot mode is bounded: every event that answers the
/// pending action uses up some of the wake budget, so the controller
/// suspends, restarts or fails within `wake_budget` such events, whether
/// the clock synchronises, the network connects, the sensor answers and the
/// publisher delivers, or not.
pub proof fn law_single_shot_wake_is_bounded(controller: ControllerView, now: u64, event: Event)
    requires
        controller.inv(),
        controller.mode is SingleShot,
        controller.expects(event),
    ensures
        controller.step(now, event).wake_budget() < controller.wake_budget(),
        controller.step(now, event).mode == controller.mode,
{
}

/// In single-shot mode the controller is at rest only in a final phase, and
/// a final phase is left by no event.
pub proof fn law_final_phases_are_final(controller: ControllerView, now: u64, event: Event)
    requires
        controller.phase.terminal(),
    ensures
        controller.step(now, event) == controller,
        controller.wake_budget() == 0,
{
}

/// A suspension is never longer than one interval and never empty.
pub proof fn law_suspension_is_within_one_interval(controller: ControllerView)
    requires
        controller.inv(),
    ensures
        controller.pending() matches ActionView::Suspend { seconds } ==> 1 <= seconds
            <= controller.scheduler.interval(),
{
}

/// A slot that is due is taken: with the network confirmed up at a trusted
/// time in a new slot inside its window, and at least one reading allowed,
/// the next action is to read the sensor for that slot.
pub proof fn law_open_slot_is_taken(controller: ControllerView, now: u64, event: Event)
    requires
        controller.inv(),
        controller.sensor_attempts >= 1,
        controller.clock.anchor().trusts(now),
        serviceable(
            controller.scheduler.slot_of(now),
            controller.last_serviced_slot,
            controller.scheduler.offset_of(now),
            controller.scheduler.window(),
        ),
        (controller.phase is Idle && event == Event::Liveness(Some(true))) || (controller.phase
            is ConnectingNetwork && controller.mode is SingleShot && event == Event::Connected(
            true,
        )),
    ensures
        controller.step(now, event).pending() is ReadSensor,
        controller.step(now, event).slot == controller.scheduler.slot_of(now),
        controller.step(now, event).last_serviced_slot == controller.last_serviced_slot,
{
}

/// A reading is published in full whatever the publisher answers: after a
/// successful reading the temperature is handed over, then the humidity,
/// then comes the pause for flushing, and then the slot is marked. The two
/// outcomes are kept in that order.
pub proof fn law_reading_is_published_in_full(
    controller: ControllerView,
    reading: Reading,
    first: Result<(), i32>,
    second: Result<(), i32>,
    times: (u64, u64, u64, u64),
)
    requires
        controller.inv(),
        controller.phase is Sampling,
    ensures
        ({
            let messages = measurements_of(
                controller.labels,
                reading,
                controller.quality,
                controller.retain,
            );
            let sampled = controller.step(times.0, Event::Sample(Some(reading)));
            let half = sampled.step(times.1, Event::Published(first));
            let full = half.step(times.2, Event::Published(second));
            let end = full.step(times.3, Event::Done);
            &&& sampled.pending() == ActionView::Publish(messages[0])
            &&& half.pending() == ActionView::Publish(messages[1])
            &&& full.pending() == (ActionView::Pause { millis: controller.timing.flush_millis })
            &&& end.pipeline.outcomes == seq![outcome_of(first), outcome_of(second)]
            &&& end.last_serviced_slot == controller.slot
            &&& !end.phase.in_service()
            &&& sampled.last_serviced_slot == controller.last_serviced_slot
            &&& full.last_serviced_slot == controller.last_serviced_slot
        }),
{
}

/// Only connectivity and boot are fatal: the controller comes to a restart
/// only by a handshake that failed once too often or by a recovery that
/// reached its ceiling, and to a failure only by peripherals that did not
/// come up. A sensor that fails and a publisher that fails never end the
/// process.
pub proof fn law_only_connectivity_and_boot_are_fatal(
    controller: ControllerView,
    now: u64,
    event: Event,
)
    requires
        controller.inv(),
        !controller.phase.terminal(),
    ensures
        controller.step(now, event).phase is Failed ==> controller.phase is Booting && event
            == Event::Initialized(false),
        controller.step(now, event).phase is Restarting ==> {
            ||| controller.phase is ConnectingNetwork && event == Event::Connected(false)
                && controller.supervisor.connect_verdict(false) is Fatal
            ||| controller.phase is Idle && event == Event::Liveness(Some(false))
                && controller.supervisor.attempts() == controller.supervisor.policy().ceiling
        },
        event is Sample || event is Published ==> !(controller.step(now, event).phase
            is Restarting) && !(controller.step(now, event).phase is Failed),
{
}

/// Loss of connectivity from first to last: at the top of a tick with no
/// recovery attempt counted yet, the network is found down tick after tick.
/// For as many ticks as the ceiling allows, the controller is back at the top
/// of a tick after each, with as many attempts counted and the marker
/// untouched; the tick after those restarts the process at once. In the
/// `n`-th of the ticks the radio stack is cycled exactly when `n` is a
/// multiple of `cycle_every`.
pub proof fn law_connectivity_loss_escalates_after_the_ceiling(
    controller: ControllerView,
    ticks: Seq<u64>,
)
    requires
        controller.inv(),
        controller.phase is Idle,
        controller.supervisor.attempts() == 0,
        !controller.supervisor.has_escalated(),
    ensures
        ({
            let end = controller.failed_ticks(ticks);
            let ceiling = controller.supervisor.policy().ceiling;
            &&& end.inv()
            &&& end.last_serviced_slot == controller.last_serviced_slot
            &&& end.timing == controller.timing
            &&& end.supervisor.policy() == controller.supervisor.policy()
            &&& ticks.len() <= ceiling ==> {
                &&& end.phase is Idle
                &&& end.supervisor.attempts() == ticks.len()
                &&& !end.supervisor.has_escalated()
            }
            &&& ticks.len() > ceiling ==> end.phase == (Phase::Restarting { grace_millis: 0 })
            &&& 1 <= ticks.len() <= ceiling ==> {
                let before = controller.failed_ticks(ticks.drop_last());
                let asked = before.step(ticks.last(), Event::Liveness(Some(false))).pending();
                if controller.supervisor.policy().cycles_at(ticks.len() as u32) {
                    asked == (ActionView::CycleRadio {
                        settle_millis: controller.timing.settle_millis,
                    })
                } else {
                    asked == ActionView::Reconnect
                }
            }
        }),
    decreases ticks.len(),
{
    if ticks.len() > 0 {
        let before = controller.failed_ticks(ticks.drop_last());
        law_connectivity_loss_escalates_after_the_ceiling(controller, ticks.drop_last());
        lemma_failed_tick(before, ticks.last());
        if ticks.len() <= controller.supervisor.policy().ceiling {
            lemma_liveness_lost(before, ticks.last());
        }
    }
}

proof fn lemma_liveness_lost(controller: ControllerView, now: u64)
    requires
        controller.inv(),
        controller.phase is Idle,
        !controller.supervisor.has_escalated(),
    ensures
        ({
            let lost = controller.step(now, Event::Liveness(Some(false)));
            let attempts = controller.supervisor.attempts();
            let policy = controller.supervisor.policy();
            &&& lost.inv()
            &&& lost.last_serviced_slot == controller.last_serviced_slot
            &&& lost.timing == controller.timing
            &&& lost.supervisor.policy() == policy
            &&& attempts < policy.ceiling ==> {
                &&& lost.supervisor.attempts() == attempts + 1
                &&& !lost.supervisor.has_escalated()
                &&& lost.phase == if policy.cycles_at((attempts + 1) as u32) {
                    Phase::CyclingRadio
                } else {
                    Phase::Reconnecting
                }
            }
            &&& attempts >= policy.ceiling ==> lost.phase == (Phase::Restarting {
                grace_millis: 0,
            })
        }),
{
}

proof fn lemma_recovery_goes_on(controller: ControllerView, now: u64)
    requires
        controller.inv(),
        controller.phase is CyclingRadio || controller.phase is Reconnecting || controller.phase
            is RecoveryBackoff || controller.phase is Idle || controller.phase is Restarting,
    ensures
        controller.step(now, Event::Done).inv(),
        controller.step(now, Event::Done) == (ControllerView {
            phase: match controller.phase {
                Phase::CyclingRadio => Phase::Reconnecting,
                Phase::Reconnecting => Phase::RecoveryBackoff,
                Phase::RecoveryBackoff => Phase::Idle,
                other => other,
            },
            ..controller
        }),
{
}

proof fn lemma_failed_tick(controller: ControllerView, now: u64)
    requires
        controller.inv(),
        controller.phase is Idle || controller.phase is Restarting,
        controller.phase is Idle ==> !controller.supervisor.has_escalated(),
    ensures
        ({
            let end = controller.failed_tick(now);
            let attempts = controller.supervisor.attempts();
            let policy = controller.supervisor.policy();
            &&& end.inv()
            &&& end.last_serviced_slot == controller.last_serviced_slot
            &&& end.timing == controller.timing
            &&& end.supervisor.policy() == policy
            &&& controller.phase is Restarting ==> end == controller
            &&& controller.phase is Idle && attempts < policy.ceiling ==> {
                &&& end.phase is Idle
                &&& end.supervisor.attempts() == attempts + 1
                &&& !end.supervisor.has_escalated()
            }
            &&& controller.phase is Idle && attempts >= policy.ceiling ==> end.phase
                == (Phase::Restarting { grace_millis: 0 })
        }),
{
    reveal(ControllerView::failed_tick);
    let lost = controller.step(now, Event::Liveness(Some(false)));
    if controller.phase is Idle {
        lemma_liveness_lost(controller, now);
    }
    lemma_recovery_goes_on(lost, now);
    let second = lost.step(now, Event::Done);
    lemma_recovery_goes_on(second, now);
    let third = second.step(now, Event::Done);
    lemma_recovery_goes_on(third, now);
}

} // verus!

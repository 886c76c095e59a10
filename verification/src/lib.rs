//! Interval-aligned duty-cycle control for a telemetry node.
//!
//! The node samples a humidity and temperature sensor once per cadence slot
//! and publishes what it measured. This crate holds the decisions of that
//! cycle as state machines over plain values; reading the sensor, driving the
//! radio and talking to the broker are left to the caller, which performs
//! each requested action and reports back what happened.
//!
//! - [`clock`]: whether wall-clock time can be trusted yet.
//! - [`slot`]: cadence slots, their windows, and the rule of once per slot.
//! - [`sensor`]: readings and their bounded-retry acquisition.
//! - [`connectivity`]: the connectivity state and its recovery.
//! - [`payload`] and [`publish`]: the messages of a reading and their
//!   outcomes.
//! - [`controller`]: the state machine that composes them.

pub mod clock;
pub mod connectivity;
pub mod controller;
pub mod payload;
pub mod publish;
pub mod sensor;
pub mod slot;

pub use clock::{is_trustworthy, ClockAnchor, ClockWait, SyncVerdict, MIN_PLAUSIBLE_EPOCH};
pub use connectivity::{
    ConnectVerdict, ConnectivityState, ConnectivitySupervisor, RecoveryPolicy, RecoveryStep,
};
pub use controller::{Action, Config, ConfigError, DutyCycleController, Event, Mode, Phase, Timing};
pub use payload::{render_payload, render_tenths, render_topic, Quantity};
pub use publish::{
    measurement_for, measurements_for, DeliveryQuality, Labels, Measurement, PublishOutcome,
    PublishPipeline,
};
pub use sensor::{AcquireStep, SensorAcquisition, Reading};
pub use slot::{should_service, SlotDecision, SlotScheduler};

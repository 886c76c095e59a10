//! Publishing the measurements of one reading, each on its own: one outcome
//! per measurement, in order, and no failure stops the next.

use crate::payload::{payload_text, render_payload, render_topic, topic_text, Quantity};
use crate::sensor::Reading;
use vstd::prelude::*;

verus! {

/// The acknowledgement asked of the broker for one message.
#[derive(Clone, Copy, Debug, PartialEq, Eq, Structural)]
pub enum DeliveryQuality {
    /// Fire and forget.
    AtMostOnce,
    /// Acknowledged.
    AtLeastOnce,
}

/// One message to publish.
#[derive(Clone, Debug, PartialEq, Eq)]
pub struct Measurement {
    pub topic: String,
    pub payload: Vec<u8>,
    pub quality: DeliveryQuality,
    /// Whether the broker is to keep the value for late subscribers.
    pub retain: bool,
}

/// A measurement as plain values.
pub struct MeasurementView {
    pub topic: Seq<char>,
    pub payload: Seq<u8>,
    pub quality: DeliveryQuality,
    pub retain: bool,
}

impl View for Measurement {
    type V = MeasurementView;

    open spec fn view(&self) -> MeasurementView {
        MeasurementView {
            topic: self.topic@,
            payload: self.payload@,
            quality: self.quality,
            retain: self.retain,
        }
    }
}

impl Measurement {
    /// A copy with the same topic, payload, quality and retain flag.
    pub fn duplicate(&self) -> (copy: Self)
        ensures
            copy@ == self@,
    {
        let mut payload: Vec<u8> = Vec::new();
        let mut i: usize = 0;
        while i < self.payload.len()
            invariant
                i <= self.payload.len(),
                payload@ == self.payload@.subrange(0, i as int),
            decreases self.payload.len() - i,
        {
            payload.push(self.payload[i]);
            i = i + 1;
        }
        assert(payload@ =~= self.payload@);
        Measurement {
            topic: self.topic.clone(),
            payload,
            quality: self.quality,
            retain: self.retain,
        }
    }
}

/// Where the measurements of a node go and under whose name.
#[derive(Clone, Debug, PartialEq, Eq)]
pub struct Labels {
    /// The topic under which each quantity has its own sub-topic.
    pub base_topic: String,
    /// The name of the source, given in every payload.
    pub source_id: String,
}

/// Labels as plain values.
pub struct LabelsView {
    pub base_topic: Seq<char>,
    pub source_id: Seq<char>,
}

impl View for Labels {
    type V = LabelsView;

    open spec fn view(&self) -> LabelsView {
        LabelsView { base_topic: self.base_topic@, source_id: self.source_id@ }
    }
}

/// The message that carries one quantity of a reading.
pub open spec fn measurement_of(
    labels: LabelsView,
    quantity: Quantity,
    tenths: int,
    quality: DeliveryQuality,
    retain: bool,
) -> MeasurementView {
    MeasurementView {
        topic: topic_text(labels.base_topic, quantity.label()),
        payload: vstd::utf8::encode_utf8(payload_text(labels.source_id, quantity.label(), tenths)),
        quality,
        retain,
    }
}

/// The messages of one reading: the temperature, then the humidity.
pub open spec fn measurements_of(
    labels: LabelsView,
    reading: Reading,
    quality: DeliveryQuality,
    retain: bool,
) -> Seq<MeasurementView> {
    seq![
        measurement_of(
            labels,
            Quantity::Temperature,
            reading.temperature() as int,
            quality,
            retain,
        ),
        measurement_of(labels, Quantity::Humidity, reading.humidity() as int, quality, retain),
    ]
}

/// The views of a vector of measurements, in order.
pub open spec fn views_of(measurements: Seq<Measurement>) -> Seq<MeasurementView> {
    measurements.map_values(|m: Measurement| m@)
}

/// Formats one quantity of a reading as a message.
pub fn measurement_for(
    labels: &Labels,
    quantity: Quantity,
    tenths: i32,
    quality: DeliveryQuality,
    retain: bool,
) -> (measurement: Measurement)
    ensures
        measurement@ == measurement_of(labels@, quantity, tenths as int, quality, retain),
{
    Measurement {
        topic: render_topic(labels.base_topic.as_str(), quantity),
        payload: render_payload(labels.source_id.as_str(), quantity, tenths),
        quality,
        retain,
    }
}

/// Formats a reading as its two messages.
pub fn measurements_for(
    labels: &Labels,
    reading: Reading,
    quality: DeliveryQuality,
    retain: bool,
) -> (measurements: Vec<Measurement>)
    ensures
        views_of(measurements@) == measurements_of(labels@, reading, quality, retain),
        measurements@.len() == 2,
{
    let mut measurements: Vec<Measurement> = Vec::new();
    measurements.push(
        measurement_for(
            labels,
            Quantity::Temperature,
            reading.temperature_tenths(),
            quality,
            retain,
        ),
    );
    measurements.push(
        measurement_for(labels, Quantity::Humidity, reading.humidity_tenths(), quality, retain),
    );
    measurements
}

/// What became of one message.
#[derive(Clone, Copy, Debug, PartialEq, Eq, Structural)]
pub enum PublishOutcome {
    Delivered,
    /// The publisher refused or lost the message; this is its error code.
    Failed(i32),
}

/// The outcome that a publisher's answer stands for.
pub open spec fn outcome_of(result: Result<(), i32>) -> PublishOutcome {
    match result {
        Ok(_) => PublishOutcome::Delivered,
        Err(code) => PublishOutcome::Failed(code),
    }
}

/// The outcomes that a sequence of answers stands for, one for one.
pub open spec fn outcomes_of(results: Seq<Result<(), i32>>) -> Seq<PublishOutcome> {
    Seq::new(results.len(), |i: int| outcome_of(results[i]))
}

/// A pipeline as plain values: the messages in order, and the outcomes of
/// those that were attempted.
pub struct PipelineView {
    pub queue: Seq<MeasurementView>,
    pub outcomes: Seq<PublishOutcome>,
}

impl PipelineView {
    pub open spec fn fresh(queue: Seq<MeasurementView>) -> Self {
        PipelineView { queue, outcomes: Seq::empty() }
    }

    /// Never more outcomes than messages.
    pub open spec fn wf(self) -> bool {
        self.outcomes.len() <= self.queue.len()
    }

    /// The message to attempt next: the one after the last with an outcome,
    /// whatever the outcomes were.
    pub open spec fn next(self) -> Option<MeasurementView> {
        if self.outcomes.len() < self.queue.len() {
            Some(self.queue[self.outcomes.len() as int])
        } else {
            None
        }
    }

    pub open spec fn finished(self) -> bool {
        self.outcomes.len() >= self.queue.len()
    }

    /// The pipeline once the publisher has answered for the next message.
    /// An answer to a finished pipeline changes nothing.
    pub open spec fn after(self, result: Result<(), i32>) -> Self {
        if self.finished() {
            self
        } else {
            PipelineView { outcomes: self.outcomes.push(outcome_of(result)), ..self }
        }
    }

    /// The pipeline after the publisher's answers `results`, in order.
    pub open spec fn run(self, results: Seq<Result<(), i32>>) -> Self
        decreases results.len(),
    {
        if results.len() == 0 {
            self
        } else {
            self.after(results[0]).run(results.drop_first())
        }
    }
}

/// The messages of one slot on their way to the publisher.
#[derive(Debug)]
pub struct PublishPipeline {
    pub(crate) queue: Vec<Measurement>,
    pub(crate) outcomes: Vec<PublishOutcome>,
}

impl View for PublishPipeline {
    type V = PipelineView;

    open(crate) spec fn view(&self) -> PipelineView {
        PipelineView { queue: views_of(self.queue@), outcomes: self.outcomes@ }
    }
}

impl PublishPipeline {
    /// A pipeline for the given messages, none of them attempted yet.
    pub fn new(measurements: Vec<Measurement>) -> (pipeline: Self)
        ensures
            pipeline@ == PipelineView::fresh(views_of(measurements@)),
            pipeline@.wf(),
    {
        PublishPipeline { queue: measurements, outcomes: Vec::new() }
    }

    /// A pipeline with nothing to publish.
    pub fn empty() -> (pipeline: Self)
        ensures
            pipeline@ == PipelineView::fresh(Seq::empty()),
            pipeline@.finished(),
    {
        let pipeline = PublishPipeline { queue: Vec::new(), outcomes: Vec::new() };
        assert(pipeline@.queue =~= Seq::empty());
        pipeline
    }

    /// The message to hand to the publisher next, or `None` once every
    /// message has its outcome.
    pub fn next(&self) -> (next: Option<&Measurement>)
        ensures
            next is Some <==> !self@.finished(),
            match next {
                Some(measurement) => self@.next() == Some(measurement@),
                None => self@.next() is None,
            },
    {
        let done: usize = self.outcomes.len();
        if done < self.queue.len() {
            Some(&self.queue[done])
        } else {
            None
        }
    }

    pub fn is_finished(&self) -> (finished: bool)
        ensures
            finished == self@.finished(),
    {
        self.outcomes.len() >= self.queue.len()
    }

    /// Takes the publisher's answer for the message that `next` gave.
    pub fn record(&mut self, result: Result<(), i32>)
        ensures
            final(self)@ == old(self)@.after(result),
            final(self)@.queue == old(self)@.queue,
            !old(self)@.finished() ==> final(self)@.outcomes == old(self)@.outcomes.push(
                outcome_of(result),
            ),
            old(self)@.wf() ==> final(self)@.wf(),
    {
        if self.outcomes.len() < self.queue.len() {
            let outcome = match result {
                Ok(_) => PublishOutcome::Delivered,
                Err(code) => PublishOutcome::Failed(code),
            };
            self.outcomes.push(outcome);
        }
    }

    /// The outcomes so far, one per message attempted, in the order of the
    /// messages.
    pub fn outcomes(&self) -> (outcomes: &Vec<PublishOutcome>)
        ensures
            outcomes@ == self@.outcomes,
    {
        &self.outcomes
    }

    /// The number of messages, attempted or not.
    pub fn len(&self) -> (len: usize)
        ensures
            len == self@.queue.len(),
    {
        self.queue.len()
    }
}

/// One outcome per message, in order: once the publisher has answered for
/// every message, the outcomes are its answers one for one, and the pipeline
/// is finished.
pub proof fn law_one_outcome_per_measurement(
    queue: Seq<MeasurementView>,
    results: Seq<Result<(), i32>>,
)
    requires
        results.len() == queue.len(),
    ensures
        PipelineView::fresh(queue).run(results).outcomes == outcomes_of(results),
        PipelineView::fresh(queue).run(results).finished(),
        PipelineView::fresh(queue).run(results).queue == queue,
{
    lemma_run_appends(PipelineView::fresh(queue), results);
}

/// Failure isolation: after any answers to the first `done` messages, failed
/// or not, the next message to attempt is the one at `done`.
pub proof fn law_failure_does_not_stop_the_next(
    queue: Seq<MeasurementView>,
    results: Seq<Result<(), i32>>,
)
    requires
        results.len() < queue.len(),
    ensures
        PipelineView::fresh(queue).run(results).next() == Some(queue[results.len() as int]),
{
    lemma_run_appends(PipelineView::fresh(queue), results);
}

proof fn lemma_run_appends(pipeline: PipelineView, results: Seq<Result<(), i32>>)
    requires
        pipeline.outcomes.len() + results.len() <= pipeline.queue.len(),
    ensures
        pipeline.run(results).outcomes == pipeline.outcomes + outcomes_of(results),
        pipeline.run(results).queue == pipeline.queue,
    decreases results.len(),
{
    if results.len() > 0 {
        lemma_run_appends(pipeline.after(results[0]), results.drop_first());
    }
}

} // verus!

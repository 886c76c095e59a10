//! Bounded-retry acquisition of one reading from the sensor.

use vstd::prelude::*;

verus! {

/// One measurement of the sensor: temperature in tenths of a degree Celsius
/// and relative humidity in tenths of a percent. A reading is made once and
/// never changed.
#[derive(Clone, Copy, Debug, PartialEq, Eq, Structural)]
pub struct Reading {
    pub(crate) temperature_tenths: i32,
    pub(crate) humidity_tenths: i32,
}

impl Reading {
    pub open(crate) spec fn temperature(self) -> i32 {
        self.temperature_tenths
    }

    pub open(crate) spec fn humidity(self) -> i32 {
        self.humidity_tenths
    }

    /// A reading from figures in tenths.
    pub fn new(temperature_tenths: i32, humidity_tenths: i32) -> (reading: Self)
        ensures
            reading.temperature() == temperature_tenths,
            reading.humidity() == humidity_tenths,
    {
        Reading { temperature_tenths, humidity_tenths }
    }

    /// A reading from figures in whole degrees and whole percent.
    pub fn from_whole_units(temperature: i16, humidity: u16) -> (reading: Self)
        ensures
            reading.temperature() == 10 * temperature,
            reading.humidity() == 10 * humidity,
    {
        let temperature_tenths: i32 = 10 * (temperature as i32);
        let humidity_tenths: i32 = 10 * (humidity as i32);
        Reading { temperature_tenths, humidity_tenths }
    }

    pub fn temperature_tenths(&self) -> (tenths: i32)
        ensures
            tenths == self.temperature(),
    {
        self.temperature_tenths
    }

    pub fn humidity_tenths(&self) -> (tenths: i32)
        ensures
            tenths == self.humidity(),
    {
        self.humidity_tenths
    }
}

/// Where an acquisition stands after one more attempt has been reported.
#[derive(Clone, Copy, Debug, PartialEq, Eq, Structural)]
pub enum AcquireStep {
    /// The attempt succeeded; this is the reading.
    Done(Reading),
    /// The attempt failed and another one is due after the delay.
    Retry { delay_millis: u32 },
    /// Every attempt allowed has failed.
    Exhausted,
}

/// The progress of one acquisition: how many attempts were made out of how
/// many allowed, and the first reading obtained, if any.
#[derive(Clone, Copy, Debug, PartialEq, Eq, Structural)]
pub struct SensorAcquisition {
    pub(crate) max_attempts: u32,
    pub(crate) retry_delay_millis: u32,
    pub(crate) attempts: u32,
    pub(crate) reading: Option<Reading>,
}

impl SensorAcquisition {
    pub open(crate) spec fn limit(self) -> u32 {
        self.max_attempts
    }

    pub open(crate) spec fn delay(self) -> u32 {
        self.retry_delay_millis
    }

    /// Attempts reported so far, each of which was one call of the sensor.
    pub open(crate) spec fn calls(self) -> u32 {
        self.attempts
    }

    /// The first successful reading, once there is one.
    pub open(crate) spec fn obtained(self) -> Option<Reading> {
        self.reading
    }

    /// An acquisition that has made no attempt yet.
    pub open(crate) spec fn fresh(max_attempts: u32, retry_delay_millis: u32) -> Self {
        SensorAcquisition { max_attempts, retry_delay_millis, attempts: 0, reading: None }
    }

    /// Never more attempts than allowed.
    pub open spec fn wf(self) -> bool {
        self.calls() <= self.limit()
    }

    /// Another attempt may be made: no reading yet and attempts left.
    pub open spec fn open(self) -> bool {
        self.obtained() is None && self.calls() < self.limit()
    }

    /// All attempts allowed were made and none succeeded.
    pub open spec fn exhausted(self) -> bool {
        self.obtained() is None && self.calls() >= self.limit()
    }

    /// The verdict on an attempt that ended in `outcome`.
    pub open spec fn verdict(self, outcome: Option<Reading>) -> AcquireStep {
        if !self.open() {
            match self.obtained() {
                Some(reading) => AcquireStep::Done(reading),
                None => AcquireStep::Exhausted,
            }
        } else {
            match outcome {
                Some(reading) => AcquireStep::Done(reading),
                None => if self.calls() + 1 >= self.limit() {
                    AcquireStep::Exhausted
                } else {
                    AcquireStep::Retry { delay_millis: self.delay() }
                },
            }
        }
    }

    /// The acquisition after an attempt that ended in `outcome`. An attempt
    /// reported to an acquisition that is not open changes nothing.
    pub open(crate) spec fn after(self, outcome: Option<Reading>) -> Self {
        if !self.open() {
            self
        } else {
            SensorAcquisition { attempts: (self.attempts + 1) as u32, reading: outcome, ..self }
        }
    }

    /// The acquisition after the sensor was called for as long as the
    /// acquisition was open, the calls ending as `outcomes` says, in order.
    pub open spec fn run(self, outcomes: Seq<Option<Reading>>) -> Self
        decreases outcomes.len(),
    {
        if outcomes.len() == 0 || !self.open() {
            self
        } else {
            self.after(outcomes[0]).run(outcomes.drop_first())
        }
    }

    /// An acquisition of up to `max_attempts` readings with a pause of
    /// `retry_delay_millis` between one and the next.
    pub fn begin(max_attempts: u32, retry_delay_millis: u32) -> (acquisition: Self)
        ensures
            acquisition == Self::fresh(max_attempts, retry_delay_millis),
            acquisition.wf(),
            acquisition.calls() == 0,
            acquisition.obtained() is None,
            acquisition.limit() == max_attempts,
            acquisition.delay() == retry_delay_millis,
    {
        SensorAcquisition { max_attempts, retry_delay_millis, attempts: 0, reading: None }
    }

    /// Whether the sensor may be read once more.
    pub fn is_open(&self) -> (open: bool)
        ensures
            open == self.open(),
    {
        self.reading.is_none() && self.attempts < self.max_attempts
    }

    pub fn is_exhausted(&self) -> (exhausted: bool)
        ensures
            exhausted == self.exhausted(),
    {
        self.reading.is_none() && self.attempts >= self.max_attempts
    }

    /// Readings of the sensor reported so far.
    pub fn attempts(&self) -> (attempts: u32)
        ensures
            attempts == self.calls(),
    {
        self.attempts
    }

    pub fn max_attempts(&self) -> (limit: u32)
        ensures
            limit == self.limit(),
    {
        self.max_attempts
    }

    pub fn retry_delay_millis(&self) -> (millis: u32)
        ensures
            millis == self.delay(),
    {
        self.retry_delay_millis
    }

    pub fn reading(&self) -> (reading: Option<Reading>)
        ensures
            reading == self.obtained(),
    {
        self.reading
    }

    /// Reports how one call of the sensor ended: with a reading, or with
    /// nothing where the call failed in whatever way.
    pub fn record(&mut self, outcome: Option<Reading>) -> (step: AcquireStep)
        ensures
            *final(self) == old(self).after(outcome),
            step == old(self).verdict(outcome),
            old(self).wf() ==> final(self).wf(),
            old(self).open() ==> final(self).calls() == old(self).calls() + 1,
            step matches AcquireStep::Done(reading) ==> final(self).obtained() == Some(reading),
            step is Exhausted ==> final(self).exhausted(),
            step is Retry ==> final(self).open(),
    {
        if !self.is_open() {
            return match self.reading {
                Some(reading) => AcquireStep::Done(reading),
                None => AcquireStep::Exhausted,
            };
        }
        self.attempts = self.attempts + 1;
        self.reading = outcome;
        match outcome {
            Some(reading) => AcquireStep::Done(reading),
            None => if self.attempts >= self.max_attempts {
                AcquireStep::Exhausted
            } else {
                AcquireStep::Retry { delay_millis: self.retry_delay_millis }
            },
        }
    }
}

/// A run of `count` calls that all fail.
pub open spec fn failures(count: nat) -> Seq<Option<Reading>> {
    Seq::new(count, |i: int| None::<Reading>)
}

/// While the sensor keeps failing, every call is counted and nothing is
/// obtained.
pub proof fn law_failures_are_counted(acquisition: SensorAcquisition, count: nat)
    requires
        acquisition.wf(),
        acquisition.obtained() is None,
        acquisition.calls() + count <= acquisition.limit(),
    ensures
        acquisition.run(failures(count)).calls() == acquisition.calls() + count,
        acquisition.run(failures(count)).obtained() is None,
        acquisition.run(failures(count)).limit() == acquisition.limit(),
        acquisition.run(failures(count)).delay() == acquisition.delay(),
    decreases count,
{
    if count > 0 {
        assert(failures(count).drop_first() =~= failures((count - 1) as nat));
        law_failures_are_counted(acquisition.after(None), (count - 1) as nat);
    }
}

/// With `N` attempts allowed and a sensor that fails `N - 1` times and then
/// succeeds, the acquisition ends with that reading after exactly `N` calls.
pub proof fn law_last_attempt_can_succeed(
    max_attempts: u32,
    retry_delay_millis: u32,
    reading: Reading,
)
    requires
        max_attempts >= 1,
    ensures
        ({
            let outcomes = failures((max_attempts - 1) as nat).push(Some(reading));
            let end = SensorAcquisition::fresh(max_attempts, retry_delay_millis).run(outcomes);
            &&& end.obtained() == Some(reading)
            &&& end.calls() == max_attempts
            &&& !end.open()
        }),
{
    let start = SensorAcquisition::fresh(max_attempts, retry_delay_millis);
    let before = failures((max_attempts - 1) as nat);
    law_failures_are_counted(start, (max_attempts - 1) as nat);
    law_run_in_two_parts(start, before, seq![Some(reading)]);
    let middle = start.run(before);
    let last = seq![Some(reading)];
    assert(middle.run(last) == middle.after(Some(reading)).run(last.drop_first()));
    assert(before.push(Some(reading)) =~= before + last);
}

/// With `N` attempts allowed and a sensor that always fails, the acquisition
/// is exhausted after exactly `N` calls, however long the sensor would go on
/// failing.
pub proof fn law_exhausted_after_all_attempts(
    max_attempts: u32,
    retry_delay_millis: u32,
    count: nat,
)
    requires
        count >= max_attempts,
    ensures
        ({
            let end = SensorAcquisition::fresh(max_attempts, retry_delay_millis).run(
                failures(count),
            );
            &&& end.exhausted()
            &&& end.calls() == max_attempts
        }),
{
    let start = SensorAcquisition::fresh(max_attempts, retry_delay_millis);
    let first = failures(max_attempts as nat);
    let rest = failures((count - max_attempts) as nat);
    law_failures_are_counted(start, max_attempts as nat);
    law_run_in_two_parts(start, first, rest);
    assert(failures(count) =~= first + rest);
    law_closed_run_stands(start.run(first), rest);
}

/// An acquisition that is not open is not moved by further outcomes.
pub proof fn law_closed_run_stands(acquisition: SensorAcquisition, outcomes: Seq<Option<Reading>>)
    requires
        !acquisition.open(),
    ensures
        acquisition.run(outcomes) == acquisition,
{
}

/// Running over two sequences of outcomes one after the other is running
/// over their concatenation.
pub proof fn law_run_in_two_parts(
    acquisition: SensorAcquisition,
    first: Seq<Option<Reading>>,
    second: Seq<Option<Reading>>,
)
    ensures
        acquisition.run(first + second) == acquisition.run(first).run(second),
    decreases first.len(),
{
    if first.len() > 0 && acquisition.open() {
        assert((first + second).drop_first() =~= first.drop_first() + second);
        law_run_in_two_parts(acquisition.after(first[0]), first.drop_first(), second);
    }
}

/// No reading is made up: what an acquisition obtained is one of the
/// outcomes it was given, and it is the first success among them.
pub proof fn law_reading_is_first_success(
    max_attempts: u32,
    retry_delay_millis: u32,
    outcomes: Seq<Option<Reading>>,
)
    ensures
        ({
            let end = SensorAcquisition::fresh(max_attempts, retry_delay_millis).run(outcomes);
            let last = end.calls() - 1;
            &&& end.calls() <= max_attempts
            &&& end.calls() <= outcomes.len()
            &&& forall|i: int| 0 <= i < end.calls() - 1 ==> outcomes[i] is None
            &&& end.obtained() is Some ==> end.calls() >= 1 && end.obtained() == outcomes[last]
            &&& end.obtained() is None ==> (forall|i: int|
                0 <= i < end.calls() ==> outcomes[i] is None)
            &&& end.obtained() is None ==> end.calls() == max_attempts || end.calls()
                == outcomes.len()
        }),
{
    lemma_run_from(SensorAcquisition::fresh(max_attempts, retry_delay_millis), outcomes);
}

proof fn lemma_run_from(acquisition: SensorAcquisition, outcomes: Seq<Option<Reading>>)
    requires
        acquisition.wf(),
        acquisition.obtained() is None,
    ensures
        ({
            let end = acquisition.run(outcomes);
            let made = end.calls() - acquisition.calls();
            &&& end.limit() == acquisition.limit()
            &&& 0 <= made <= outcomes.len()
            &&& end.calls() <= acquisition.limit()
            &&& forall|i: int| 0 <= i < made - 1 ==> outcomes[i] is None
            &&& end.obtained() is Some ==> made >= 1 && end.obtained() == outcomes[made - 1]
            &&& end.obtained() is None ==> (forall|i: int| 0 <= i < made ==> outcomes[i] is None)
            &&& end.obtained() is None ==> end.calls() == acquisition.limit() || made
                == outcomes.len()
        }),
    decreases outcomes.len(),
{
    if outcomes.len() > 0 && acquisition.open() {
        let next = acquisition.after(outcomes[0]);
        let rest = outcomes.drop_first();
        if outcomes[0] is None {
            lemma_run_from(next, rest);
            let end = next.run(rest);
            let made = end.calls() - acquisition.calls();
            assert forall|i: int| 0 <= i < made - 1 implies outcomes[i] is None by {
                if i > 0 {
                    assert(rest[i - 1] == outcomes[i]);
                }
            }
            if end.obtained() is None {
                assert forall|i: int| 0 <= i < made implies outcomes[i] is None by {
                    if i > 0 {
                        assert(rest[i - 1] == outcomes[i]);
                    }
                }
            } else {
            }
        } else {
            law_closed_run_stands(next, rest);
        }
    }
}

} // verus!

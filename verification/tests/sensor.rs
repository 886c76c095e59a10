use duty_cycle::{AcquireStep, SensorAcquisition, Reading};

fn acquire(max_attempts: u32, script: &[Option<Reading>]) -> (Option<Reading>, u32, Vec<u32>) {
    let mut acquisition = SensorAcquisition::begin(max_attempts, 2000);
    let mut calls: u32 = 0;
    let mut pauses: Vec<u32> = Vec::new();
    let mut result: Option<Reading> = None;
    while acquisition.is_open() {
        let outcome = script[calls as usize];
        calls += 1;
        match acquisition.record(outcome) {
            AcquireStep::Done(reading) => {
                result = Some(reading);
            }
            AcquireStep::Retry { delay_millis } => pauses.push(delay_millis),
            AcquireStep::Exhausted => {}
        }
    }
    assert_eq!(acquisition.attempts(), calls);
    assert_eq!(acquisition.reading(), result);
    assert_eq!(acquisition.is_exhausted(), result.is_none());
    (result, calls, pauses)
}

#[test]
fn reading_keeps_its_values() {
    let reading = Reading::new(235, 412);
    assert_eq!(reading.temperature_tenths(), 235);
    assert_eq!(reading.humidity_tenths(), 412);
    assert_eq!(reading, Reading::new(235, 412));
    assert_ne!(reading, Reading::new(412, 235));
}

#[test]
fn whole_units_become_tenths() {
    let reading = Reading::from_whole_units(23, 41);
    assert_eq!(reading.temperature_tenths(), 230);
    assert_eq!(reading.humidity_tenths(), 410);
    let extreme = Reading::from_whole_units(i16::MIN, u16::MAX);
    assert_eq!(extreme.temperature_tenths(), -327_680);
    assert_eq!(extreme.humidity_tenths(), 655_350);
}

#[test]
fn success_on_the_last_attempt() {
    let reading = Reading::new(215, 480);
    for n in 1u32..=8 {
        let mut script: Vec<Option<Reading>> = vec![None; (n - 1) as usize];
        script.push(Some(reading));
        script.push(Some(Reading::new(0, 0)));
        let (result, calls, pauses) = acquire(n, &script);
        assert_eq!(result, Some(reading));
        assert_eq!(calls, n);
        assert_eq!(pauses, vec![2000; (n - 1) as usize]);
    }
}

#[test]
fn exhausted_after_all_attempts() {
    for n in 1u32..=8 {
        let script: Vec<Option<Reading>> = vec![None; 20];
        let (result, calls, pauses) = acquire(n, &script);
        assert_eq!(result, None);
        assert_eq!(calls, n);
        assert_eq!(pauses.len() as u32, n - 1);
    }
}

#[test]
fn first_success_is_returned() {
    let first = Reading::new(1, 2);
    let second = Reading::new(3, 4);
    let (result, calls, _) = acquire(5, &[None, Some(first), Some(second), None, None]);
    assert_eq!(result, Some(first));
    assert_eq!(calls, 2);
}

#[test]
fn no_attempts_allowed_is_exhausted_without_a_call() {
    let acquisition = SensorAcquisition::begin(0, 2000);
    assert!(!acquisition.is_open());
    assert!(acquisition.is_exhausted());
    let (result, calls, pauses) = acquire(0, &[]);
    assert_eq!(result, None);
    assert_eq!(calls, 0);
    assert!(pauses.is_empty());
}

#[test]
fn reports_to_a_closed_acquisition_change_nothing() {
    let reading = Reading::new(215, 480);
    let mut done = SensorAcquisition::begin(3, 10);
    assert_eq!(done.record(Some(reading)), AcquireStep::Done(reading));
    assert_eq!(done.record(Some(Reading::new(0, 0))), AcquireStep::Done(reading));
    assert_eq!(done.record(None), AcquireStep::Done(reading));
    assert_eq!(done.attempts(), 1);
    assert_eq!(done.reading(), Some(reading));

    let mut spent = SensorAcquisition::begin(1, 10);
    assert_eq!(spent.record(None), AcquireStep::Exhausted);
    assert_eq!(spent.record(Some(reading)), AcquireStep::Exhausted);
    assert_eq!(spent.attempts(), 1);
    assert_eq!(spent.reading(), None);
    assert_eq!(spent.max_attempts(), 1);
    assert_eq!(spent.retry_delay_millis(), 10);
}

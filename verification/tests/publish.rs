use duty_cycle::{
    measurement_for, measurements_for, render_payload, render_tenths, render_topic,
    DeliveryQuality, Labels, Measurement, PublishOutcome, PublishPipeline, Quantity, Reading,
};

fn labels() -> Labels {
    Labels { base_topic: String::from("home/indoor"), source_id: String::from("DHT11_Indoor") }
}

fn message(topic: &str) -> Measurement {
    Measurement {
        topic: String::from(topic),
        payload: vec![1, 2, 3],
        quality: DeliveryQuality::AtLeastOnce,
        retain: false,
    }
}

#[test]
fn tenths_are_written_with_one_decimal() {
    assert_eq!(render_tenths(235), "23.5");
    assert_eq!(render_tenths(230), "23.0");
    assert_eq!(render_tenths(0), "0.0");
    assert_eq!(render_tenths(7), "0.7");
    assert_eq!(render_tenths(10), "1.0");
    assert_eq!(render_tenths(99), "9.9");
    assert_eq!(render_tenths(100), "10.0");
    assert_eq!(render_tenths(1005), "100.5");
    assert_eq!(render_tenths(-5), "-0.5");
    assert_eq!(render_tenths(-123), "-12.3");
    assert_eq!(render_tenths(i32::MAX), "214748364.7");
    assert_eq!(render_tenths(i32::MIN), "-214748364.8");
}

#[test]
fn tenths_agree_with_one_decimal_formatting() {
    for tenths in -2500i32..=2500 {
        assert_eq!(render_tenths(tenths), format!("{:.1}", f64::from(tenths) / 10.0));
    }
}

#[test]
fn quantity_names() {
    assert_eq!(Quantity::Temperature.name(), "Temp");
    assert_eq!(Quantity::Humidity.name(), "Humidity");
}

#[test]
fn payload_is_a_json_object_with_id_and_value() {
    assert_eq!(
        render_payload("DHT11_Indoor", Quantity::Temperature, 230),
        br#"{"id": "DHT11_Indoor", "Temp": 23.0}"#.to_vec()
    );
    assert_eq!(
        render_payload("DHT11_Indoor", Quantity::Humidity, 455),
        br#"{"id": "DHT11_Indoor", "Humidity": 45.5}"#.to_vec()
    );
    assert_eq!(
        render_payload("", Quantity::Temperature, -1),
        br#"{"id": "", "Temp": -0.1}"#.to_vec()
    );
}

#[test]
fn payload_keeps_the_bytes_of_the_source_name() {
    let payload = render_payload("Küche", Quantity::Humidity, 500);
    assert_eq!(payload, "{\"id\": \"Küche\", \"Humidity\": 50.0}".as_bytes().to_vec());
}

#[test]
fn topic_is_base_slash_name() {
    assert_eq!(render_topic("home/indoor", Quantity::Temperature), "home/indoor/Temp");
    assert_eq!(render_topic("home/indoor", Quantity::Humidity), "home/indoor/Humidity");
    assert_eq!(render_topic("", Quantity::Humidity), "/Humidity");
}

#[test]
fn reading_becomes_temperature_then_humidity() {
    let measurements =
        measurements_for(&labels(), Reading::new(215, 480), DeliveryQuality::AtMostOnce, true);
    assert_eq!(measurements.len(), 2);
    assert_eq!(
        measurements[0],
        Measurement {
            topic: String::from("home/indoor/Temp"),
            payload: br#"{"id": "DHT11_Indoor", "Temp": 21.5}"#.to_vec(),
            quality: DeliveryQuality::AtMostOnce,
            retain: true,
        }
    );
    assert_eq!(
        measurements[1],
        Measurement {
            topic: String::from("home/indoor/Humidity"),
            payload: br#"{"id": "DHT11_Indoor", "Humidity": 48.0}"#.to_vec(),
            quality: DeliveryQuality::AtMostOnce,
            retain: true,
        }
    );
    assert_eq!(
        measurement_for(&labels(), Quantity::Humidity, 480, DeliveryQuality::AtMostOnce, true),
        measurements[1]
    );
}

#[test]
fn duplicate_is_equal() {
    let first = message("a/b");
    assert_eq!(first.duplicate(), first);
    let empty = Measurement {
        topic: String::new(),
        payload: Vec::new(),
        quality: DeliveryQuality::AtMostOnce,
        retain: true,
    };
    assert_eq!(empty.duplicate(), empty);
}

#[test]
fn failure_isolation() {
    let mut pipeline = PublishPipeline::new(vec![message("first"), message("second")]);
    let mut attempted: Vec<String> = Vec::new();
    let answers: [Result<(), i32>; 2] = [Err(-1), Ok(())];
    let mut i = 0;
    while let Some(measurement) = pipeline.next() {
        attempted.push(measurement.topic.clone());
        pipeline.record(answers[i]);
        i += 1;
    }
    assert_eq!(attempted, vec![String::from("first"), String::from("second")]);
    assert_eq!(
        pipeline.outcomes().clone(),
        vec![PublishOutcome::Failed(-1), PublishOutcome::Delivered]
    );
    assert!(pipeline.is_finished());
}

#[test]
fn one_outcome_per_message_in_order() {
    let topics = ["a", "b", "c", "d"];
    let answers: [Result<(), i32>; 4] = [Ok(()), Err(7), Err(-3), Ok(())];
    let mut pipeline = PublishPipeline::new(topics.iter().map(|t| message(t)).collect());
    assert_eq!(pipeline.len(), 4);
    for (i, answer) in answers.iter().enumerate() {
        assert!(!pipeline.is_finished());
        assert_eq!(pipeline.next().unwrap().topic, topics[i]);
        assert_eq!(pipeline.outcomes().len(), i);
        pipeline.record(*answer);
    }
    assert!(pipeline.next().is_none());
    assert_eq!(
        pipeline.outcomes().clone(),
        vec![
            PublishOutcome::Delivered,
            PublishOutcome::Failed(7),
            PublishOutcome::Failed(-3),
            PublishOutcome::Delivered
        ]
    );
}

#[test]
fn answers_to_a_finished_pipeline_are_dropped() {
    let mut pipeline = PublishPipeline::new(vec![message("only")]);
    pipeline.record(Ok(()));
    pipeline.record(Err(1));
    assert_eq!(pipeline.outcomes().clone(), vec![PublishOutcome::Delivered]);
    let mut empty = PublishPipeline::empty();
    assert!(empty.is_finished());
    assert!(empty.next().is_none());
    empty.record(Ok(()));
    assert!(empty.outcomes().is_empty());
    assert_eq!(empty.len(), 0);
}

use kafka_output::error::SinkError;
use kafka_output::output::{KafkaOutput, Outgoing, OutputWriter, POLL_WAIT_MS};
use kafka_output::value::Value;
use rdkafka::error::{KafkaError, RDKafkaErrorCode};
use std::time::{Duration, Instant};

fn pair(key: &[u8], payload: &[u8]) -> Value {
    Value::Tuple(vec![Value::Bytes(key.to_vec()), Value::Bytes(payload.to_vec())])
}

fn local_sink(topic: &str) -> KafkaOutput {
    KafkaOutput::new(&["localhost:9092".to_string()], topic.to_string()).unwrap()
}

#[test]
fn bootstrap_servers_are_comma_joined() {
    let brokers = vec!["localhost:9092".to_string(), "kafka-2:9093".to_string()];
    assert_eq!(KafkaOutput::bootstrap_servers(&brokers), "localhost:9092,kafka-2:9093");
    assert_eq!(KafkaOutput::bootstrap_servers(&brokers[..1]), "localhost:9092");
    assert_eq!(KafkaOutput::bootstrap_servers(&[]), "");
}

#[test]
fn new_keeps_the_topic() {
    let sink = local_sink("events");
    assert_eq!(sink.topic(), "events");
}

#[test]
fn new_reports_a_broker_name_with_nul() {
    let made = KafkaOutput::new(
        &["localhost:9092".to_string(), "bad\0host:9092".to_string()],
        "events".to_string(),
    );
    match made {
        Err(SinkError::SinkUnavailable { reason }) => assert!(!reason.is_empty()),
        Err(other) => panic!("another failure: {:?}", other),
        Ok(_) => panic!("a sink was made"),
    }
}

#[test]
fn from_created_reports_the_clients_failure() {
    let failed = Err(KafkaError::ClientCreation("no such host".to_string()));
    match KafkaOutput::from_created(failed, "events".to_string()) {
        Err(e) => {
            assert_eq!(
                e,
                SinkError::SinkUnavailable {
                    reason: "KafkaError (Client creation error: no such host)".to_string()
                }
            );
            assert_eq!(
                e.message(),
                "Producer creation error: KafkaError (Client creation error: no such host)"
            );
        }
        Ok(_) => panic!("a sink was made"),
    }
}

#[test]
fn enqueue_outcome_follows_the_client() {
    assert_eq!(KafkaOutput::enqueue_outcome(Ok(())), Ok(()));
    assert_eq!(
        KafkaOutput::enqueue_outcome(Err(KafkaError::MessageProduction(
            RDKafkaErrorCode::QueueFull
        ))),
        Err(SinkError::EnqueueFailed {
            reason: "KafkaError (Message production error: QueueFull (Local: Queue full))"
                .to_string()
        })
    );
}

#[test]
fn new_without_brokers() {
    let made = KafkaOutput::new(&[], "events".to_string());
    match made {
        Ok(sink) => assert_eq!(sink.topic(), "events"),
        Err(e) => panic!("no sink: {:?}", e),
    }
}

#[test]
fn outgoing_is_topic_key_and_payload() {
    let sink = local_sink("events");
    let item = pair(b"k1", b"v1");
    assert_eq!(
        sink.outgoing(&item),
        Ok(Outgoing {
            topic: "events",
            key: b"k1",
            payload: b"v1",
        })
    );
}

#[test]
fn outgoing_refuses_what_push_refuses() {
    let sink = local_sink("events");
    let texts = Value::Tuple(vec![
        Value::Text("bad".to_string()),
        Value::Text("bad".to_string()),
    ]);
    assert_eq!(
        sink.outgoing(&texts),
        Err(SinkError::InvalidRecord {
            got: "('bad', 'bad')".to_string()
        })
    );
    let nul = local_sink("\0");
    assert_eq!(
        nul.outgoing(&pair(b"k", b"v")),
        Err(SinkError::EnqueueFailed {
            reason: "topic holds a NUL character".to_string()
        })
    );
    assert_eq!(
        nul.outgoing(&texts),
        Err(SinkError::InvalidRecord {
            got: "('bad', 'bad')".to_string()
        })
    );
}

#[test]
fn push_takes_a_pair_and_refuses_texts() {
    let mut sink = local_sink("events");
    assert_eq!(sink.push(0, pair(b"k1", b"v1")), Ok(()));
    let bad = Value::Tuple(vec![
        Value::Text("bad".to_string()),
        Value::Text("bad".to_string()),
    ]);
    let refused = sink.push(0, bad);
    assert_eq!(
        refused,
        Err(SinkError::InvalidRecord {
            got: "('bad', 'bad')".to_string()
        })
    );
    assert_eq!(
        refused.unwrap_err().message(),
        "KafkaOutput requires a `(key, payload)` 2-tuple of bytes as input to producer; \
         got `('bad', 'bad')` instead"
    );
    assert_eq!(sink.topic(), "events");
    assert_eq!(sink.push(0, pair(b"k2", b"v2")), Ok(()));
}

#[test]
fn push_refuses_other_shapes() {
    let mut sink = local_sink("events");
    let empty = sink.push(0, Value::Tuple(Vec::new()));
    assert_eq!(empty, Err(SinkError::InvalidRecord { got: "()".to_string() }));
    let single = sink.push(1, Value::Bytes(b"k1".to_vec()));
    assert_eq!(single, Err(SinkError::InvalidRecord { got: "b'k1'".to_string() }));
    let three = sink.push(
        1,
        Value::Tuple(vec![
            Value::Bytes(b"a".to_vec()),
            Value::Bytes(b"b".to_vec()),
            Value::Bytes(b"c".to_vec()),
        ]),
    );
    assert_eq!(
        three,
        Err(SinkError::InvalidRecord {
            got: "(b'a', b'b', b'c')".to_string()
        })
    );
    let none = sink.push(2, Value::Other("None".to_string()));
    assert_eq!(none, Err(SinkError::InvalidRecord { got: "None".to_string() }));
}

#[test]
fn push_takes_any_epoch() {
    let mut sink = local_sink("events");
    assert_eq!(sink.push(0, pair(b"k", b"v")), Ok(()));
    assert_eq!(sink.push(0, pair(b"k", b"v")), Ok(()));
    assert_eq!(sink.push(7, pair(b"", b"")), Ok(()));
    assert_eq!(sink.push(u64::MAX, pair(b"k", b"v")), Ok(()));
}

#[test]
fn push_reports_a_record_that_the_client_refuses() {
    let mut sink = local_sink("events");
    let huge = vec![0u8; 4_000_000];
    match sink.push(0, pair(b"k", &huge)) {
        Err(SinkError::EnqueueFailed { reason }) => {
            assert!(reason.starts_with("KafkaError (Message production error:"))
        }
        other => panic!("not refused: {:?}", other),
    }
    assert_eq!(sink.push(0, pair(b"k", b"v")), Ok(()));
}

#[test]
fn push_reports_a_topic_with_nul() {
    let mut sink = local_sink("ev\0ents");
    assert_eq!(
        sink.push(0, pair(b"k", b"v")),
        Err(SinkError::EnqueueFailed {
            reason: "topic holds a NUL character".to_string()
        })
    );
    assert!(matches!(
        sink.push(0, Value::Other("None".to_string())),
        Err(SinkError::InvalidRecord { .. })
    ));
}

#[test]
fn push_does_not_wait_for_the_broker() {
    assert_eq!(POLL_WAIT_MS, 0);
    let mut sink = local_sink("events");
    for n in 0..200u64 {
        let started = Instant::now();
        assert_eq!(sink.push(n / 50, pair(b"key", b"payload")), Ok(()));
        assert!(started.elapsed() < Duration::from_secs(2));
    }
}

#[test]
fn bounded_wait_stops_at_the_longest_wait() {
    assert_eq!(KafkaOutput::bounded_wait(0), 0);
    assert_eq!(KafkaOutput::bounded_wait(1_500), 1_500);
    assert_eq!(KafkaOutput::bounded_wait(2_147_483_647), 2_147_483_647);
    assert_eq!(KafkaOutput::bounded_wait(2_147_483_648), 2_147_483_647);
    assert_eq!(KafkaOutput::bounded_wait(u64::MAX), 2_147_483_647);
}

#[test]
fn flush_returns_within_its_wait() {
    let sink = local_sink("events");
    let started = Instant::now();
    sink.flush(0);
    sink.flush(50);
    assert!(started.elapsed() < Duration::from_secs(5));
}

use kafka_output::error::SinkError;
use kafka_output::text::{has_nul, join};

fn owned(parts: &[&str]) -> Vec<String> {
    parts.iter().map(|p| p.to_string()).collect()
}

#[test]
fn join_puts_the_separator_between_parts() {
    assert_eq!(join(&owned(&[]), ","), "");
    assert_eq!(join(&owned(&["a"]), ","), "a");
    assert_eq!(join(&owned(&["a", "b", "c"]), ","), "a,b,c");
    assert_eq!(join(&owned(&["a", "", "c"]), ", "), "a, , c");
    assert_eq!(join(&owned(&["", ""]), "-"), "-");
    assert_eq!(join(&owned(&["x", "y"]), ""), "xy");
}

#[test]
fn join_agrees_with_std() {
    let parts = owned(&["localhost:9092", "kafka-2:9093", "[::1]:9094"]);
    assert_eq!(join(&parts, ","), parts.join(","));
}

#[test]
fn has_nul_finds_the_character() {
    assert!(!has_nul(""));
    assert!(!has_nul("events"));
    assert!(has_nul("\0"));
    assert!(has_nul("ev\0ents"));
    assert!(has_nul("events\0"));
    assert!(!has_nul("caf\u{e9}0"));
}

#[test]
fn message_names_the_shape_and_the_value() {
    let e = SinkError::InvalidRecord {
        got: "('bad', 'bad')".to_string(),
    };
    assert_eq!(
        e.message(),
        "KafkaOutput requires a `(key, payload)` 2-tuple of bytes as input to producer; \
         got `('bad', 'bad')` instead"
    );
}

#[test]
fn message_of_each_other_kind() {
    let config = SinkError::InvalidConfig {
        detail: "topic must not be empty".to_string(),
    };
    assert_eq!(config.message(), "topic must not be empty");
    let sink = SinkError::SinkUnavailable {
        reason: "no client".to_string(),
    };
    assert_eq!(sink.message(), "Producer creation error: no client");
    let queue = SinkError::EnqueueFailed {
        reason: "queue full".to_string(),
    };
    assert_eq!(queue.message(), "Failed to enqueue: queue full");
}

//! The broker client as the sink sees it: what is taken on trust of the
//! `rdkafka` crate.
//!
//! Nothing in this module is proved. Each item names the function of
//! `rdkafka` that it stands for and says what is assumed of it.

use rdkafka::config::ClientConfig;
use rdkafka::error::KafkaError;
use rdkafka::producer::{BaseProducer, BaseRecord, Producer};
use std::time::Duration;
use vstd::prelude::*;

verus! {

/// `rdkafka::error::KafkaError`, the failure of a call into the client.
/// Nothing is assumed of what it holds.
#[verifier::external_type_specification]
#[verifier::external_body]
pub struct ExKafkaError(KafkaError);

/// A `rdkafka::producer::BaseProducer`: the client's handle on its queue of
/// records and on the threads that send them. Nothing is assumed of what
/// it holds.
#[verifier::external_body]
pub struct ProducerHandle {
    inner: BaseProducer,
}

/// The longest wait, in milliseconds, that the client takes as a bounded
/// one.
pub const MAX_WAIT_MS: u64 = 0x7fff_ffff;

/// `ClientConfig::new().set(key, value).create()`: makes a producer from a
/// configuration of one entry.
///
/// Assumed: a value that holds a NUL character is refused, since the client
/// hands each value over as a C string. Whether any other configuration
/// gives a producer is the client's to decide.
#[verifier::external_body]
pub(crate) fn create_producer(key: &str, value: &str) -> (created: Result<
    ProducerHandle,
    KafkaError,
>)
    ensures
        value@.contains('\0') ==> created is Err,
{
    match ClientConfig::new().set(key, value).create() {
        Ok(inner) => Ok(ProducerHandle { inner }),
        Err(e) => Err(e),
    }
}

/// `BaseProducer::send` with a `BaseRecord` to `topic` that carries `key`
/// and `payload`: copies the record into the producer's queue, or says why
/// it could not. It does not wait for the broker.
///
/// The client turns the topic into a C string and panics on a NUL
/// character in it, so the topic must hold none. Nothing is assumed of the
/// outcome.
#[verifier::external_body]
pub(crate) fn send_record(producer: &ProducerHandle, topic: &str, key: &[u8], payload: &[u8]) -> (sent:
    Result<(), KafkaError>)
    requires
        !topic@.contains('\0'),
{
    match producer.inner.send(BaseRecord::to(topic).payload(payload).key(key)) {
        Ok(()) => Ok(()),
        Err((e, _)) => Err(e),
    }
}

/// `BaseProducer::poll` with a wait of `wait_ms` milliseconds: serves the
/// delivery reports that are ready and returns how many it served.
///
/// The client counts the wait in a signed 32-bit number of milliseconds,
/// and a longer one would wrap round to another wait, so the wait must
/// fit. Nothing is assumed of the count.
#[verifier::external_body]
pub(crate) fn poll_events(producer: &ProducerHandle, wait_ms: u64) -> (served: i32)
    requires
        wait_ms <= MAX_WAIT_MS,
{
    producer.inner.poll(Duration::from_millis(wait_ms))
}

/// `Producer::flush` on a `BaseProducer` with a wait of `wait_ms`
/// milliseconds: waits until the queued records are delivered or the wait
/// is over.
///
/// The wait must fit as for [`poll_events`].
#[verifier::external_body]
pub(crate) fn flush_queue(producer: &ProducerHandle, wait_ms: u64)
    requires
        wait_ms <= MAX_WAIT_MS,
{
    producer.inner.flush(Duration::from_millis(wait_ms))
}

/// The `Debug` form of a `KafkaError`, as `format!` gives it. Nothing is
/// assumed of the text.
#[verifier::external_body]
pub(crate) fn error_text(error: &KafkaError) -> (text: String) {
    format!("{:?}", error)
}

} // verus!

//! The sink contract and the sink that writes to Kafka.

use crate::client::{
    create_producer, error_text, flush_queue, poll_events, send_record, ProducerHandle,
    MAX_WAIT_MS,
};
use crate::codec::{decode, is_key_payload, key_of, payload_of};
use crate::error::SinkError;
use crate::text::{has_nul, join, joined, lemma_joined_contains, texts};
use crate::value::{rendering, Shape, Value};
use rdkafka::error::KafkaError;
use vstd::prelude::*;
use vstd::string::*;

verus! {

/// What the dataflow asks of every sink: to take one record of one epoch.
pub trait OutputWriter {
    /// The shape of record that this sink takes.
    spec fn takes(&self, item: Shape) -> bool;

    /// Hands one record of `epoch` to the sink.
    ///
    /// A record of another shape than the sink takes is refused as
    /// [`SinkError::InvalidRecord`], with its printed form. A record of the
    /// right shape is handed to the backend, and the only failure then is
    /// [`SinkError::EnqueueFailed`].
    fn push(&mut self, epoch: u64, item: Value) -> (outcome: Result<(), SinkError>)
        ensures
            !old(self).takes(item@) ==> (outcome matches Err(SinkError::InvalidRecord { got })
                && got@ == rendering(item@)),
            old(self).takes(item@) ==> (outcome is Ok || outcome matches Err(
                SinkError::EnqueueFailed { .. },
            )),
    ;
}

/// How long [`KafkaOutput::push`] waits for delivery reports, in
/// milliseconds: not at all.
pub const POLL_WAIT_MS: u64 = 0;

/// A sink that sends each record to one topic of a Kafka cluster.
///
/// The sink owns its producer. Records are buffered and sent by the
/// producer's own threads; `push` returns once a record is buffered and
/// learns nothing of its delivery.
pub struct KafkaOutput {
    producer: ProducerHandle,
    topic: String,
}

/// One record as the producer is handed it.
#[derive(Debug, PartialEq, Eq)]
pub struct Outgoing<'a> {
    /// The topic that the record goes to.
    pub topic: &'a str,
    /// The key of the record.
    pub key: &'a [u8],
    /// The payload of the record.
    pub payload: &'a [u8],
}

/// The reason of the failure to send to a topic that holds a NUL
/// character.
pub open spec fn nul_topic_reason() -> Seq<char> {
    "topic holds a NUL character"@
}

/// The list of servers that the client is configured with: the brokers
/// with a comma between each two.
pub open spec fn server_list(brokers: Seq<Seq<char>>) -> Seq<char> {
    joined(brokers, seq![','])
}

impl KafkaOutput {
    /// The topic that this sink sends to.
    pub closed spec fn topic_text(&self) -> Seq<char> {
        self.topic@
    }

    /// The producer that this sink sends through.
    pub closed spec fn producer_handle(&self) -> ProducerHandle {
        self.producer
    }

    /// The value of the client's `bootstrap.servers` entry for `brokers`.
    pub fn bootstrap_servers(brokers: &[String]) -> (servers: String)
        ensures
            servers@ == server_list(texts(brokers@)),
    {
        proof {
            reveal_strlit(",");
            assert(","@ == seq![',']);
        }
        join(brokers, ",")
    }

    /// Makes the sink for `topic` out of what the client answered when it
    /// was asked for a producer: the sink where there is a producer, else
    /// [`SinkError::SinkUnavailable`] with the client's account.
    pub fn from_created(created: Result<ProducerHandle, KafkaError>, topic: String) -> (made: Result<
        KafkaOutput,
        SinkError,
    >)
        ensures
            match made {
                Ok(sink) => {
                    &&& created matches Ok(producer)
                    &&& sink.producer_handle() == producer
                    &&& sink.topic_text() == topic@
                },
                Err(e) => created is Err && e is SinkUnavailable,
            },
    {
        match created {
            Ok(producer) => Ok(KafkaOutput { producer, topic }),
            Err(e) => Err(SinkError::SinkUnavailable { reason: error_text(&e) }),
        }
    }

    /// Makes a sink that sends to `topic` through `brokers`.
    ///
    /// The client decides whether it can be made. Where it cannot, and
    /// always where a broker's name holds a NUL character, the failure is
    /// [`SinkError::SinkUnavailable`]: it is reported at once and nothing is
    /// tried again.
    pub fn new(brokers: &[String], topic: String) -> (made: Result<KafkaOutput, SinkError>)
        ensures
            made matches Ok(sink) ==> sink.topic_text() == topic@,
            made matches Err(e) ==> e is SinkUnavailable,
            (exists|i: int| 0 <= i < brokers@.len() && (#[trigger] brokers@[i])@.contains('\0'))
                ==> made is Err,
    {
        let servers = Self::bootstrap_servers(brokers);
        proof {
            if exists|i: int| 0 <= i < brokers@.len() && (#[trigger] brokers@[i])@.contains('\0') {
                let i = choose|i: int|
                    0 <= i < brokers@.len() && (#[trigger] brokers@[i])@.contains('\0');
                lemma_joined_contains(texts(brokers@), seq![','], i, '\0');
            }
        }
        let created = create_producer("bootstrap.servers", servers.as_str());
        Self::from_created(created, topic)
    }

    /// The topic that this sink sends to.
    pub fn topic(&self) -> (topic: &String)
        ensures
            topic@ == self.topic_text(),
    {
        &self.topic
    }

    /// What the producer is handed for `item`: the sink's topic with the key
    /// and the payload of the record.
    ///
    /// A record that is no pair of byte strings is refused as
    /// [`SinkError::InvalidRecord`]. A pair is refused as
    /// [`SinkError::EnqueueFailed`] where the topic holds a NUL character,
    /// which no topic of the broker does.
    pub fn outgoing<'a>(&'a self, item: &'a Value) -> (out: Result<Outgoing<'a>, SinkError>)
        ensures
            match out {
                Ok(record) => {
                    &&& is_key_payload(item@)
                    &&& !self.topic_text().contains('\0')
                    &&& record.topic@ == self.topic_text()
                    &&& record.key@ == key_of(item@)
                    &&& record.payload@ == payload_of(item@)
                },
                Err(SinkError::InvalidRecord { got }) => {
                    &&& !is_key_payload(item@)
                    &&& got@ == rendering(item@)
                },
                Err(SinkError::EnqueueFailed { reason }) => {
                    &&& is_key_payload(item@)
                    &&& self.topic_text().contains('\0')
                    &&& reason@ == nul_topic_reason()
                },
                Err(_) => false,
            },
    {
        match decode(item) {
            Err(e) => Err(e),
            Ok((key, payload)) => {
                let topic = self.topic.as_str();
                if has_nul(topic) {
                    Err(
                        SinkError::EnqueueFailed {
                            reason: String::from_str("topic holds a NUL character"),
                        },
                    )
                } else {
                    Ok(Outgoing { topic, key, payload })
                }
            },
        }
    }

    /// What `push` returns for what the client answered when it was handed
    /// the record: success where the record was buffered, else
    /// [`SinkError::EnqueueFailed`] with the client's account.
    pub fn enqueue_outcome(sent: Result<(), KafkaError>) -> (outcome: Result<(), SinkError>)
        ensures
            sent is Ok <==> outcome is Ok,
            outcome matches Err(e) ==> e is EnqueueFailed,
    {
        match sent {
            Ok(()) => Ok(()),
            Err(e) => Err(SinkError::EnqueueFailed { reason: error_text(&e) }),
        }
    }

    /// The wait that the client is handed for a wait of `wait_ms`
    /// milliseconds: the same, but no longer than [`MAX_WAIT_MS`].
    pub fn bounded_wait(wait_ms: u64) -> (wait: u64)
        ensures
            wait == if wait_ms <= MAX_WAIT_MS {
                wait_ms
            } else {
                MAX_WAIT_MS
            },
    {
        if wait_ms > MAX_WAIT_MS {
            MAX_WAIT_MS
        } else {
            wait_ms
        }
    }

    /// Waits until the buffered records are delivered, for at most
    /// [`KafkaOutput::bounded_wait`] of `wait_ms` milliseconds.
    ///
    /// Nothing does this by itself: call it before the sink is dropped, or
    /// the records that are still buffered are lost.
    pub fn flush(&self, wait_ms: u64) {
        flush_queue(&self.producer, Self::bounded_wait(wait_ms));
    }
}

impl OutputWriter for KafkaOutput {
    /// A Kafka sink takes pairs of byte strings, the key and the payload.
    open spec fn takes(&self, item: Shape) -> bool {
        is_key_payload(item)
    }

    /// Sends one record to the sink's topic.
    ///
    /// The record has to be a `(key, payload)` pair of byte strings. It is
    /// handed to the producer with that key and payload, and the delivery
    /// reports that are ready are served without waiting. The epoch plays
    /// no part. The sink itself is left as it was.
    fn push(&mut self, _epoch: u64, item: Value) -> (outcome: Result<(), SinkError>)
        ensures
            *final(self) == *old(self),
            !is_key_payload(item@) ==> (outcome matches Err(SinkError::InvalidRecord { got })
                && got@ == rendering(item@)),
            is_key_payload(item@) ==> (outcome is Ok || outcome matches Err(
                SinkError::EnqueueFailed { .. },
            )),
            is_key_payload(item@) && old(self).topic_text().contains('\0') ==> (outcome matches Err(
                SinkError::EnqueueFailed { reason },
            ) && reason@ == nul_topic_reason()),
    {
        match self.outgoing(&item) {
            Err(e) => Err(e),
            Ok(record) => {
                let sent = send_record(&self.producer, record.topic, record.key, record.payload);
                let outcome = Self::enqueue_outcome(sent);
                if outcome.is_ok() {
                    poll_events(&self.producer, POLL_WAIT_MS);
                }
                outcome
            },
        }
    }
}

} // verus!

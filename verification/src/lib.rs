//! An output sink of a streaming dataflow that writes to Kafka.
//!
//! A dataflow hands each record that it produces, with the epoch it belongs
//! to, to a sink. This crate holds the contract that every sink meets
//! ([`OutputWriter`]), the sink that sends records to a topic of a Kafka
//! cluster ([`KafkaOutput`]), the codec that reads a loosely typed record as
//! the key and payload bytes that the broker takes ([`decode`]), and the
//! sink's configuration together with the tagged tuple that carries it from
//! the controlling process to each worker ([`KafkaOutputConfig`]).
//!
//! Delivery is best effort. `push` returns once the broker client has
//! buffered a record; whether the record reaches the broker is reported to
//! the client's own threads and goes no further. A caller that must not
//! lose buffered records calls [`KafkaOutput::flush`] before it drops the
//! sink.
//!
//! The contracts are stated over mathematical views: a record is a
//! [`Shape`], a configuration a [`ConfigView`]. What is assumed of the
//! broker client, and not proved, stands in [`client`].

pub mod client;
pub mod codec;
pub mod config;
pub mod error;
pub mod output;
pub mod text;
pub mod value;

pub use codec::decode;
pub use config::{ConfigView, KafkaOutputConfig};
pub use error::SinkError;
pub use output::{KafkaOutput, Outgoing, OutputWriter};
pub use value::{Shape, Value};

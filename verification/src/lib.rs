//! A command line tool's library for producing and consuming single Kafka
//! messages: the configuration files it reads, the client parameters of a
//! consumer, the text made of a received payload, and the runs that produce a
//! message, with or without Avro encoding through a schema registry.
use vstd::prelude::*;

pub mod client;
pub mod path;
pub mod args;
pub mod kafka_config;
pub mod consumer;
pub mod avro;
pub mod producer;
pub mod round_trip;
pub mod schema_refs;

verus! {

} // verus!

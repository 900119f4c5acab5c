//! Checking a message read back against the message file it was produced from:
//! both are taken as JSON, the message read back, where it is not JSON, as the
//! first value of an Avro container converted to JSON.
use vstd::prelude::*;
use vstd::utf8::encode_utf8;
use crate::avro::{
    avro_container_first, avro_container_opens, check_container_schema, container_schema_checked,
    container_to_json, container_value_fits_json,
    first_value, json_equal, json_text_parses, json_values_equal, open_container, parse_json,
    FirstValue, JsonOrigin,
};
use crate::consumer::{assignment_for, payload_text, AssignmentView};
use crate::producer::{
    law_plain_message_read_back, law_plain_message_sent, run_events, ActionView, KafkaProducer, ProduceEvent,
    ProduceStage,
};

verus! {

/// How a message read back compares with the message file.
#[derive(Clone, Copy, Debug, PartialEq, Eq, Structural)]
pub enum RoundTrip {
    /// The message file is not JSON.
    ExpectedNotJson,
    /// The message read back is neither JSON nor the start of an Avro container.
    ReceivedNotAvro,
    /// The message read back is an Avro container whose schema refers to a named
    /// type by its name; it is not decoded.
    ReceivedSchemaReferences,
    /// The message read back is an Avro container with no value.
    ReceivedEmpty,
    /// The first value of the container read back does not decode.
    ReceivedUndecodable,
    /// The first value of the container read back has no JSON counterpart.
    ReceivedNotJson,
    Matches,
    Differs,
}

/// How the message read back (`received`) compares with the message file's text (`expected`).
pub open spec fn round_trip(expected: Seq<char>, received: Seq<char>) -> RoundTrip {
    if !json_text_parses(expected) {
        RoundTrip::ExpectedNotJson
    } else if json_text_parses(received) {
        if received == expected || json_values_equal(JsonOrigin::Text(received), JsonOrigin::Text(expected)) {
            RoundTrip::Matches
        } else {
            RoundTrip::Differs
        }
    } else if !avro_container_opens(encode_utf8(received)) {
        RoundTrip::ReceivedNotAvro
    } else if !container_schema_checked(encode_utf8(received)) {
        RoundTrip::ReceivedSchemaReferences
    } else if avro_container_first(encode_utf8(received)) == FirstValue::Empty {
        RoundTrip::ReceivedEmpty
    } else if avro_container_first(encode_utf8(received)) == FirstValue::Invalid {
        RoundTrip::ReceivedUndecodable
    } else if !container_value_fits_json(encode_utf8(received)) {
        RoundTrip::ReceivedNotJson
    } else if json_values_equal(JsonOrigin::Container(encode_utf8(received)), JsonOrigin::Text(expected)) {
        RoundTrip::Matches
    } else {
        RoundTrip::Differs
    }
}

/// Compares the message read back with the text of the message file.
pub fn check_round_trip(expected: &str, received: &str) -> (res: RoundTrip)
    ensures
        res == round_trip(expected@, received@),
{
    let expect = match parse_json(expected) {
        Err(_) => {
            return RoundTrip::ExpectedNotJson;
        },
        Ok(j) => j,
    };
    match parse_json(received) {
        Ok(msg) => {
            if json_equal(&msg, &expect) {
                RoundTrip::Matches
            } else {
                RoundTrip::Differs
            }
        },
        Err(_) => match open_container(received.as_bytes()) {
            Err(_) => RoundTrip::ReceivedNotAvro,
            Ok(container) => if !check_container_schema(&container) {
                RoundTrip::ReceivedSchemaReferences
            } else {
                match first_value(container) {
                None => RoundTrip::ReceivedEmpty,
                Some(Err(_)) => RoundTrip::ReceivedUndecodable,
                Some(Ok(d)) => match container_to_json(d) {
                    Err(_) => RoundTrip::ReceivedNotJson,
                    Ok(msg) => if json_equal(&msg, &expect) {
                        RoundTrip::Matches
                    } else {
                        RoundTrip::Differs
                    },
                },
                }
            },
        },
    }
}

/// A JSON message file produced without a schema registry and read back passes the
/// check: the text read back is the text that was sent.
pub proof fn law_plain_json_message_round_trips(
    p: KafkaProducer,
    message: String,
    key: String,
    partition: i32,
    offset: i64,
)
    requires
        p.schema_registry is None,
        json_text_parses(message@),
    ensures
        run_events(
            p,
            ProduceStage::Start,
            Seq::empty(),
            seq![
                ProduceEvent::Begin,
                ProduceEvent::MessageRead(Some(message)),
                ProduceEvent::KeyRead(Some(key)),
                ProduceEvent::Delivery(Some((partition, offset))),
            ],
        ).2[2] matches ActionView::Send(record) && round_trip(message@, payload_text(Some(record.payload)))
            == RoundTrip::Matches,
{
    law_plain_message_read_back(p, message, key, partition, offset);
}

/// A message produced without a schema registry is what a consumer of the same
/// topic, told where the message was delivered, reads: it reads the topic the
/// record was sent to, at the partition and offset of the delivery, and the
/// payload it finds there reads back as the message file's text.
pub proof fn law_consumer_reads_the_produced_message(
    p: KafkaProducer,
    message: String,
    key: String,
    partition: i32,
    offset: i64,
    consumer_topic: Seq<char>,
    consumer_partition: Option<u32>,
)
    requires
        p.schema_registry is None,
        consumer_topic == p.topic@,
    ensures
        ({
            let run = run_events(
                p,
                ProduceStage::Start,
                Seq::empty(),
                seq![
                    ProduceEvent::Begin,
                    ProduceEvent::MessageRead(Some(message)),
                    ProduceEvent::KeyRead(Some(key)),
                    ProduceEvent::Delivery(Some((partition, offset))),
                ],
            );
            &&& run.0 == ProduceStage::Delivered(partition, offset)
            &&& run.2[2] matches ActionView::Send(record)
            &&& assignment_for(consumer_topic, consumer_partition, Some((partition, offset)))
                == AssignmentView::Offset(record.topic, partition, offset)
            &&& payload_text(Some(record.payload)) == message@
        }),
{
    law_plain_message_sent(p, message, key, partition, offset);
    law_plain_message_read_back(p, message, key, partition, offset);
}

} // verus!

use apache_avro::types::Value;
use apache_avro::{Schema, Writer};
use kafka_cli::round_trip::{check_round_trip, RoundTrip};

#[test]
fn same_json_matches() {
    assert_eq!(check_round_trip("{\"a\": 1, \"b\": [true]}", "{\"a\": 1, \"b\": [true]}"), RoundTrip::Matches);
}

#[test]
fn json_written_differently_matches() {
    assert_eq!(check_round_trip("{\"a\": 1, \"b\": 2}", "{ \"b\":2,\"a\":1 }"), RoundTrip::Matches);
}

#[test]
fn different_json_differs() {
    assert_eq!(check_round_trip("{\"a\": 1}", "{\"a\": 2}"), RoundTrip::Differs);
}

#[test]
fn expected_must_be_json() {
    assert_eq!(check_round_trip("not json", "{}"), RoundTrip::ExpectedNotJson);
}

#[test]
fn received_neither_json_nor_avro() {
    assert_eq!(check_round_trip("{}", ""), RoundTrip::ReceivedNotAvro);
    assert_eq!(check_round_trip("{}", "hello"), RoundTrip::ReceivedNotAvro);
}

/// An Avro container, as text: its random sync marker is replaced by ASCII letters.
fn container_text(schema: &str, values: Vec<Value>) -> String {
    let schema = Schema::parse_str(schema).unwrap();
    let mut writer = Writer::new(&schema, Vec::new()).unwrap();
    for v in values {
        writer.append(v).unwrap();
    }
    writer.flush().unwrap();
    let mut bytes = writer.into_inner().unwrap();
    let marker: Vec<u8> = bytes[bytes.len() - 16..].to_vec();
    let mut i = 0;
    while i + 16 <= bytes.len() {
        if bytes[i..i + 16] == marker[..] {
            bytes[i..i + 16].copy_from_slice(b"ABCDEFGHIJKLMNOP");
            i += 16;
        } else {
            i += 1;
        }
    }
    String::from_utf8(bytes).expect("the container is text")
}

#[test]
fn received_avro_container_is_compared_as_json() {
    // a short schema, so that its length is one byte
    let schema = r#"{"type":"map","values":"long"}"#;
    let map = [("a".to_string(), Value::Long(5))].into_iter().collect();
    let text = container_text(schema, vec![Value::Map(map)]);
    assert_eq!(check_round_trip("{\"a\": 5}", &text), RoundTrip::Matches);
    assert_eq!(check_round_trip("{\"a\": 6}", &text), RoundTrip::Differs);
}

#[test]
fn received_empty_container() {
    let text = container_text("\"long\"", vec![]);
    assert_eq!(check_round_trip("5", &text), RoundTrip::ReceivedEmpty);
}

#[test]
fn received_container_whose_schema_refers_to_a_name() {
    // a record that holds itself: no value can be written, and none is decoded
    let text = container_text(r#"{"type":"record","name":"N","fields":[{"name":"n","type":"N"}]}"#, vec![]);
    assert_eq!(check_round_trip("{}", &text), RoundTrip::ReceivedSchemaReferences);
}

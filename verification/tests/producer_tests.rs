use apache_avro::types::Value;
use apache_avro::{Schema, Writer};
use kafka_cli::avro::{
    check_registry_schema, load_avro_value, load_json_value, local_schema, record_fields, schema_comparison,
    AvroEntries, SchemaCheck, ValueOutcome,
};
use rdkafka::config::ClientConfig;

fn client_config_get(c: &ClientConfig, key: &str) -> Option<String> {
    c.get(key).map(|v| v.to_string())
}
use kafka_cli::kafka_config::{KafkaConfig, SchemaRegistryConfig};
use kafka_cli::producer::{
    KafkaProducer, ProduceAction, ProduceError, ProduceEvent, ProduceRun, ProduceStage, SetupError,
    SubjectNameStrategy,
};

const SCHEMA: &str = r#"{"type":"record","name":"Msg","namespace":"test","fields":[{"name":"a","type":"long"}]}"#;
const OTHER_SCHEMA: &str = r#"{"type":"record","name":"Other","fields":[{"name":"b","type":"string"}]}"#;

fn config(with_registry: bool) -> KafkaConfig {
    let mut client = ClientConfig::new();
    client.set("bootstrap.servers", "localhost:9092");
    KafkaConfig {
        client,
        schema_registry: if with_registry {
            Some(SchemaRegistryConfig {
                username: "user".to_string(),
                password: "SECRET-REDACTED".to_string(),
                endpoint: "http://localhost:8081".to_string(),
            })
        } else {
            None
        },
    }
}

fn producer(message_file: &str, schema_id: Option<u32>) -> KafkaProducer {
    let local = schema_id.map(|_| SCHEMA.to_string());
    match KafkaProducer::try_new(
        &config(schema_id.is_some()),
        &"test".to_string(),
        &"resources/key.msg".to_string(),
        &message_file.to_string(),
        &schema_id,
        local,
    ) {
        Ok(p) => p,
        Err(e) => panic!("setup failed: {:?}", e),
    }
}

/// Drives a run as the command line tool does: an event that ends it in failure
/// stops it there, any other is a step.
fn step(p: &KafkaProducer, run: ProduceRun, e: ProduceEvent) -> (ProduceRun, ProduceAction) {
    match p.failure(&run, &e) {
        Some(err) => (ProduceRun { stage: ProduceStage::Failed(err), payload: run.payload }, ProduceAction::Idle),
        None => p.step(run, e),
    }
}

#[test]
fn setup_without_schema_id() {
    let p = producer("resources/msg.msg", None);
    assert!(p.schema_registry.is_none());
    assert_eq!(p.topic, "test");
    assert_eq!(p.message_file, "resources/msg.msg");
    assert_eq!(p.key_file, "resources/key.msg");
    assert_eq!(client_config_get(&p.client, "bootstrap.servers"), Some("localhost:9092".to_string()));
}

#[test]
fn setup_errors() {
    let t = "test".to_string();
    let k = "k".to_string();
    let m = "m.json".to_string();
    let r = KafkaProducer::try_new(&config(false), &t, &k, &m, &Some(7), Some(SCHEMA.to_string()));
    assert_eq!(r.err(), Some(SetupError::MissingSchemaRegistryConfig));
    let r = KafkaProducer::try_new(&config(true), &t, &k, &m, &Some(7), None);
    assert_eq!(r.err(), Some(SetupError::MissingLocalSchema));
    let r = KafkaProducer::try_new(&config(true), &t, &k, &m, &Some(7), Some("{not a schema".to_string()));
    assert_eq!(r.err(), Some(SetupError::InvalidLocalSchema));
}

#[test]
fn setup_with_registry() {
    let p = producer("resources/msg.json", Some(100005));
    let r = p.schema_registry.as_ref().unwrap();
    assert_eq!(r.schema_id, 100005);
    match &r.subject_name_strategy {
        SubjectNameStrategy::TopicNameStrategy(topic, is_key) => {
            assert_eq!(topic, "test");
            assert!(!is_key);
        }
    }
    assert_eq!(r.config.endpoint, "http://localhost:8081");
    assert_eq!(r.config.username, "user");
}

#[test]
fn plain_message_run() {
    let p = producer("resources/msg.msg", None);
    let run = KafkaProducer::start();
    let (run, a) = step(&p, run, ProduceEvent::Begin);
    assert!(matches!(a, ProduceAction::ReadMessage(ref f) if f == "resources/msg.msg"));
    let (run, a) = step(&p, run, ProduceEvent::MessageRead(Some("héllo".to_string())));
    assert_eq!(run.stage, ProduceStage::ReadingKey);
    assert_eq!(run.payload, "héllo".as_bytes().to_vec());
    assert!(matches!(a, ProduceAction::ReadKey(ref f) if f == "resources/key.msg"));
    let (run, a) = step(&p, run, ProduceEvent::KeyRead(Some("k1".to_string())));
    assert_eq!(run.stage, ProduceStage::Delivering);
    match a {
        ProduceAction::Send(r) => {
            assert_eq!(r.topic, "test");
            assert_eq!(r.key, "k1");
            assert_eq!(r.payload, "héllo".as_bytes().to_vec());
            assert_eq!(r.headers, vec![("key".to_string(), "value".to_string())]);
            assert_eq!(r.timeout_secs, 5);
        }
        _ => panic!("expected a send"),
    }
    let sent = kafka_cli::consumer::received_payload(Some(run.payload.as_slice()));
    assert_eq!(sent, "héllo");
    let (run, a) = step(&p, run, ProduceEvent::Delivery(Some((0, 42))));
    assert_eq!(run.stage, ProduceStage::Delivered(0, 42));
    assert!(matches!(a, ProduceAction::Idle));
    // a finished run stays finished
    let (run, a) = step(&p, run, ProduceEvent::Begin);
    assert_eq!(run.stage, ProduceStage::Delivered(0, 42));
    assert!(matches!(a, ProduceAction::Idle));
}

#[test]
fn plain_message_failures() {
    let p = producer("m", None);
    let (run, _) = step(&p, KafkaProducer::start(), ProduceEvent::Begin);
    let (run, _) = step(&p, run, ProduceEvent::MessageRead(None));
    assert_eq!(run.stage, ProduceStage::Failed(ProduceError::MessageUnreadable));

    let (run, _) = step(&p, KafkaProducer::start(), ProduceEvent::Begin);
    let (run, _) = step(&p, run, ProduceEvent::MessageRead(Some("x".to_string())));
    let (run, _) = step(&p, run, ProduceEvent::KeyRead(None));
    assert_eq!(run.stage, ProduceStage::Failed(ProduceError::KeyUnreadable));

    let (run, _) = step(&p, KafkaProducer::start(), ProduceEvent::Begin);
    let (run, _) = step(&p, run, ProduceEvent::MessageRead(Some("x".to_string())));
    let (run, _) = step(&p, run, ProduceEvent::KeyRead(Some("k".to_string())));
    let (run, _) = step(&p, run, ProduceEvent::Delivery(None));
    assert_eq!(run.stage, ProduceStage::Failed(ProduceError::DeliveryFailed));
}

#[test]
fn unexpected_event_changes_nothing() {
    let p = producer("m", None);
    let (run, a) = step(&p, KafkaProducer::start(), ProduceEvent::KeyRead(Some("k".to_string())));
    assert_eq!(run.stage, ProduceStage::Start);
    assert!(matches!(a, ProduceAction::Idle));
}

fn to_opened(p: &KafkaProducer) -> (ProduceRun, ProduceAction) {
    let (run, _) = step(p, KafkaProducer::start(), ProduceEvent::Begin);
    let (run, a) = step(p, run, ProduceEvent::MessageRead(Some("{\"a\": 3}".to_string())));
    assert_eq!(run.stage, ProduceStage::FetchingSchema);
    let id = p.schema_registry.as_ref().unwrap().schema_id;
    assert!(matches!(a, ProduceAction::FetchSchema(i) if i == id));
    let (run, a) = step(p, run, ProduceEvent::SchemaChecked(SchemaCheck::Matches));
    assert!(matches!(a, ProduceAction::OpenMessage(_)));
    step(p, run, ProduceEvent::MessageOpened(true))
}

#[test]
fn registry_json_run() {
    let p = producer("resources/msg.json", Some(100005));
    let (run, a) = to_opened(&p);
    assert_eq!(run.stage, ProduceStage::LoadingJson);
    assert!(matches!(a, ProduceAction::ReadJsonText(ref f) if f == "resources/msg.json"));
    let outcome = load_json_value(Some("{\"a\": 3}".to_string()), &p.schema_registry.as_ref().unwrap().schema);
    let (run, a) = step(&p, run, ProduceEvent::ValueLoaded(outcome));
    assert_eq!(run.stage, ProduceStage::Encoding);
    match a {
        ProduceAction::Encode(fields, SubjectNameStrategy::TopicNameStrategy(topic, is_key)) => {
            assert_eq!(fields.len(), 1);
            assert_eq!(fields[0].0, "a");
            assert_eq!(fields[0].1, Value::Int(3));
            assert_eq!(topic, "test");
            assert!(!is_key);
        }
        _ => panic!("expected encoding"),
    }
    let (run, _) = step(&p, run, ProduceEvent::Encoded(Some(vec![0, 0, 1, 134, 165, 6])));
    assert_eq!(run.stage, ProduceStage::ReadingKey);
    let (run, a) = step(&p, run, ProduceEvent::KeyRead(Some("key".to_string())));
    match a {
        ProduceAction::Send(r) => assert_eq!(r.payload, vec![0, 0, 1, 134, 165, 6]),
        _ => panic!("expected a send"),
    }
    let (run, _) = step(&p, run, ProduceEvent::Delivery(Some((2, 7))));
    assert_eq!(run.stage, ProduceStage::Delivered(2, 7));
}

#[test]
fn registry_avro_run_loads_container() {
    let p = producer("resources/msg.avro", Some(100005));
    let (run, a) = to_opened(&p);
    assert_eq!(run.stage, ProduceStage::LoadingAvro);
    assert!(matches!(a, ProduceAction::ReadAvroBytes(_)));
    let schema = Schema::parse_str(SCHEMA).unwrap();
    let mut writer = Writer::new(&schema, Vec::new()).unwrap();
    writer.append(Value::Record(vec![("a".to_string(), Value::Long(9))])).unwrap();
    let bytes = writer.into_inner().unwrap();
    let outcome = load_avro_value(Some(bytes));
    let (run, a) = step(&p, run, ProduceEvent::ValueLoaded(outcome));
    assert_eq!(run.stage, ProduceStage::Encoding);
    match a {
        ProduceAction::Encode(fields, _) => {
            assert_eq!(fields, vec![("a".to_string(), Value::Long(9))]);
        }
        _ => panic!("expected encoding"),
    }
}

#[test]
fn registry_failures() {
    let p = producer("resources/msg.json", Some(1));
    for (check, err) in [
        (SchemaCheck::Unavailable, ProduceError::SchemaUnavailable),
        (SchemaCheck::Unparsable, ProduceError::RegistrySchemaInvalid),
        (SchemaCheck::Differs, ProduceError::SchemaMismatch),
    ] {
        let (run, _) = step(&p, KafkaProducer::start(), ProduceEvent::Begin);
        let (run, _) = step(&p, run, ProduceEvent::MessageRead(Some("{}".to_string())));
        let (run, a) = step(&p, run, ProduceEvent::SchemaChecked(check));
        assert_eq!(run.stage, ProduceStage::Failed(err));
        assert!(matches!(a, ProduceAction::Idle));
    }
    let (run, _) = step(&p, KafkaProducer::start(), ProduceEvent::Begin);
    let (run, _) = step(&p, run, ProduceEvent::MessageRead(Some("{}".to_string())));
    let (run, _) = step(&p, run, ProduceEvent::SchemaChecked(SchemaCheck::Matches));
    let (run, _) = step(&p, run, ProduceEvent::MessageOpened(false));
    assert_eq!(run.stage, ProduceStage::Failed(ProduceError::MessageUnopenable));

    let (run, _) = to_opened(&p);
    let (run, _) = step(&p, run, ProduceEvent::ValueLoaded(ValueOutcome::JsonInvalid));
    assert_eq!(run.stage, ProduceStage::Failed(ProduceError::JsonInvalid));

    let (run, _) = to_opened(&p);
    let (run, _) = step(&p, run, ProduceEvent::ValueLoaded(ValueOutcome::NotValidForSchema));
    assert_eq!(run.stage, ProduceStage::Failed(ProduceError::ValueNotValidForSchema));

    let (run, _) = to_opened(&p);
    let (run, _) = step(&p, run, ProduceEvent::ValueLoaded(ValueOutcome::Fields(vec![])));
    let (run, _) = step(&p, run, ProduceEvent::Encoded(None));
    assert_eq!(run.stage, ProduceStage::Failed(ProduceError::EncodingFailed));
}

#[test]
fn extension_decides_the_format() {
    let p = producer("resources/msg", Some(1));
    let (run, _) = to_opened(&p);
    assert_eq!(run.stage, ProduceStage::Failed(ProduceError::MissingExtension));
    let p = producer("resources/msg.txt", Some(1));
    let (run, _) = to_opened(&p);
    assert_eq!(run.stage, ProduceStage::Failed(ProduceError::UnsupportedExtension));
    let p = producer("resources/msg.JSON", Some(1));
    let (run, _) = to_opened(&p);
    assert_eq!(run.stage, ProduceStage::Failed(ProduceError::UnsupportedExtension));
}

#[test]
fn registry_schema_checks() {
    let local = local_schema(SCHEMA).unwrap();
    assert_eq!(check_registry_schema(&local, None), SchemaCheck::Unavailable);
    assert_eq!(check_registry_schema(&local, Some("{oops".to_string())), SchemaCheck::Unparsable);
    assert_eq!(check_registry_schema(&local, Some(SCHEMA.to_string())), SchemaCheck::Matches);
    // the same schema written differently is the same schema
    let spaced = r#"{ "type": "record", "namespace": "test", "name": "Msg", "fields": [ {"name": "a", "type": "long"} ] }"#;
    assert_eq!(check_registry_schema(&local, Some(spaced.to_string())), SchemaCheck::Matches);
    assert_eq!(check_registry_schema(&local, Some(OTHER_SCHEMA.to_string())), SchemaCheck::Differs);
    assert_eq!(schema_comparison(true), SchemaCheck::Matches);
    assert_eq!(schema_comparison(false), SchemaCheck::Differs);
    assert!(local_schema("not a schema").is_none());
}

fn kind(o: &ValueOutcome) -> &'static str {
    match o {
        ValueOutcome::Unreadable => "unreadable",
        ValueOutcome::AvroHeaderInvalid => "header",
        ValueOutcome::AvroSchemaReferences => "references",
        ValueOutcome::AvroEmpty => "empty",
        ValueOutcome::AvroValueInvalid => "value",
        ValueOutcome::JsonInvalid => "json",
        ValueOutcome::JsonNotAvro => "notavro",
        ValueOutcome::SchemaUnresolved => "unresolved",
        ValueOutcome::NotValidForSchema => "invalid",
        ValueOutcome::NotARecord => "notrecord",
        ValueOutcome::Fields(_) => "fields",
    }
}

#[test]
fn json_value_outcomes() {
    let schema = local_schema(SCHEMA).unwrap();
    assert_eq!(kind(&load_json_value(None, &schema)), "unreadable");
    assert_eq!(kind(&load_json_value(Some("nope".to_string()), &schema)), "json");
    assert_eq!(kind(&load_json_value(Some("{\"a\": \"x\"}".to_string()), &schema)), "invalid");
    assert_eq!(kind(&load_json_value(Some("{\"a\": 1}".to_string()), &schema)), "fields");
    assert_eq!(
        kind(&load_json_value(Some("{\"a\": 1e400}".to_string()), &schema)),
        "json"
    );
    assert_eq!(
        kind(&load_json_value(Some("{\"a\": 18446744073709551615}".to_string()), &schema)),
        "notavro"
    );
    let long = local_schema("\"long\"").unwrap();
    assert_eq!(kind(&load_json_value(Some("3".to_string()), &long)), "notrecord");
}

#[test]
fn avro_value_outcomes() {
    assert_eq!(kind(&load_avro_value(None)), "unreadable");
    assert_eq!(kind(&load_avro_value(Some(b"not avro".to_vec()))), "header");
    let schema = Schema::parse_str(SCHEMA).unwrap();
    let writer = Writer::new(&schema, Vec::new()).unwrap();
    let empty = writer.into_inner().unwrap();
    assert_eq!(kind(&load_avro_value(Some(empty))), "empty");
    let long = Schema::parse_str("\"long\"").unwrap();
    let mut writer = Writer::new(&long, Vec::new()).unwrap();
    writer.append(Value::Long(5)).unwrap();
    assert_eq!(kind(&load_avro_value(Some(writer.into_inner().unwrap()))), "notrecord");
}

#[test]
fn record_fields_of_entries() {
    let f = vec![("x".to_string(), Value::Boolean(true))];
    match record_fields(AvroEntries::Record(f.clone())) {
        ValueOutcome::Fields(g) => assert_eq!(g, f),
        _ => panic!(),
    }
    match record_fields(AvroEntries::MapEntries(f.clone())) {
        ValueOutcome::Fields(g) => assert_eq!(g, f),
        _ => panic!(),
    }
    assert_eq!(kind(&record_fields(AvroEntries::Other)), "notrecord");
}

#[test]
fn every_failed_load_fails_the_run() {
    let p = producer("resources/msg.avro", Some(3));
    let cases = [
        (ValueOutcome::Unreadable, ProduceError::MessageUnreadable),
        (ValueOutcome::AvroHeaderInvalid, ProduceError::AvroHeaderInvalid),
        (ValueOutcome::AvroSchemaReferences, ProduceError::AvroSchemaReferences),
        (ValueOutcome::AvroEmpty, ProduceError::AvroEmpty),
        (ValueOutcome::AvroValueInvalid, ProduceError::AvroValueInvalid),
        (ValueOutcome::JsonInvalid, ProduceError::JsonInvalid),
        (ValueOutcome::JsonNotAvro, ProduceError::JsonNotAvro),
        (ValueOutcome::SchemaUnresolved, ProduceError::SchemaUnresolved),
        (ValueOutcome::NotValidForSchema, ProduceError::ValueNotValidForSchema),
        (ValueOutcome::NotARecord, ProduceError::NotARecord),
    ];
    for (outcome, err) in cases {
        let (run, _) = to_opened(&p);
        assert_eq!(run.stage, ProduceStage::LoadingAvro);
        let (run, a) = step(&p, run, ProduceEvent::ValueLoaded(outcome));
        assert_eq!(run.stage, ProduceStage::Failed(err));
        assert!(matches!(a, ProduceAction::Idle));
    }
}

#[test]
fn truncated_container_value_does_not_decode() {
    let schema = Schema::parse_str(SCHEMA).unwrap();
    let mut writer = Writer::new(&schema, Vec::new()).unwrap();
    writer.append(Value::Record(vec![("a".to_string(), Value::Long(123456789))])).unwrap();
    let bytes = writer.into_inner().unwrap();
    let cut = bytes[..bytes.len() - 20].to_vec();
    assert_eq!(kind(&load_avro_value(Some(cut))), "value");
}

#[test]
fn schema_defining_a_name_twice_does_not_validate() {
    let twice = r#"{"type":"record","name":"Outer","fields":[
        {"name":"a","type":{"type":"record","name":"X","fields":[]}},
        {"name":"b","type":{"type":"record","name":"X","fields":[]}}]}"#;
    let schema = local_schema(twice).unwrap();
    assert_eq!(
        kind(&load_json_value(Some("{\"a\": {}, \"b\": {}}".to_string()), &schema)),
        "unresolved"
    );
    assert_eq!(kind(&load_json_value(Some("nope".to_string()), &schema)), "json");
}

#[test]
fn loaded_json_fields_are_the_object_keys() {
    let schema = local_schema(r#"{"type":"record","name":"M","fields":[{"name":"a","type":"long"},{"name":"b","type":"long"}]}"#).unwrap();
    match load_json_value(Some("{\"b\": 2, \"a\": 1}".to_string()), &schema) {
        ValueOutcome::Fields(f) => {
            let mut names: Vec<String> = f.iter().map(|(n, _)| n.clone()).collect();
            names.sort();
            assert_eq!(names, vec!["a".to_string(), "b".to_string()]);
            for (n, v) in f {
                let expected = if n == "a" { 1 } else { 2 };
                assert_eq!(v, Value::Int(expected));
            }
        }
        _ => panic!("expected fields"),
    }
}

#[test]
fn loaded_record_fields_come_in_schema_order() {
    let schema = Schema::parse_str(r#"{"type":"record","name":"M","fields":[{"name":"z","type":"long"},{"name":"y","type":"string"}]}"#).unwrap();
    let mut writer = Writer::new(&schema, Vec::new()).unwrap();
    writer
        .append(Value::Record(vec![
            ("z".to_string(), Value::Long(7)),
            ("y".to_string(), Value::String("s".to_string())),
        ]))
        .unwrap();
    match load_avro_value(Some(writer.into_inner().unwrap())) {
        ValueOutcome::Fields(f) => assert_eq!(
            f,
            vec![
                ("z".to_string(), Value::Long(7)),
                ("y".to_string(), Value::String("s".to_string())),
            ]
        ),
        _ => panic!("expected fields"),
    }
}

#[test]
fn container_whose_schema_refers_to_a_name_is_not_decoded() {
    // a record that holds a union of null and itself: decoding follows the name
    let linked = Schema::parse_str(
        r#"{"type":"record","name":"Node","fields":[{"name":"v","type":"long"},{"name":"next","type":["null","Node"]}]}"#,
    )
    .unwrap();
    let mut writer = Writer::new(&linked, Vec::new()).unwrap();
    writer
        .append(Value::Record(vec![
            ("v".to_string(), Value::Long(1)),
            ("next".to_string(), Value::Union(0, Box::new(Value::Null))),
        ]))
        .unwrap();
    assert_eq!(kind(&load_avro_value(Some(writer.into_inner().unwrap()))), "references");
    // a named type used twice is referred to by name the second time
    let twice = Schema::parse_str(
        r#"{"type":"record","name":"P","fields":[{"name":"a","type":{"type":"fixed","name":"F","size":1}},{"name":"b","type":"F"}]}"#,
    )
    .unwrap();
    let writer = Writer::new(&twice, Vec::new()).unwrap();
    assert_eq!(kind(&load_avro_value(Some(writer.into_inner().unwrap()))), "references");
}

#[test]
fn nested_records_without_references_are_decoded() {
    let nested = Schema::parse_str(
        r#"{"type":"record","name":"Outer","doc":"a \"quoted\" doc","fields":[{"name":"inner","type":{"type":"record","name":"Inner","fields":[{"name":"x","type":"int"}]}},{"name":"tags","type":{"type":"array","items":"string"}},{"name":"e","type":{"type":"enum","name":"E","symbols":["A","B"]}}]}"#,
    )
    .unwrap();
    let value = Value::Record(vec![
        ("inner".to_string(), Value::Record(vec![("x".to_string(), Value::Int(3))])),
        ("tags".to_string(), Value::Array(vec![Value::String("t".to_string())])),
        ("e".to_string(), Value::Enum(1, "B".to_string())),
    ]);
    let mut writer = Writer::new(&nested, Vec::new()).unwrap();
    writer.append(value.clone()).unwrap();
    let bytes = writer.into_inner().unwrap();
    // the doc holds an escaped quote, which the check does not accept
    assert_eq!(kind(&load_avro_value(Some(bytes))), "references");
    let plain = Schema::parse_str(
        r#"{"type":"record","name":"Outer","fields":[{"name":"inner","type":{"type":"record","name":"Inner","fields":[{"name":"x","type":"int"}]}},{"name":"tags","type":{"type":"array","items":"string"}},{"name":"e","type":{"type":"enum","name":"E","symbols":["A","B"]}}]}"#,
    )
    .unwrap();
    let mut writer = Writer::new(&plain, Vec::new()).unwrap();
    writer.append(value).unwrap();
    match load_avro_value(Some(writer.into_inner().unwrap())) {
        ValueOutcome::Fields(f) => {
            let names: Vec<&str> = f.iter().map(|(n, _)| n.as_str()).collect();
            assert_eq!(names, vec!["inner", "tags", "e"]);
        }
        o => panic!("expected fields, got {}", kind(&o)),
    }
}

#[test]
fn new_sets_up_what_it_is_given() {
    let p = KafkaProducer::new(
        &config(true),
        &"orders".to_string(),
        &"k".to_string(),
        &"m.avro".to_string(),
        &Some(9),
        Some(SCHEMA.to_string()),
    );
    assert_eq!(p.topic, "orders");
    assert_eq!(p.schema_registry.as_ref().unwrap().schema_id, 9);
    let plain = KafkaProducer::new(&config(false), &"t".to_string(), &"k".to_string(), &"m".to_string(), &None, None);
    assert!(plain.schema_registry.is_none());
}

#[test]
fn failure_tells_which_events_end_a_run() {
    let p = producer("m.json", None);
    let run = KafkaProducer::start();
    assert_eq!(p.failure(&run, &ProduceEvent::Begin), None);
    let (run, _) = p.step(run, ProduceEvent::Begin);
    assert_eq!(p.failure(&run, &ProduceEvent::MessageRead(None)), Some(ProduceError::MessageUnreadable));
    assert_eq!(p.failure(&run, &ProduceEvent::MessageRead(Some("x".to_string()))), None);
    let failed = ProduceRun { stage: ProduceStage::Failed(ProduceError::KeyUnreadable), payload: vec![] };
    assert_eq!(p.failure(&failed, &ProduceEvent::Begin), Some(ProduceError::KeyUnreadable));
    let unsupported = producer("m.txt", Some(1));
    let opening = ProduceRun { stage: ProduceStage::OpeningMessage, payload: vec![] };
    assert_eq!(
        unsupported.failure(&opening, &ProduceEvent::MessageOpened(true)),
        Some(ProduceError::UnsupportedExtension)
    );
    let none = producer("message", Some(1));
    assert_eq!(none.failure(&opening, &ProduceEvent::MessageOpened(true)), Some(ProduceError::MissingExtension));
}

#[test]
fn loaded_map_entries_keep_their_values() {
    let schema = Schema::parse_str(r#"{"type":"map","values":"long"}"#).unwrap();
    let mut writer = Writer::new(&schema, Vec::new()).unwrap();
    let map = [("p".to_string(), Value::Long(1)), ("q".to_string(), Value::Long(2))].into_iter().collect();
    writer.append(Value::Map(map)).unwrap();
    match load_avro_value(Some(writer.into_inner().unwrap())) {
        ValueOutcome::Fields(mut f) => {
            f.sort_by(|a, b| a.0.cmp(&b.0));
            assert_eq!(f, vec![("p".to_string(), Value::Long(1)), ("q".to_string(), Value::Long(2))]);
        }
        o => panic!("expected fields, got {}", kind(&o)),
    }
}

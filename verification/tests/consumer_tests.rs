use rdkafka::config::ClientConfig;

fn client_config_get(c: &ClientConfig, key: &str) -> Option<String> {
    c.get(key).map(|v| v.to_string())
}
use kafka_cli::consumer::{received_payload, Assignment, KafkaConsumer};
use kafka_cli::kafka_config::KafkaConfig;

fn cluster() -> KafkaConfig {
    let mut client = ClientConfig::new();
    client.set("bootstrap.servers", "localhost:9092");
    client.set("group.id", "from-cluster");
    client.set("enable.auto.commit", "true");
    KafkaConfig { client, schema_registry: None }
}

#[test]
fn consumer_keeps_its_arguments() {
    let config = cluster();
    let c = KafkaConsumer::new(&config, &"test".to_string(), &Some("key.json".to_string()), &"grp".to_string(), &Some(3));
    assert_eq!(c.topic, "test");
    assert_eq!(c.key_file, Some("key.json".to_string()));
    assert_eq!(c.consumer_group_id, "grp");
    assert_eq!(c.partition, Some(3));
    assert_eq!(client_config_get(&c.client, "bootstrap.servers"), Some("localhost:9092".to_string()));
}

#[test]
fn consumer_config_overrides_its_own_parameters() {
    let config = cluster();
    let c = KafkaConsumer::new(&config, &"test".to_string(), &None, &"local-test".to_string(), &None);
    let cc = c.consumer_config();
    assert_eq!(client_config_get(&cc, "group.id"), Some("local-test".to_string()));
    assert_eq!(client_config_get(&cc, "enable.partition.eof"), Some("false".to_string()));
    assert_eq!(client_config_get(&cc, "session.timeout.ms"), Some("6000".to_string()));
    assert_eq!(client_config_get(&cc, "enable.auto.commit"), Some("false".to_string()));
    assert_eq!(client_config_get(&cc, "bootstrap.servers"), Some("localhost:9092".to_string()));
    assert_eq!(client_config_get(&cc, "no.such.key"), None);
    assert!(matches!(cc.log_level, rdkafka::config::RDKafkaLogLevel::Debug));
    // the consumer's own configuration is left as it was
    assert_eq!(client_config_get(&c.client, "group.id"), Some("from-cluster".to_string()));
}

#[test]
fn payload_text_of_messages() {
    assert_eq!(received_payload(None), "");
    assert_eq!(received_payload(Some(b"{\"a\": 1}")), "{\"a\": 1}");
    assert_eq!(received_payload(Some("héllo €".as_bytes())), "héllo €");
    assert_eq!(received_payload(Some(&[0xff, 0xfe, 0x41])), "");
    assert_eq!(received_payload(Some(&[])), "");
}

#[test]
fn consumer_reads_where_the_message_was_delivered() {
    let config = cluster();
    let c = KafkaConsumer::new(&config, &"test".to_string(), &None, &"grp".to_string(), &Some(0));
    match c.assignment(Some((4, 17))) {
        Assignment::Offset(t, p, o) => {
            assert_eq!(t, "test");
            assert_eq!(p, 4);
            assert_eq!(o, 17);
        }
        _ => panic!("expected an offset"),
    }
}

#[test]
fn consumer_reads_the_partition_given() {
    let config = cluster();
    let c = KafkaConsumer::new(&config, &"test".to_string(), &None, &"local-test".to_string(), &Some(0));
    assert!(matches!(c.assignment(None), Assignment::Partition(t, 0) if t == "test"));
    let far = KafkaConsumer::new(&config, &"test".to_string(), &None, &"g".to_string(), &Some(2147483648));
    assert!(matches!(far.assignment(None), Assignment::InvalidPartition(2147483648)));
    let last = KafkaConsumer::new(&config, &"test".to_string(), &None, &"g".to_string(), &Some(2147483647));
    assert!(matches!(last.assignment(None), Assignment::Partition(_, 2147483647)));
}

#[test]
fn consumer_without_partition_subscribes() {
    let config = cluster();
    let c = KafkaConsumer::new(&config, &"orders".to_string(), &None, &"g".to_string(), &None);
    assert!(matches!(c.assignment(None), Assignment::Subscribe(t) if t == "orders"));
}

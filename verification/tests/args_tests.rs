use kafka_cli::args::{ConfigFormat, ConfigLocation, ConsumerConfig, LogOutput, ProducerConfig};

fn summary(sources: Vec<kafka_cli::args::ConfigSource>) -> Vec<(String, Option<ConfigFormat>, bool)> {
    sources.into_iter().map(|s| (s.path, s.format, s.required)).collect()
}

#[test]
fn consumer_sources_of_a_file() {
    let plan = summary(ConsumerConfig::sources(&ConfigLocation::File("conf/my.yaml".to_string())));
    assert_eq!(plan, vec![("conf/my.yaml".to_string(), None, true)]);
}

#[test]
fn consumer_sources_of_a_folder() {
    let plan = summary(ConsumerConfig::sources(&ConfigLocation::Folder("resources".to_string())));
    assert_eq!(
        plan,
        vec![
            ("resources/consumer.yaml".to_string(), None, false),
            ("resources/consumer.json".to_string(), None, false),
        ]
    );
}

#[test]
fn consumer_sources_by_default() {
    let plan = summary(ConsumerConfig::sources(&ConfigLocation::Default));
    assert_eq!(
        plan,
        vec![
            ("consumer.yaml".to_string(), Some(ConfigFormat::Yaml), false),
            ("consumer.json".to_string(), Some(ConfigFormat::Json5), false),
        ]
    );
}

#[test]
fn producer_sources() {
    assert_eq!(
        summary(ProducerConfig::sources(&ConfigLocation::Folder("resources/".to_string()))),
        vec![
            ("resources/producer.yaml".to_string(), None, false),
            ("resources/producer.json".to_string(), None, false),
        ]
    );
    assert_eq!(
        summary(ProducerConfig::sources(&ConfigLocation::Default)),
        vec![
            ("producer.yaml".to_string(), Some(ConfigFormat::Yaml), false),
            ("producer.json".to_string(), Some(ConfigFormat::Json5), false),
        ]
    );
    assert_eq!(
        summary(ProducerConfig::sources(&ConfigLocation::File("p.json".to_string()))),
        vec![("p.json".to_string(), None, true)]
    );
}

#[test]
fn log_output_variants_differ() {
    assert_ne!(LogOutput::StdOut, LogOutput::StdErr);
}

//! The command line of the tool and the configuration files its commands read.
//!
//! File paths are held as text; URLs as the text they were given in.
use vstd::prelude::*;
use vstd::string::*;
use crate::path::{join, path_join};

verus! {

/// Where log lines are written.
#[derive(Clone, Copy, Debug, PartialEq, Eq, Structural)]
pub enum LogOutput {
    StdOut,
    StdErr,
}

/// The command that was asked for.
pub enum Action {
    Consume(ConsumerConfig),
    Produce(ProducerConfig),
    IntegrationTest(TestConfig),
}

/// The parsed command line.
pub struct Cli {
    pub action: Action,
    pub log_output: LogOutput,
}

/// Produce a message and read it back.
pub struct TestConfig {
    pub topic: String,
    pub key_file: String,
    pub message_file: Option<String>,
    pub consumer_group_id: String,
    pub partition: Option<u32>,
    pub schema_registry_url: Option<String>,
    pub schema_id: Option<String>,
}

/// Read one message from a topic.
pub struct ConsumerConfig {
    pub topic: String,
    pub key_file: Option<String>,
    pub consumer_group_id: String,
    pub partition: Option<u32>,
    pub schema_registry_url: Option<String>,
    pub schema_id: Option<String>,
}

/// Write one message to a topic.
pub struct ProducerConfig {
    pub topic: String,
    pub key_file: String,
    pub message_file: Option<String>,
    pub schema_registry_url: Option<String>,
    pub schema_id: Option<String>,
}

/// The format a configuration file is read in; where none is given, the file's extension decides.
#[derive(Clone, Copy, Debug, PartialEq, Eq, Structural)]
pub enum ConfigFormat {
    Yaml,
    Json5,
}

/// One file that a configuration is merged from; later sources override earlier ones.
pub struct ConfigSource {
    pub path: String,
    pub format: Option<ConfigFormat>,
    pub required: bool,
}

/// A configuration source as text: its path, format and whether it must exist.
pub struct ConfigSourceView {
    pub path: Seq<char>,
    pub format: Option<ConfigFormat>,
    pub required: bool,
}

impl View for ConfigSource {
    type V = ConfigSourceView;

    open spec fn view(&self) -> ConfigSourceView {
        ConfigSourceView { path: self.path@, format: self.format, required: self.required }
    }
}

/// The sources of a plan, each as text.
pub open spec fn sources_view(sources: Seq<ConfigSource>) -> Seq<ConfigSourceView> {
    sources.map_values(|s: ConfigSource| s@)
}

/// Where the configuration of a command is looked for.
pub enum ConfigLocation {
    /// No path was given: the working directory.
    Default,
    /// The path given names a file.
    File(String),
    /// The path given is not a file: it is taken as a folder.
    Folder(String),
}

/// The files a configuration is read from, given the names of its YAML and JSON files.
/// A file named directly must exist; the others are read only where they exist.
pub open spec fn planned_sources(
    yaml_name: Seq<char>,
    json_name: Seq<char>,
    location: ConfigLocation,
) -> Seq<ConfigSourceView> {
    match location {
        ConfigLocation::File(p) => seq![ConfigSourceView { path: p@, format: None, required: true }],
        ConfigLocation::Folder(d) => seq![
            ConfigSourceView { path: join(d@, yaml_name), format: None, required: false },
            ConfigSourceView { path: join(d@, json_name), format: None, required: false },
        ],
        ConfigLocation::Default => seq![
            ConfigSourceView { path: yaml_name, format: Some(ConfigFormat::Yaml), required: false },
            ConfigSourceView { path: json_name, format: Some(ConfigFormat::Json5), required: false },
        ],
    }
}

fn plan_sources(yaml_name: &str, json_name: &str, location: &ConfigLocation) -> (res: Vec<ConfigSource>)
    ensures
        sources_view(res@) == planned_sources(yaml_name@, json_name@, *location),
{
    let mut res: Vec<ConfigSource> = Vec::new();
    match location {
        ConfigLocation::File(p) => {
            res.push(ConfigSource { path: p.clone(), format: None, required: true });
        },
        ConfigLocation::Folder(d) => {
            res.push(ConfigSource { path: path_join(d.as_str(), yaml_name), format: None, required: false });
            res.push(ConfigSource { path: path_join(d.as_str(), json_name), format: None, required: false });
        },
        ConfigLocation::Default => {
            res.push(
                ConfigSource {
                    path: String::from_str(yaml_name),
                    format: Some(ConfigFormat::Yaml),
                    required: false,
                },
            );
            res.push(
                ConfigSource {
                    path: String::from_str(json_name),
                    format: Some(ConfigFormat::Json5),
                    required: false,
                },
            );
        },
    }
    assert(sources_view(res@) =~= planned_sources(yaml_name@, json_name@, *location));
    res
}

impl ConsumerConfig {
    /// The files the consumer configuration is merged from.
    pub fn sources(location: &ConfigLocation) -> (res: Vec<ConfigSource>)
        ensures
            sources_view(res@) == planned_sources("consumer.yaml"@, "consumer.json"@, *location),
    {
        plan_sources("consumer.yaml", "consumer.json", location)
    }
}

impl ProducerConfig {
    /// The files the producer configuration is merged from.
    pub fn sources(location: &ConfigLocation) -> (res: Vec<ConfigSource>)
        ensures
            sources_view(res@) == planned_sources("producer.yaml"@, "producer.json"@, *location),
    {
        plan_sources("producer.yaml", "producer.json", location)
    }
}

/// Only a file named directly is required; every other source is read only where it
/// exists, and the JSON source comes last, so that its values override the YAML ones.
pub proof fn law_only_named_file_required(yaml_name: Seq<char>, json_name: Seq<char>, location: ConfigLocation)
    ensures
        ({
            let plan = planned_sources(yaml_name, json_name, location);
            &&& (location is File) ==> plan.len() == 1 && plan[0].required
            &&& !(location is File) ==> plan.len() == 2 && !plan[0].required && !plan[1].required
            &&& (location is Folder) ==> plan[0].format is None && plan[1].format is None
        }),
{
}

/// In a folder, the sources are the folder's files with the two names.
pub proof fn law_folder_sources_named(yaml_name: Seq<char>, json_name: Seq<char>, folder: String)
    requires
        yaml_name.len() > 0,
        forall|i: int| 0 <= i < yaml_name.len() ==> yaml_name[i] != '/',
        !crate::path::is_dot(yaml_name),
        !crate::path::is_dot_dot(yaml_name),
        json_name.len() > 0,
        forall|i: int| 0 <= i < json_name.len() ==> json_name[i] != '/',
        !crate::path::is_dot(json_name),
        !crate::path::is_dot_dot(json_name),
    ensures
        crate::path::file_name(planned_sources(yaml_name, json_name, ConfigLocation::Folder(folder))[0].path)
            == Some(yaml_name),
        crate::path::file_name(planned_sources(yaml_name, json_name, ConfigLocation::Folder(folder))[1].path)
            == Some(json_name),
{
    crate::path::law_file_name_of_join(folder@, yaml_name);
    crate::path::law_file_name_of_join(folder@, json_name);
}

} // verus!

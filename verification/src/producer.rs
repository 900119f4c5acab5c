//! Producing one message.
//!
//! Producing alternates file reads, calls to the schema registry and to the
//! cluster with decisions. The decisions are the transition function of a
//! run: from the stage reached and what the last piece of outside work gave
//! back, to the next stage and the next piece of work to do.
use vstd::prelude::*;
use vstd::string::*;
use apache_avro::types::Value;
use rdkafka::config::ClientConfig;
use crate::avro::{
    avro_schema_parses, avro_schemas_equal, container_map_entries, container_record_fields,
    container_value_kind, entries_view, entry_names, fields_of_container, fields_of_json,
    json_map_entries, local_schema, registry_check,
    EntriesKind, JsonOrigin, ParsedSchema, SchemaCheck, ValueKind, ValueOutcome,
};
use crate::client::{client_config_clone, client_config_entries, client_config_log_level};
use crate::kafka_config::{KafkaConfig, SchemaRegistryConfig};
use crate::consumer::payload_text;
use crate::path::{extension, path_extension};

verus! {

/// How the registry subject of the schema is named: after the topic, for its key or its value.
pub enum SubjectNameStrategy {
    TopicNameStrategy(String, bool),
}

/// The schema registry a producer encodes its messages with.
pub struct SchemaRegistry {
    pub subject_name_strategy: SubjectNameStrategy,
    pub schema_id: u32,
    pub schema: ParsedSchema,
    pub config: SchemaRegistryConfig,
}

/// A producer of messages read from files to one topic.
pub struct KafkaProducer {
    pub client: ClientConfig,
    pub topic: String,
    pub message_file: String,
    pub key_file: String,
    pub schema_registry: Option<SchemaRegistry>,
}

/// Why a producer could not be set up.
#[derive(Clone, Copy, Debug, PartialEq, Eq, Structural)]
pub enum SetupError {
    /// A schema id was given but no schema registry is configured.
    MissingSchemaRegistryConfig,
    /// A schema id was given but the local schema could not be read.
    MissingLocalSchema,
    /// The local schema does not parse.
    InvalidLocalSchema,
}

/// Why producing a message failed.
#[derive(Clone, Copy, Debug, PartialEq, Eq, Structural)]
pub enum ProduceError {
    MessageUnreadable,
    SchemaUnavailable,
    RegistrySchemaInvalid,
    SchemaMismatch,
    MessageUnopenable,
    MissingExtension,
    UnsupportedExtension,
    AvroHeaderInvalid,
    AvroSchemaReferences,
    AvroEmpty,
    AvroValueInvalid,
    JsonInvalid,
    JsonNotAvro,
    SchemaUnresolved,
    ValueNotValidForSchema,
    NotARecord,
    EncodingFailed,
    KeyUnreadable,
    DeliveryFailed,
}

/// How far a run has come.
#[derive(Clone, Copy, Debug, PartialEq, Eq, Structural)]
pub enum ProduceStage {
    Start,
    ReadingMessage,
    FetchingSchema,
    OpeningMessage,
    LoadingAvro,
    LoadingJson,
    Encoding,
    ReadingKey,
    Delivering,
    /// The message was delivered to this partition at this offset.
    Delivered(i32, i64),
    Failed(ProduceError),
}

/// The state of a run: its stage and the payload to send, once it is known.
pub struct ProduceRun {
    pub stage: ProduceStage,
    pub payload: Vec<u8>,
}

/// What the last piece of outside work gave back.
pub enum ProduceEvent {
    /// The run begins.
    Begin,
    /// The text of the message file, or `None` where it could not be read.
    MessageRead(Option<String>),
    /// The registry's schema compared with the local one.
    SchemaChecked(SchemaCheck),
    /// Whether the message file could be opened.
    MessageOpened(bool),
    /// The value loaded from the message file.
    ValueLoaded(ValueOutcome),
    /// The encoded payload, or `None` where encoding failed.
    Encoded(Option<Vec<u8>>),
    /// The text of the key file, or `None` where it could not be read.
    KeyRead(Option<String>),
    /// Where the message was delivered, or `None` where delivery failed.
    Delivery(Option<(i32, i64)>),
}

/// A message to send.
pub struct OutgoingRecord {
    pub topic: String,
    pub headers: Vec<(String, String)>,
    pub key: String,
    pub payload: Vec<u8>,
    pub timeout_secs: u64,
}

/// The next piece of outside work.
pub enum ProduceAction {
    /// Read the file as text.
    ReadMessage(String),
    /// Fetch the schema with this id from the registry and compare it with the local one.
    FetchSchema(u32),
    /// Open the file.
    OpenMessage(String),
    /// Read the opened file's bytes and load its first Avro value.
    ReadAvroBytes(String),
    /// Read the file as text and load it as a JSON value.
    ReadJsonText(String),
    /// Encode the fields with the registry, under the subject that the strategy names.
    Encode(Vec<(String, Value)>, SubjectNameStrategy),
    /// Read the file as text.
    ReadKey(String),
    /// Send the record and wait for its delivery.
    Send(OutgoingRecord),
    /// Nothing is left to do.
    Idle,
}

/// A message to send, as text and bytes.
pub struct RecordView {
    pub topic: Seq<char>,
    pub headers: Seq<(Seq<char>, Seq<char>)>,
    pub key: Seq<char>,
    pub payload: Seq<u8>,
    pub timeout_secs: u64,
}

/// A piece of outside work, as text and bytes.
pub enum ActionView {
    ReadMessage(Seq<char>),
    FetchSchema(u32),
    OpenMessage(Seq<char>),
    ReadAvroBytes(Seq<char>),
    ReadJsonText(Seq<char>),
    Encode(Seq<(Seq<char>, Value)>, Seq<char>, bool),
    ReadKey(Seq<char>),
    Send(RecordView),
    Idle,
}

/// Fields with their names as text.
pub open spec fn fields_view(fields: Seq<(String, Value)>) -> Seq<(Seq<char>, Value)> {
    fields.map_values(|kv: (String, Value)| (kv.0@, kv.1))
}

/// Headers as text.
pub open spec fn headers_view(headers: Seq<(String, String)>) -> Seq<(Seq<char>, Seq<char>)> {
    headers.map_values(|kv: (String, String)| (kv.0@, kv.1@))
}

impl View for OutgoingRecord {
    type V = RecordView;

    open spec fn view(&self) -> RecordView {
        RecordView {
            topic: self.topic@,
            headers: headers_view(self.headers@),
            key: self.key@,
            payload: self.payload@,
            timeout_secs: self.timeout_secs,
        }
    }
}

impl View for ProduceAction {
    type V = ActionView;

    open spec fn view(&self) -> ActionView {
        match self {
            ProduceAction::ReadMessage(p) => ActionView::ReadMessage(p@),
            ProduceAction::FetchSchema(id) => ActionView::FetchSchema(*id),
            ProduceAction::OpenMessage(p) => ActionView::OpenMessage(p@),
            ProduceAction::ReadAvroBytes(p) => ActionView::ReadAvroBytes(p@),
            ProduceAction::ReadJsonText(p) => ActionView::ReadJsonText(p@),
            ProduceAction::Encode(fields, SubjectNameStrategy::TopicNameStrategy(topic, is_key)) =>
                ActionView::Encode(fields_view(fields@), topic@, *is_key),
            ProduceAction::ReadKey(p) => ActionView::ReadKey(p@),
            ProduceAction::Send(record) => ActionView::Send(record@),
            ProduceAction::Idle => ActionView::Idle,
        }
    }
}

/// The headers every message is sent with.
pub open spec fn record_headers() -> Seq<(Seq<char>, Seq<char>)> {
    seq![("key"@, "value"@)]
}

/// How many seconds delivery of a message is waited for.
pub open spec fn delivery_timeout_secs() -> u64 {
    5
}

/// The run ends with the error, keeping its payload and asking for no more work.
pub open spec fn failed(payload: Seq<u8>, e: ProduceError) -> (ProduceStage, Seq<u8>, ActionView) {
    (ProduceStage::Failed(e), payload, ActionView::Idle)
}

/// The error a loaded value that gives no fields leads to.
pub open spec fn value_error(o: ValueOutcome) -> ProduceError {
    match o {
        ValueOutcome::Unreadable => ProduceError::MessageUnreadable,
        ValueOutcome::AvroHeaderInvalid => ProduceError::AvroHeaderInvalid,
        ValueOutcome::AvroSchemaReferences => ProduceError::AvroSchemaReferences,
        ValueOutcome::AvroEmpty => ProduceError::AvroEmpty,
        ValueOutcome::AvroValueInvalid => ProduceError::AvroValueInvalid,
        ValueOutcome::JsonInvalid => ProduceError::JsonInvalid,
        ValueOutcome::JsonNotAvro => ProduceError::JsonNotAvro,
        ValueOutcome::SchemaUnresolved => ProduceError::SchemaUnresolved,
        ValueOutcome::NotValidForSchema => ProduceError::ValueNotValidForSchema,
        ValueOutcome::NotARecord => ProduceError::NotARecord,
        ValueOutcome::Fields(_) => ProduceError::NotARecord,
    }
}

/// The next stage, payload and piece of work of a run of producer `p` in `stage`
/// with `payload`, after outside work gave back `e`. An event that the stage does
/// not wait for changes nothing.
pub open spec fn transition(p: KafkaProducer, stage: ProduceStage, payload: Seq<u8>, e: ProduceEvent) -> (ProduceStage, Seq<u8>, ActionView) {
    let unchanged = (stage, payload, ActionView::Idle);
    match stage {
        ProduceStage::Start => match e {
            ProduceEvent::Begin => (ProduceStage::ReadingMessage, payload, ActionView::ReadMessage(p.message_file@)),
            _ => unchanged,
        },
        ProduceStage::ReadingMessage => match e {
            ProduceEvent::MessageRead(None) => failed(payload, ProduceError::MessageUnreadable),
            ProduceEvent::MessageRead(Some(m)) => match p.schema_registry {
                Some(r) => (ProduceStage::FetchingSchema, payload, ActionView::FetchSchema(r.schema_id)),
                None => (ProduceStage::ReadingKey, encode_utf8_text(m@), ActionView::ReadKey(p.key_file@)),
            },
            _ => unchanged,
        },
        ProduceStage::FetchingSchema => match e {
            ProduceEvent::SchemaChecked(SchemaCheck::Unavailable) => failed(payload, ProduceError::SchemaUnavailable),
            ProduceEvent::SchemaChecked(SchemaCheck::Unparsable) => failed(payload, ProduceError::RegistrySchemaInvalid),
            ProduceEvent::SchemaChecked(SchemaCheck::Differs) => failed(payload, ProduceError::SchemaMismatch),
            ProduceEvent::SchemaChecked(SchemaCheck::Matches) => (ProduceStage::OpeningMessage, payload, ActionView::OpenMessage(p.message_file@)),
            _ => unchanged,
        },
        ProduceStage::OpeningMessage => match e {
            ProduceEvent::MessageOpened(false) => failed(payload, ProduceError::MessageUnopenable),
            ProduceEvent::MessageOpened(true) => match extension(p.message_file@) {
                None => failed(payload, ProduceError::MissingExtension),
                Some(x) => if x == "avro"@ {
                    (ProduceStage::LoadingAvro, payload, ActionView::ReadAvroBytes(p.message_file@))
                } else if x == "json"@ {
                    (ProduceStage::LoadingJson, payload, ActionView::ReadJsonText(p.message_file@))
                } else {
                    failed(payload, ProduceError::UnsupportedExtension)
                },
            },
            _ => unchanged,
        },
        ProduceStage::LoadingAvro | ProduceStage::LoadingJson => match e {
            ProduceEvent::ValueLoaded(ValueOutcome::Fields(f)) => match p.schema_registry {
                Some(r) => match r.subject_name_strategy {
                    SubjectNameStrategy::TopicNameStrategy(topic, is_key) =>
                        (ProduceStage::Encoding, payload, ActionView::Encode(fields_view(f@), topic@, is_key)),
                },
                None => unchanged,
            },
            ProduceEvent::ValueLoaded(o) => failed(payload, value_error(o)),
            _ => unchanged,
        },
        ProduceStage::Encoding => match e {
            ProduceEvent::Encoded(None) => failed(payload, ProduceError::EncodingFailed),
            ProduceEvent::Encoded(Some(b)) => (ProduceStage::ReadingKey, b@, ActionView::ReadKey(p.key_file@)),
            _ => unchanged,
        },
        ProduceStage::ReadingKey => match e {
            ProduceEvent::KeyRead(None) => failed(payload, ProduceError::KeyUnreadable),
            ProduceEvent::KeyRead(Some(k)) => (
                ProduceStage::Delivering,
                payload,
                ActionView::Send(
                    RecordView {
                        topic: p.topic@,
                        headers: record_headers(),
                        key: k@,
                        payload,
                        timeout_secs: delivery_timeout_secs(),
                    },
                ),
            ),
            _ => unchanged,
        },
        ProduceStage::Delivering => match e {
            ProduceEvent::Delivery(None) => failed(payload, ProduceError::DeliveryFailed),
            ProduceEvent::Delivery(Some((partition, offset))) => (ProduceStage::Delivered(partition, offset), payload, ActionView::Idle),
            _ => unchanged,
        },
        ProduceStage::Delivered(_, _) => unchanged,
        ProduceStage::Failed(_) => unchanged,
    }
}

/// The bytes of a text in UTF-8.
pub open spec fn encode_utf8_text(text: Seq<char>) -> Seq<u8> {
    vstd::utf8::encode_utf8(text)
}

/// Whether two texts are the same.
fn text_eq(a: &str, b: &str) -> (res: bool)
    ensures
        res == (a@ == b@),
{
    let n: usize = a.unicode_len();
    if n != b.unicode_len() {
        return false;
    }
    let mut i: usize = 0;
    while i < n
        invariant
            n == a@.len() == b@.len(),
            i <= n,
            forall|j: int| 0 <= j < i ==> a@[j] == b@[j],
        decreases n - i,
    {
        if a.get_char(i) != b.get_char(i) {
            return false;
        }
        i = i + 1;
    }
    assert(a@ =~= b@);
    true
}

fn copy_registry_config(c: &SchemaRegistryConfig) -> (res: SchemaRegistryConfig)
    ensures
        res.username@ == c.username@,
        res.password@ == c.password@,
        res.endpoint@ == c.endpoint@,
{
    SchemaRegistryConfig {
        username: c.username.clone(),
        password: c.password.clone(),
        endpoint: c.endpoint.clone(),
    }
}

/// The registry a producer with schema `id` is set up with.
pub open spec fn registry_matches(
    r: SchemaRegistry,
    id: u32,
    topic: Seq<char>,
    config: SchemaRegistryConfig,
    schema_text: Seq<char>,
) -> bool {
    &&& r.schema_id == id
    &&& r.schema.source() == schema_text
    &&& r.subject_name_strategy matches SubjectNameStrategy::TopicNameStrategy(t, is_key) && t@ == topic && !is_key
    &&& r.config.username@ == config.username@
    &&& r.config.password@ == config.password@
    &&& r.config.endpoint@ == config.endpoint@
}

impl KafkaProducer {
    /// Sets up a producer; with a schema id, messages are encoded with the schema
    /// registry of `config` and the local schema (given as text) is what the
    /// registry's schema must match. A schema id asks for registry settings and a
    /// local schema that parses (`try_new` checks them).
    pub fn new(
        config: &KafkaConfig,
        topic: &String,
        key_file: &String,
        message_file: &String,
        schema_id: &Option<u32>,
        local_schema_text: Option<String>,
    ) -> (p: Self)
        requires
            schema_id is Some ==> config.schema_registry is Some && local_schema_text is Some
                && avro_schema_parses(local_schema_text->0@),
        ensures
            schema_id is None ==> p.schema_registry is None,
            schema_id is Some ==> (p.schema_registry matches Some(r) && registry_matches(
                r,
                schema_id->0,
                topic@,
                config.schema_registry->0,
                local_schema_text->0@,
            )),
            client_config_entries(p.client) == client_config_entries(config.client),
            client_config_log_level(p.client) == client_config_log_level(config.client),
            p.topic@ == topic@,
            p.key_file@ == key_file@,
            p.message_file@ == message_file@,
    {
        let schema_registry = match schema_id {
            None => None,
            Some(id) => match (&config.schema_registry, local_schema_text) {
                (Some(rc), Some(text)) => match local_schema(text.as_str()) {
                    Some(schema) => Some(
                        SchemaRegistry {
                            subject_name_strategy: SubjectNameStrategy::TopicNameStrategy(
                                topic.clone(),
                                false,
                            ),
                            schema_id: *id,
                            schema,
                            config: copy_registry_config(rc),
                        },
                    ),
                    None => vstd::pervasive::unreached(),
                },
                _ => vstd::pervasive::unreached(),
            },
        };
        KafkaProducer {
            topic: topic.clone(),
            client: client_config_clone(&config.client),
            message_file: message_file.clone(),
            key_file: key_file.clone(),
            schema_registry,
        }
    }

    /// Sets up a producer as `new` does, where what a schema id asks for is there;
    /// else tells what is missing.
    pub fn try_new(
        config: &KafkaConfig,
        topic: &String,
        key_file: &String,
        message_file: &String,
        schema_id: &Option<u32>,
        local_schema_text: Option<String>,
    ) -> (res: Result<Self, SetupError>)
        ensures
            schema_id is None ==> (res matches Ok(p) && p.schema_registry is None),
            schema_id is Some && config.schema_registry is None ==> res == Err::<Self, SetupError>(
                SetupError::MissingSchemaRegistryConfig,
            ),
            schema_id is Some && config.schema_registry is Some && local_schema_text is None ==> res
                == Err::<Self, SetupError>(SetupError::MissingLocalSchema),
            schema_id is Some && config.schema_registry is Some && local_schema_text is Some
                && !avro_schema_parses(local_schema_text->0@) ==> res == Err::<Self, SetupError>(
                SetupError::InvalidLocalSchema,
            ),
            schema_id is Some && config.schema_registry is Some && local_schema_text is Some
                && avro_schema_parses(local_schema_text->0@) ==> (res matches Ok(p)
                && p.schema_registry matches Some(r) && registry_matches(
                r,
                schema_id->0,
                topic@,
                config.schema_registry->0,
                local_schema_text->0@,
            )),
            res matches Ok(p) ==> {
                &&& client_config_entries(p.client) == client_config_entries(config.client)
                &&& client_config_log_level(p.client) == client_config_log_level(config.client)
                &&& p.topic@ == topic@
                &&& p.key_file@ == key_file@
                &&& p.message_file@ == message_file@
            },
    {
        if schema_id.is_some() {
            if config.schema_registry.is_none() {
                return Err(SetupError::MissingSchemaRegistryConfig);
            }
            match &local_schema_text {
                None => {
                    return Err(SetupError::MissingLocalSchema);
                },
                Some(text) => {
                    if local_schema(text.as_str()).is_none() {
                        return Err(SetupError::InvalidLocalSchema);
                    }
                },
            }
        }
        Ok(Self::new(config, topic, key_file, message_file, schema_id, local_schema_text))
    }

    /// The state a run starts in.
    pub fn start() -> (run: ProduceRun)
        ensures
            run.stage == ProduceStage::Start,
            run.payload@ == Seq::<u8>::empty(),
    {
        ProduceRun { stage: ProduceStage::Start, payload: Vec::new() }
    }

    /// The error on which the event ends the run, where it ends it in failure (or
    /// on which the run already ended): producing stops there, and nothing is sent.
    pub fn failure(&self, run: &ProduceRun, event: &ProduceEvent) -> (res: Option<ProduceError>)
        ensures
            res is None <==> !(transition(*self, run.stage, run.payload@, *event).0 is Failed),
            res matches Some(err) ==> transition(*self, run.stage, run.payload@, *event).0
                == ProduceStage::Failed(err),
    {
        match run.stage {
            ProduceStage::ReadingMessage => match event {
                ProduceEvent::MessageRead(None) => Some(ProduceError::MessageUnreadable),
                ProduceEvent::MessageRead(Some(_)) => None,
                _ => None,
            },
            ProduceStage::FetchingSchema => match event {
                ProduceEvent::SchemaChecked(SchemaCheck::Unavailable) => Some(ProduceError::SchemaUnavailable),
                ProduceEvent::SchemaChecked(SchemaCheck::Unparsable) => Some(ProduceError::RegistrySchemaInvalid),
                ProduceEvent::SchemaChecked(SchemaCheck::Differs) => Some(ProduceError::SchemaMismatch),
                _ => None,
            },
            ProduceStage::OpeningMessage => match event {
                ProduceEvent::MessageOpened(false) => Some(ProduceError::MessageUnopenable),
                ProduceEvent::MessageOpened(true) => match path_extension(self.message_file.as_str()) {
                    None => Some(ProduceError::MissingExtension),
                    Some(x) => {
                        proof {
                            reveal_strlit("avro");
                            reveal_strlit("json");
                        }
                        if text_eq(x, "avro") || text_eq(x, "json") {
                            None
                        } else {
                            Some(ProduceError::UnsupportedExtension)
                        }
                    },
                },
                _ => None,
            },
            ProduceStage::LoadingAvro | ProduceStage::LoadingJson => match event {
                ProduceEvent::ValueLoaded(ValueOutcome::Fields(_)) => None,
                ProduceEvent::ValueLoaded(outcome) => Some(
                    match outcome {
                        ValueOutcome::Unreadable => ProduceError::MessageUnreadable,
                        ValueOutcome::AvroHeaderInvalid => ProduceError::AvroHeaderInvalid,
                        ValueOutcome::AvroSchemaReferences => ProduceError::AvroSchemaReferences,
                        ValueOutcome::AvroEmpty => ProduceError::AvroEmpty,
                        ValueOutcome::AvroValueInvalid => ProduceError::AvroValueInvalid,
                        ValueOutcome::JsonInvalid => ProduceError::JsonInvalid,
                        ValueOutcome::JsonNotAvro => ProduceError::JsonNotAvro,
                        ValueOutcome::SchemaUnresolved => ProduceError::SchemaUnresolved,
                        ValueOutcome::NotValidForSchema => ProduceError::ValueNotValidForSchema,
                        ValueOutcome::NotARecord => ProduceError::NotARecord,
                        ValueOutcome::Fields(_) => ProduceError::NotARecord,
                    },
                ),
                _ => None,
            },
            ProduceStage::Encoding => match event {
                ProduceEvent::Encoded(None) => Some(ProduceError::EncodingFailed),
                _ => None,
            },
            ProduceStage::ReadingKey => match event {
                ProduceEvent::KeyRead(None) => Some(ProduceError::KeyUnreadable),
                _ => None,
            },
            ProduceStage::Delivering => match event {
                ProduceEvent::Delivery(None) => Some(ProduceError::DeliveryFailed),
                _ => None,
            },
            ProduceStage::Failed(err) => Some(err),
            _ => None,
        }
    }

    /// One transition of a run, on an event that does not end it in failure
    /// (`failure` tells those apart).
    pub fn step(&self, run: ProduceRun, event: ProduceEvent) -> (res: (ProduceRun, ProduceAction))
        requires
            !(transition(*self, run.stage, run.payload@, event).0 is Failed),
        ensures
            (res.0.stage, res.0.payload@, res.1@) == transition(*self, run.stage, run.payload@, event),
    {
        let ghost e = event;
        let ProduceRun { stage, payload } = run;
        let unchanged = ProduceAction::Idle;
        match stage {
            ProduceStage::Start => match event {
                ProduceEvent::Begin => (
                    ProduceRun { stage: ProduceStage::ReadingMessage, payload },
                    ProduceAction::ReadMessage(self.message_file.clone()),
                ),
                _ => (ProduceRun { stage, payload }, unchanged),
            },
            ProduceStage::ReadingMessage => match event {
                ProduceEvent::MessageRead(None) => (
                    ProduceRun { stage: ProduceStage::Failed(ProduceError::MessageUnreadable), payload },
                    unchanged,
                ),
                ProduceEvent::MessageRead(Some(m)) => match &self.schema_registry {
                    Some(r) => (
                        ProduceRun { stage: ProduceStage::FetchingSchema, payload },
                        ProduceAction::FetchSchema(r.schema_id),
                    ),
                    None => (
                        ProduceRun { stage: ProduceStage::ReadingKey, payload: m.as_str().as_bytes_vec() },
                        ProduceAction::ReadKey(self.key_file.clone()),
                    ),
                },
                _ => (ProduceRun { stage, payload }, unchanged),
            },
            ProduceStage::FetchingSchema => match event {
                ProduceEvent::SchemaChecked(check) => {
                    let next = match check {
                        SchemaCheck::Unavailable => ProduceStage::Failed(ProduceError::SchemaUnavailable),
                        SchemaCheck::Unparsable => ProduceStage::Failed(ProduceError::RegistrySchemaInvalid),
                        SchemaCheck::Differs => ProduceStage::Failed(ProduceError::SchemaMismatch),
                        SchemaCheck::Matches => ProduceStage::OpeningMessage,
                    };
                    if check == SchemaCheck::Matches {
                        (ProduceRun { stage: next, payload }, ProduceAction::OpenMessage(self.message_file.clone()))
                    } else {
                        (ProduceRun { stage: next, payload }, unchanged)
                    }
                },
                _ => (ProduceRun { stage, payload }, unchanged),
            },
            ProduceStage::OpeningMessage => match event {
                ProduceEvent::MessageOpened(false) => (
                    ProduceRun { stage: ProduceStage::Failed(ProduceError::MessageUnopenable), payload },
                    unchanged,
                ),
                ProduceEvent::MessageOpened(true) => match path_extension(self.message_file.as_str()) {
                    None => (
                        ProduceRun { stage: ProduceStage::Failed(ProduceError::MissingExtension), payload },
                        unchanged,
                    ),
                    Some(x) => {
                        proof {
                            reveal_strlit("avro");
                            reveal_strlit("json");
                        }
                        if text_eq(x, "avro") {
                            (
                                ProduceRun { stage: ProduceStage::LoadingAvro, payload },
                                ProduceAction::ReadAvroBytes(self.message_file.clone()),
                            )
                        } else if text_eq(x, "json") {
                            (
                                ProduceRun { stage: ProduceStage::LoadingJson, payload },
                                ProduceAction::ReadJsonText(self.message_file.clone()),
                            )
                        } else {
                            (
                                ProduceRun {
                                    stage: ProduceStage::Failed(ProduceError::UnsupportedExtension),
                                    payload,
                                },
                                unchanged,
                            )
                        }
                    },
                },
                _ => (ProduceRun { stage, payload }, unchanged),
            },
            ProduceStage::LoadingAvro | ProduceStage::LoadingJson => match event {
                ProduceEvent::ValueLoaded(outcome) => {
                    let error = match outcome {
                        ValueOutcome::Unreadable => ProduceError::MessageUnreadable,
                        ValueOutcome::AvroHeaderInvalid => ProduceError::AvroHeaderInvalid,
                        ValueOutcome::AvroSchemaReferences => ProduceError::AvroSchemaReferences,
                        ValueOutcome::AvroEmpty => ProduceError::AvroEmpty,
                        ValueOutcome::AvroValueInvalid => ProduceError::AvroValueInvalid,
                        ValueOutcome::JsonInvalid => ProduceError::JsonInvalid,
                        ValueOutcome::JsonNotAvro => ProduceError::JsonNotAvro,
                        ValueOutcome::SchemaUnresolved => ProduceError::SchemaUnresolved,
                        ValueOutcome::NotValidForSchema => ProduceError::ValueNotValidForSchema,
                        ValueOutcome::NotARecord => ProduceError::NotARecord,
                        ValueOutcome::Fields(fields) => {
                            return match &self.schema_registry {
                                Some(r) => match &r.subject_name_strategy {
                                    SubjectNameStrategy::TopicNameStrategy(topic, is_key) => (
                                        ProduceRun { stage: ProduceStage::Encoding, payload },
                                        ProduceAction::Encode(
                                            fields,
                                            SubjectNameStrategy::TopicNameStrategy(topic.clone(), *is_key),
                                        ),
                                    ),
                                },
                                None => (ProduceRun { stage, payload }, unchanged),
                            };
                        },
                    };
                    (ProduceRun { stage: ProduceStage::Failed(error), payload }, unchanged)
                },
                _ => (ProduceRun { stage, payload }, unchanged),
            },
            ProduceStage::Encoding => match event {
                ProduceEvent::Encoded(None) => (
                    ProduceRun { stage: ProduceStage::Failed(ProduceError::EncodingFailed), payload },
                    unchanged,
                ),
                ProduceEvent::Encoded(Some(bytes)) => (
                    ProduceRun { stage: ProduceStage::ReadingKey, payload: bytes },
                    ProduceAction::ReadKey(self.key_file.clone()),
                ),
                _ => (ProduceRun { stage, payload }, unchanged),
            },
            ProduceStage::ReadingKey => match event {
                ProduceEvent::KeyRead(None) => (
                    ProduceRun { stage: ProduceStage::Failed(ProduceError::KeyUnreadable), payload },
                    unchanged,
                ),
                ProduceEvent::KeyRead(Some(key)) => {
                    proof {
                        reveal_strlit("key");
                        reveal_strlit("value");
                    }
                    let mut headers: Vec<(String, String)> = Vec::new();
                    headers.push((String::from_str("key"), String::from_str("value")));
                    assert(headers_view(headers@) =~= record_headers());
                    let record = OutgoingRecord {
                        topic: self.topic.clone(),
                        headers,
                        key,
                        payload: payload.clone(),
                        timeout_secs: 5,
                    };
                    (ProduceRun { stage: ProduceStage::Delivering, payload }, ProduceAction::Send(record))
                },
                _ => (ProduceRun { stage, payload }, unchanged),
            },
            ProduceStage::Delivering => match event {
                ProduceEvent::Delivery(None) => (
                    ProduceRun { stage: ProduceStage::Failed(ProduceError::DeliveryFailed), payload },
                    unchanged,
                ),
                ProduceEvent::Delivery(Some((partition, offset))) => (
                    ProduceRun { stage: ProduceStage::Delivered(partition, offset), payload },
                    unchanged,
                ),
                _ => (ProduceRun { stage, payload }, unchanged),
            },
            _ => (ProduceRun { stage, payload }, unchanged),
        }
    }
}


/// The stage, payload and pieces of work that a run goes through when outside
/// work gives back the events in order.
pub open spec fn run_events(
    p: KafkaProducer,
    stage: ProduceStage,
    payload: Seq<u8>,
    events: Seq<ProduceEvent>,
) -> (ProduceStage, Seq<u8>, Seq<ActionView>)
    decreases events.len(),
{
    if events.len() == 0 {
        (stage, payload, Seq::empty())
    } else {
        let (s1, p1, a1) = transition(p, stage, payload, events[0]);
        let (s2, p2, rest) = run_events(p, s1, p1, events.drop_first());
        (s2, p2, seq![a1] + rest)
    }
}

/// How far along a run a stage is.
pub open spec fn stage_rank(stage: ProduceStage) -> int {
    match stage {
        ProduceStage::Start => 0,
        ProduceStage::ReadingMessage => 1,
        ProduceStage::FetchingSchema => 2,
        ProduceStage::OpeningMessage => 3,
        ProduceStage::LoadingAvro => 4,
        ProduceStage::LoadingJson => 4,
        ProduceStage::Encoding => 5,
        ProduceStage::ReadingKey => 6,
        ProduceStage::Delivering => 7,
        ProduceStage::Delivered(_, _) => 8,
        ProduceStage::Failed(_) => 8,
    }
}

/// A delivered or failed run stays as it is, and asks for no more work.
pub proof fn law_finished_runs_stay(p: KafkaProducer, stage: ProduceStage, payload: Seq<u8>, e: ProduceEvent)
    requires
        stage is Delivered || stage is Failed,
    ensures
        transition(p, stage, payload, e) == (stage, payload, ActionView::Idle),
{
}

/// Every transition either leaves the run as it was, asking for no work, or moves it
/// strictly further along: a run never goes back, so it ends after at most eight steps
/// that change it.
pub proof fn law_runs_move_forward(p: KafkaProducer, stage: ProduceStage, payload: Seq<u8>, e: ProduceEvent)
    ensures
        ({
            let (s1, p1, a1) = transition(p, stage, payload, e);
            (s1 == stage && p1 == payload && a1 == ActionView::Idle) || stage_rank(s1) > stage_rank(stage)
        }),
{
}

/// Without a schema registry, the message file's text is sent as it is, in UTF-8,
/// with the key file's text as key, to the producer's topic; a delivery ends the run
/// where the message was delivered.
pub proof fn law_plain_message_sent(
    p: KafkaProducer,
    message: String,
    key: String,
    partition: i32,
    offset: i64,
)
    requires
        p.schema_registry is None,
    ensures
        run_events(
            p,
            ProduceStage::Start,
            Seq::empty(),
            seq![
                ProduceEvent::Begin,
                ProduceEvent::MessageRead(Some(message)),
                ProduceEvent::KeyRead(Some(key)),
                ProduceEvent::Delivery(Some((partition, offset))),
            ],
        ) == (
            ProduceStage::Delivered(partition, offset),
            encode_utf8_text(message@),
            seq![
                ActionView::ReadMessage(p.message_file@),
                ActionView::ReadKey(p.key_file@),
                ActionView::Send(
                    RecordView {
                        topic: p.topic@,
                        headers: record_headers(),
                        key: key@,
                        payload: encode_utf8_text(message@),
                        timeout_secs: delivery_timeout_secs(),
                    },
                ),
                ActionView::Idle,
            ],
        ),
{
    let events = seq![
        ProduceEvent::Begin,
        ProduceEvent::MessageRead(Some(message)),
        ProduceEvent::KeyRead(Some(key)),
        ProduceEvent::Delivery(Some((partition, offset))),
    ];
    reveal_with_fuel(run_events, 5);
    assert(events.drop_first().drop_first().drop_first().drop_first() =~= Seq::<ProduceEvent>::empty());
    assert(events.drop_first()[0] == ProduceEvent::MessageRead(Some(message)));
    assert(events.drop_first().drop_first()[0] == ProduceEvent::KeyRead(Some(key)));
    assert(events.drop_first().drop_first().drop_first()[0] == ProduceEvent::Delivery(Some((partition, offset))));
    let (s, b, acts) = run_events(p, ProduceStage::Start, Seq::empty(), events);
    assert(acts =~= seq![
        ActionView::ReadMessage(p.message_file@),
        ActionView::ReadKey(p.key_file@),
        ActionView::Send(
            RecordView {
                topic: p.topic@,
                headers: record_headers(),
                key: key@,
                payload: encode_utf8_text(message@),
                timeout_secs: delivery_timeout_secs(),
            },
        ),
        ActionView::Idle,
    ]);
}


/// With a schema registry, and a JSON message file, the record sent carries the
/// registry encoding of the message's fields, under the subject named after the
/// producer's topic; the message text read first is not what is sent.
pub proof fn law_registry_message_sent(
    p: KafkaProducer,
    message: String,
    fields: Vec<(String, Value)>,
    encoded: Vec<u8>,
    key: String,
    partition: i32,
    offset: i64,
)
    requires
        p.schema_registry is Some,
        p.schema_registry->0.subject_name_strategy matches SubjectNameStrategy::TopicNameStrategy(t, k)
            && t@ == p.topic@ && !k,
        extension(p.message_file@) == Some("json"@),
    ensures
        run_events(
            p,
            ProduceStage::Start,
            Seq::empty(),
            seq![
                ProduceEvent::Begin,
                ProduceEvent::MessageRead(Some(message)),
                ProduceEvent::SchemaChecked(SchemaCheck::Matches),
                ProduceEvent::MessageOpened(true),
                ProduceEvent::ValueLoaded(ValueOutcome::Fields(fields)),
                ProduceEvent::Encoded(Some(encoded)),
                ProduceEvent::KeyRead(Some(key)),
                ProduceEvent::Delivery(Some((partition, offset))),
            ],
        ) == (
            ProduceStage::Delivered(partition, offset),
            encoded@,
            seq![
                ActionView::ReadMessage(p.message_file@),
                ActionView::FetchSchema(p.schema_registry->0.schema_id),
                ActionView::OpenMessage(p.message_file@),
                ActionView::ReadJsonText(p.message_file@),
                ActionView::Encode(fields_view(fields@), p.topic@, false),
                ActionView::ReadKey(p.key_file@),
                ActionView::Send(
                    RecordView {
                        topic: p.topic@,
                        headers: record_headers(),
                        key: key@,
                        payload: encoded@,
                        timeout_secs: delivery_timeout_secs(),
                    },
                ),
                ActionView::Idle,
            ],
        ),
{
    reveal_strlit("json");
    reveal_strlit("avro");
    assert("json"@ != "avro"@) by {
        assert("json"@[0] != "avro"@[0]);
    }
    let e0 = seq![
        ProduceEvent::Begin,
        ProduceEvent::MessageRead(Some(message)),
        ProduceEvent::SchemaChecked(SchemaCheck::Matches),
        ProduceEvent::MessageOpened(true),
        ProduceEvent::ValueLoaded(ValueOutcome::Fields(fields)),
        ProduceEvent::Encoded(Some(encoded)),
        ProduceEvent::KeyRead(Some(key)),
        ProduceEvent::Delivery(Some((partition, offset))),
    ];
    let e1 = e0.drop_first();
    let e2 = e1.drop_first();
    let e3 = e2.drop_first();
    let e4 = e3.drop_first();
    let e5 = e4.drop_first();
    let e6 = e5.drop_first();
    let e7 = e6.drop_first();
    let e8 = e7.drop_first();
    assert(e8 =~= Seq::<ProduceEvent>::empty());
    let send = ActionView::Send(
        RecordView {
            topic: p.topic@,
            headers: record_headers(),
            key: key@,
            payload: encoded@,
            timeout_secs: delivery_timeout_secs(),
        },
    );
    let r8 = run_events(p, ProduceStage::Delivered(partition, offset), encoded@, e8);
    assert(r8 == (ProduceStage::Delivered(partition, offset), encoded@, Seq::<ActionView>::empty()));
    let r7 = run_events(p, ProduceStage::Delivering, encoded@, e7);
    assert(e7[0] == ProduceEvent::Delivery(Some((partition, offset))));
    assert(r7.2 =~= seq![ActionView::Idle]);
    let r6 = run_events(p, ProduceStage::ReadingKey, encoded@, e6);
    assert(e6[0] == ProduceEvent::KeyRead(Some(key)));
    assert(r6.2 =~= seq![send, ActionView::Idle]);
    let r5 = run_events(p, ProduceStage::Encoding, Seq::empty(), e5);
    assert(e5[0] == ProduceEvent::Encoded(Some(encoded)));
    assert(r5.2 =~= seq![ActionView::ReadKey(p.key_file@), send, ActionView::Idle]);
    let r4 = run_events(p, ProduceStage::LoadingJson, Seq::empty(), e4);
    assert(e4[0] == ProduceEvent::ValueLoaded(ValueOutcome::Fields(fields)));
    let r3 = run_events(p, ProduceStage::OpeningMessage, Seq::empty(), e3);
    assert(e3[0] == ProduceEvent::MessageOpened(true));
    let r2 = run_events(p, ProduceStage::FetchingSchema, Seq::empty(), e2);
    assert(e2[0] == ProduceEvent::SchemaChecked(SchemaCheck::Matches));
    let r1 = run_events(p, ProduceStage::ReadingMessage, Seq::empty(), e1);
    assert(e1[0] == ProduceEvent::MessageRead(Some(message)));
    let r0 = run_events(p, ProduceStage::Start, Seq::empty(), e0);
    assert(r0.2 =~= seq![
        ActionView::ReadMessage(p.message_file@),
        ActionView::FetchSchema(p.schema_registry->0.schema_id),
        ActionView::OpenMessage(p.message_file@),
        ActionView::ReadJsonText(p.message_file@),
        ActionView::Encode(fields_view(fields@), p.topic@, false),
        ActionView::ReadKey(p.key_file@),
        send,
        ActionView::Idle,
    ]);
}

/// With a schema registry, and an Avro message file, the record sent carries the
/// registry encoding of the first value's fields, under the value subject of the
/// producer's topic, as for a JSON message file; the file's text read first is
/// not what is sent.
pub proof fn law_registry_avro_message_sent(
    p: KafkaProducer,
    message: String,
    fields: Vec<(String, Value)>,
    encoded: Vec<u8>,
    key: String,
    partition: i32,
    offset: i64,
)
    requires
        p.schema_registry is Some,
        p.schema_registry->0.subject_name_strategy matches SubjectNameStrategy::TopicNameStrategy(t, k)
            && t@ == p.topic@ && !k,
        extension(p.message_file@) == Some("avro"@),
    ensures
        run_events(
            p,
            ProduceStage::Start,
            Seq::empty(),
            seq![
                ProduceEvent::Begin,
                ProduceEvent::MessageRead(Some(message)),
                ProduceEvent::SchemaChecked(SchemaCheck::Matches),
                ProduceEvent::MessageOpened(true),
                ProduceEvent::ValueLoaded(ValueOutcome::Fields(fields)),
                ProduceEvent::Encoded(Some(encoded)),
                ProduceEvent::KeyRead(Some(key)),
                ProduceEvent::Delivery(Some((partition, offset))),
            ],
        ) == (
            ProduceStage::Delivered(partition, offset),
            encoded@,
            seq![
                ActionView::ReadMessage(p.message_file@),
                ActionView::FetchSchema(p.schema_registry->0.schema_id),
                ActionView::OpenMessage(p.message_file@),
                ActionView::ReadAvroBytes(p.message_file@),
                ActionView::Encode(fields_view(fields@), p.topic@, false),
                ActionView::ReadKey(p.key_file@),
                ActionView::Send(
                    RecordView {
                        topic: p.topic@,
                        headers: record_headers(),
                        key: key@,
                        payload: encoded@,
                        timeout_secs: delivery_timeout_secs(),
                    },
                ),
                ActionView::Idle,
            ],
        ),
{
    reveal_strlit("json");
    reveal_strlit("avro");
    assert("json"@ != "avro"@) by {
        assert("json"@[0] != "avro"@[0]);
    }
    let e0 = seq![
        ProduceEvent::Begin,
        ProduceEvent::MessageRead(Some(message)),
        ProduceEvent::SchemaChecked(SchemaCheck::Matches),
        ProduceEvent::MessageOpened(true),
        ProduceEvent::ValueLoaded(ValueOutcome::Fields(fields)),
        ProduceEvent::Encoded(Some(encoded)),
        ProduceEvent::KeyRead(Some(key)),
        ProduceEvent::Delivery(Some((partition, offset))),
    ];
    let e1 = e0.drop_first();
    let e2 = e1.drop_first();
    let e3 = e2.drop_first();
    let e4 = e3.drop_first();
    let e5 = e4.drop_first();
    let e6 = e5.drop_first();
    let e7 = e6.drop_first();
    let e8 = e7.drop_first();
    assert(e8 =~= Seq::<ProduceEvent>::empty());
    let send = ActionView::Send(
        RecordView {
            topic: p.topic@,
            headers: record_headers(),
            key: key@,
            payload: encoded@,
            timeout_secs: delivery_timeout_secs(),
        },
    );
    let r8 = run_events(p, ProduceStage::Delivered(partition, offset), encoded@, e8);
    assert(r8 == (ProduceStage::Delivered(partition, offset), encoded@, Seq::<ActionView>::empty()));
    let r7 = run_events(p, ProduceStage::Delivering, encoded@, e7);
    assert(e7[0] == ProduceEvent::Delivery(Some((partition, offset))));
    assert(r7.2 =~= seq![ActionView::Idle]);
    let r6 = run_events(p, ProduceStage::ReadingKey, encoded@, e6);
    assert(e6[0] == ProduceEvent::KeyRead(Some(key)));
    assert(r6.2 =~= seq![send, ActionView::Idle]);
    let r5 = run_events(p, ProduceStage::Encoding, Seq::empty(), e5);
    assert(e5[0] == ProduceEvent::Encoded(Some(encoded)));
    assert(r5.2 =~= seq![ActionView::ReadKey(p.key_file@), send, ActionView::Idle]);
    let r4 = run_events(p, ProduceStage::LoadingAvro, Seq::empty(), e4);
    assert(e4[0] == ProduceEvent::ValueLoaded(ValueOutcome::Fields(fields)));
    let r3 = run_events(p, ProduceStage::OpeningMessage, Seq::empty(), e3);
    assert(e3[0] == ProduceEvent::MessageOpened(true));
    let r2 = run_events(p, ProduceStage::FetchingSchema, Seq::empty(), e2);
    assert(e2[0] == ProduceEvent::SchemaChecked(SchemaCheck::Matches));
    let r1 = run_events(p, ProduceStage::ReadingMessage, Seq::empty(), e1);
    assert(e1[0] == ProduceEvent::MessageRead(Some(message)));
    let r0 = run_events(p, ProduceStage::Start, Seq::empty(), e0);
    assert(r0.2 =~= seq![
        ActionView::ReadMessage(p.message_file@),
        ActionView::FetchSchema(p.schema_registry->0.schema_id),
        ActionView::OpenMessage(p.message_file@),
        ActionView::ReadAvroBytes(p.message_file@),
        ActionView::Encode(fields_view(fields@), p.topic@, false),
        ActionView::ReadKey(p.key_file@),
        send,
        ActionView::Idle,
    ]);
}

/// Once the message's fields are loaded, they are handed to the encoder under the
/// registry's subject, whatever the message file's format: an Avro file and a JSON
/// file go to the same subject, and with the subject a producer is set up with
/// (`new`), that is the value subject of the producer's topic.
pub proof fn law_loaded_fields_encoded_under_value_subject(
    p: KafkaProducer,
    payload: Seq<u8>,
    fields: Vec<(String, Value)>,
)
    requires
        p.schema_registry is Some,
    ensures
        transition(p, ProduceStage::LoadingAvro, payload, ProduceEvent::ValueLoaded(ValueOutcome::Fields(fields)))
            == transition(p, ProduceStage::LoadingJson, payload, ProduceEvent::ValueLoaded(ValueOutcome::Fields(fields))),
        p.schema_registry->0.subject_name_strategy matches SubjectNameStrategy::TopicNameStrategy(t, k) ==> (
        transition(p, ProduceStage::LoadingAvro, payload, ProduceEvent::ValueLoaded(ValueOutcome::Fields(fields)))
            == (ProduceStage::Encoding, payload, ActionView::Encode(fields_view(fields@), t@, k))),
        (p.schema_registry->0.subject_name_strategy matches SubjectNameStrategy::TopicNameStrategy(t, k) && t@
            == p.topic@ && !k) ==> transition(
            p,
            ProduceStage::LoadingAvro,
            payload,
            ProduceEvent::ValueLoaded(ValueOutcome::Fields(fields)),
        ) == (ProduceStage::Encoding, payload, ActionView::Encode(fields_view(fields@), p.topic@, false)),
{
}


/// A message produced without a schema registry is read back by a consumer as the
/// very text of the message file: the payload that is sent decodes to it.
pub proof fn law_plain_message_read_back(
    p: KafkaProducer,
    message: String,
    key: String,
    partition: i32,
    offset: i64,
)
    requires
        p.schema_registry is None,
    ensures
        run_events(
            p,
            ProduceStage::Start,
            Seq::empty(),
            seq![
                ProduceEvent::Begin,
                ProduceEvent::MessageRead(Some(message)),
                ProduceEvent::KeyRead(Some(key)),
                ProduceEvent::Delivery(Some((partition, offset))),
            ],
        ).2[2] matches ActionView::Send(record) && payload_text(Some(record.payload)) == message@,
{
    law_plain_message_sent(p, message, key, partition, offset);
    vstd::utf8::encode_utf8_valid_utf8(message@);
    vstd::utf8::encode_utf8_decode_utf8(message@);
}


/// A run with a schema registry goes on past the registry's schema exactly when the
/// registry gave a schema that parses and equals the local one; otherwise it fails.
pub proof fn law_schema_gate(p: KafkaProducer, payload: Seq<u8>, fetched: Option<Seq<char>>)
    requires
        p.schema_registry is Some,
    ensures
        ({
            let local = p.schema_registry->0.schema.source();
            let next = transition(
                p,
                ProduceStage::FetchingSchema,
                payload,
                ProduceEvent::SchemaChecked(registry_check(local, fetched)),
            ).0;
            &&& next == ProduceStage::OpeningMessage <==> (fetched is Some && avro_schema_parses(
                fetched->0,
            ) && avro_schemas_equal(local, fetched->0))
            &&& next != ProduceStage::OpeningMessage ==> next is Failed
        }),
{
}

/// A loaded message goes on to be encoded exactly when it gave fields; otherwise
/// the run fails.
pub proof fn law_fields_gate(p: KafkaProducer, stage: ProduceStage, payload: Seq<u8>, o: ValueOutcome)
    requires
        p.schema_registry is Some,
        stage == ProduceStage::LoadingAvro || stage == ProduceStage::LoadingJson,
    ensures
        ({
            let next = transition(p, stage, payload, ProduceEvent::ValueLoaded(o)).0;
            &&& next == ProduceStage::Encoding <==> o.kind() == ValueKind::Fields
            &&& next != ProduceStage::Encoding ==> next is Failed
        }),
{
}


/// The names of fields, in order.
pub open spec fn field_names(fields: Seq<(Seq<char>, Value)>) -> Seq<Seq<char>> {
    fields.map_values(|kv: (Seq<char>, Value)| kv.0)
}

/// Fields with names and values are the entries of the map, each key once.
pub open spec fn fields_of_map(fields: Seq<(Seq<char>, Value)>, m: Map<Seq<char>, Value>) -> bool {
    &&& field_names(fields).no_duplicates()
    &&& field_names(fields).to_set() == m.dom()
    &&& forall|i: int| 0 <= i < fields.len() ==> m[#[trigger] fields[i].0] == fields[i].1
}

/// With a schema registry, the fields handed to the encoder are those loaded from
/// the message file, names with values, in the order loaded: for a JSON message,
/// the entries of the object it holds, each key once; for an Avro container, its
/// first value's fields if it is a record, or its entries, each key once, if it
/// is a map.
pub proof fn law_encoded_fields_are_the_loaded_entries(
    p: KafkaProducer,
    stage: ProduceStage,
    payload: Seq<u8>,
    fields: Vec<(String, Value)>,
)
    requires
        p.schema_registry is Some,
        stage == ProduceStage::LoadingAvro || stage == ProduceStage::LoadingJson,
    ensures
        ({
            let next = transition(p, stage, payload, ProduceEvent::ValueLoaded(ValueOutcome::Fields(fields)));
            &&& next.0 == ProduceStage::Encoding
            &&& next.2 matches ActionView::Encode(encoded, _, _)
            &&& encoded == entries_view(fields@)
            &&& forall|text: Seq<char>|
                #[trigger] fields_of_json(text, fields@) ==> fields_of_map(
                    encoded,
                    json_map_entries(JsonOrigin::Text(text)),
                )
            &&& forall|bytes: Seq<u8>|
                #[trigger] fields_of_container(bytes, fields@) ==> if container_value_kind(bytes)
                    == EntriesKind::Record {
                    encoded == container_record_fields(bytes)
                } else {
                    fields_of_map(encoded, container_map_entries(bytes))
                }
        }),
{
    let encoded = fields_view(fields@);
    assert(encoded =~= entries_view(fields@));
    assert(field_names(encoded) =~= entry_names(fields@));
    assert forall|i: int| 0 <= i < encoded.len() implies #[trigger] encoded[i].0 == fields@[i].0@
        && encoded[i].1 == fields@[i].1 by {}
}

} // verus!

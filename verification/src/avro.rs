//! The Avro side of producing a message: checking the schema held by the
//! registry against the local one, and turning the message file into the
//! fields that the encoder takes.
//!
//! Schemas and values are those of `apache_avro`; the library holds them but
//! does not look inside them. Each is kept beside the text or bytes it was made
//! of, and what the outside functions give back is stated as a function of those.
use vstd::prelude::*;
use apache_avro::Reader;
use apache_avro::Schema;
use apache_avro::types::Value;
use crate::schema_refs::{refers_by_name_to_none, refers_by_name_to_nothing};

verus! {

#[verifier::external_type_specification]
#[verifier::external_body]
pub struct ExSchema(Schema);

#[verifier::external_type_specification]
#[verifier::external_body]
pub struct ExAvroValue(Value);

#[verifier::external_type_specification]
#[verifier::external_body]
pub struct ExAvroError(apache_avro::Error);

#[verifier::external_type_specification]
#[verifier::external_body]
pub struct ExJsonValue(serde_json::Value);

#[verifier::external_type_specification]
#[verifier::external_body]
pub struct ExJsonError(serde_json::Error);

#[verifier::external_type_specification]
#[verifier::external_body]
#[verifier::reject_recursive_types(R)]
pub struct ExReader<'a, R>(Reader<'a, R>);

/// Whether `apache_avro::Schema::parse_str` accepts the text as a schema.
pub uninterp spec fn avro_schema_parses(text: Seq<char>) -> bool;

/// Whether `PartialEq::eq` of `apache_avro::Schema` holds of the schemas that
/// `Schema::parse_str` makes of the two texts.
pub uninterp spec fn avro_schemas_equal(a: Seq<char>, b: Seq<char>) -> bool;

/// Whether `apache_avro::schema::ResolvedSchema::try_from` resolves every name of
/// the schema parsed from the text: no named type defined twice, no reference to
/// a name that is not defined.
pub uninterp spec fn avro_schema_resolves(text: Seq<char>) -> bool;

/// Whether `apache_avro::Reader::new` accepts the bytes as the start of an Avro container.
pub uninterp spec fn avro_container_opens(bytes: Seq<u8>) -> bool;

/// What `serde_json::to_vec` writes of the writer schema that `apache_avro::Reader::new`
/// read from the header of the container, `None` where it writes nothing.
pub uninterp spec fn avro_writer_schema_json(bytes: Seq<u8>) -> Option<Seq<u8>>;

/// Whether the writer schema of the container, as written, refers to no named type
/// by its name: decoding its values then recurses no deeper than the schema nests.
pub open spec fn container_schema_checked(bytes: Seq<u8>) -> bool {
    refers_by_name_to_nothing(avro_writer_schema_json(bytes))
}

/// What the first call of `Iterator::next` on an `apache_avro::Reader` newly made
/// over the bytes gives back.
pub uninterp spec fn avro_container_first(bytes: Seq<u8>) -> FirstValue;

/// Whether `serde_json::from_str` accepts the text as JSON.
pub uninterp spec fn json_text_parses(text: Seq<char>) -> bool;

/// Whether `TryFrom<serde_json::Value>` of `apache_avro::types::Value` succeeds on
/// the JSON value of that origin.
pub uninterp spec fn json_fits_avro(origin: JsonOrigin) -> bool;

/// Whether `apache_avro::types::Value::validate` holds of the Avro value made of
/// the JSON value of that origin against the schema parsed from the schema text.
pub uninterp spec fn avro_json_validates(origin: JsonOrigin, schema_text: Seq<char>) -> bool;

/// Which variant of `apache_avro::types::Value` the value made of the JSON value of that origin is.
pub uninterp spec fn json_value_kind(origin: JsonOrigin) -> EntriesKind;

/// Whether `TryFrom<apache_avro::types::Value>` of `serde_json::Value` succeeds on
/// the first value of the container.
pub uninterp spec fn container_value_fits_json(bytes: Seq<u8>) -> bool;

/// Whether `PartialEq::eq` of `serde_json::Value` holds of the JSON values of the two origins.
pub uninterp spec fn json_values_equal(a: JsonOrigin, b: JsonOrigin) -> bool;

/// The entries, by key, of the map that `TryFrom<serde_json::Value>` of
/// `apache_avro::types::Value` makes of the JSON value of that origin, where it makes a map.
pub uninterp spec fn json_map_entries(origin: JsonOrigin) -> Map<Seq<char>, Value>;

/// The fields, names with values and in order, of the first value of the container,
/// where it is a record.
pub uninterp spec fn container_record_fields(bytes: Seq<u8>) -> Seq<(Seq<char>, Value)>;

/// The entries, by key, of the first value of the container, where it is a map.
pub uninterp spec fn container_map_entries(bytes: Seq<u8>) -> Map<Seq<char>, Value>;

/// The keys of the map made of the JSON value of that origin.
pub open spec fn json_map_keys(origin: JsonOrigin) -> Set<Seq<char>> {
    json_map_entries(origin).dom()
}

/// The names of the fields, in order, of the first value of the container.
pub open spec fn container_record_field_names(bytes: Seq<u8>) -> Seq<Seq<char>> {
    container_record_fields(bytes).map_values(|kv: (Seq<char>, Value)| kv.0)
}

/// The keys of the first value of the container.
pub open spec fn container_map_keys(bytes: Seq<u8>) -> Set<Seq<char>> {
    container_map_entries(bytes).dom()
}

/// Where a JSON value came from: the text it was parsed from, or the Avro
/// container whose first value it was converted from.
pub enum JsonOrigin {
    Text(Seq<char>),
    Container(Seq<u8>),
}

/// Which variant of `apache_avro::types::Value` the first value of the container is.
pub uninterp spec fn container_value_kind(bytes: Seq<u8>) -> EntriesKind;

/// What reading the first value of a container gives back.
#[derive(Clone, Copy, Debug, PartialEq, Eq, Structural)]
pub enum FirstValue {
    /// The container holds no value.
    Empty,
    /// The first value does not decode.
    Invalid,
    Decoded,
}

/// Whether an Avro value has named entries.
#[derive(Clone, Copy, Debug, PartialEq, Eq, Structural)]
pub enum EntriesKind {
    MapEntries,
    Record,
    Other,
}

/// An Avro schema and the text it was parsed from.
pub struct ParsedSchema {
    text: String,
    schema: Schema,
}

impl ParsedSchema {
    /// The text the schema was parsed from.
    pub closed spec fn source(self) -> Seq<char> {
        self.text@
    }
}

/// The text or container bytes a JSON value was made of.
pub enum JsonSource {
    Text(String),
    Container(Vec<u8>),
}

impl View for JsonSource {
    type V = JsonOrigin;

    open spec fn view(&self) -> JsonOrigin {
        match self {
            JsonSource::Text(t) => JsonOrigin::Text(t@),
            JsonSource::Container(b) => JsonOrigin::Container(b@),
        }
    }
}

/// A JSON value and what it was made of.
pub struct JsonDoc {
    source: JsonSource,
    value: serde_json::Value,
}

impl JsonDoc {
    /// What the value was made of.
    pub closed spec fn origin(self) -> JsonOrigin {
        self.source@
    }
}

/// The Avro value made of a JSON value, and what that was made of.
pub struct JsonDatum {
    source: JsonSource,
    value: Value,
}

impl JsonDatum {
    /// What the JSON value the Avro value was made of was made of.
    pub closed spec fn origin(self) -> JsonOrigin {
        self.source@
    }
}

/// A reader of an Avro container that has not yet been read from, and the container's bytes.
pub struct Container<'a> {
    bytes: &'a [u8],
    reader: Reader<'a, &'a [u8]>,
}

impl<'a> Container<'a> {
    /// The bytes of the container.
    pub closed spec fn source(self) -> Seq<u8> {
        self.bytes@
    }
}

/// The first value of an Avro container, and the container's bytes.
pub struct ContainerDatum<'a> {
    bytes: &'a [u8],
    value: Value,
}

impl<'a> ContainerDatum<'a> {
    /// The bytes of the container the value was read from.
    pub closed spec fn source(self) -> Seq<u8> {
        self.bytes@
    }
}

/// Calls `apache_avro::Schema::parse_str`, and keeps the text beside the parsed
/// schema. The contract states when it succeeds; of the schema it states only
/// the text it was parsed from.
#[verifier::external_body]
fn parse_schema(text: &str) -> (res: Result<ParsedSchema, apache_avro::Error>)
    ensures
        res is Ok <==> avro_schema_parses(text@),
        res matches Ok(s) ==> s.source() == text@,
{
    Schema::parse_str(text).map(|schema| ParsedSchema { text: text.to_string(), schema })
}

/// Calls `PartialEq::eq` of `apache_avro::Schema`, which compares the two schemas
/// with the crate's schema comparator: by default, and nothing here sets another,
/// structurally, field by field, leaving out custom attributes. Both schemas were
/// made by `Schema::parse_str` from their texts, so the answer is a function of
/// the two texts.
#[verifier::external_body]
fn schemas_equal(a: &ParsedSchema, b: &ParsedSchema) -> (res: bool)
    ensures
        res == avro_schemas_equal(a.source(), b.source()),
{
    a.schema == b.schema
}

/// Calls `apache_avro::Reader::new`, which reads the header of an Avro container.
/// The contract states when it succeeds, and keeps the bytes beside the reader.
#[verifier::external_body]
pub(crate) fn open_container<'a>(bytes: &'a [u8]) -> (res: Result<Container<'a>, apache_avro::Error>)
    ensures
        res is Ok <==> avro_container_opens(bytes@),
        res matches Ok(c) ==> c.source() == bytes@,
{
    Reader::new(bytes).map(|reader| Container { bytes, reader })
}

/// Calls `apache_avro::Reader::writer_schema` and writes the schema with
/// `serde_json::to_vec`: a named type in full where it is defined, each later use
/// of it as a string, its full name.
#[verifier::external_body]
pub(crate) fn writer_schema_json(c: &Container<'_>) -> (res: Option<Vec<u8>>)
    ensures
        res is Some <==> avro_writer_schema_json(c.source()) is Some,
        res matches Some(j) ==> avro_writer_schema_json(c.source()) == Some(j@),
{
    serde_json::to_vec(c.reader.writer_schema()).ok()
}

/// Calls `Iterator::next` of `apache_avro::Reader` on a reader not read from before:
/// the container's first value, `None` where it holds none. Decoding recurses
/// through the writer schema, and through a named type each time the schema
/// refers to it by name, with no bound on the depth: a record that holds itself
/// recurses until the stack is exhausted. The `requires` leaves out writer schemas
/// with such references; without them the depth is that of the schema, which
/// `serde_json`'s nesting limit on the header bounds.
#[verifier::external_body]
pub(crate) fn first_value<'a>(c: Container<'a>) -> (res: Option<Result<ContainerDatum<'a>, apache_avro::Error>>)
    requires
        container_schema_checked(c.source()),
    ensures
        res is None <==> avro_container_first(c.source()) == FirstValue::Empty,
        (res matches Some(Err(_))) <==> avro_container_first(c.source()) == FirstValue::Invalid,
        res matches Some(Ok(d)) ==> d.source() == c.source(),
{
    let Container { bytes, mut reader } = c;
    reader.next().map(|r| r.map(|value| ContainerDatum { bytes, value }))
}

/// Whether the writer schema of the container refers to no named type by its name.
pub(crate) fn check_container_schema(c: &Container<'_>) -> (r: bool)
    ensures
        r == container_schema_checked(c.source()),
{
    match writer_schema_json(c) {
        Some(j) => refers_by_name_to_none(j.as_slice()),
        None => false,
    }
}

/// Calls `serde_json::from_str` for a `serde_json::Value`, and keeps the text beside
/// the value. The contract states when it succeeds.
#[verifier::external_body]
pub(crate) fn parse_json(text: &str) -> (res: Result<JsonDoc, serde_json::Error>)
    ensures
        res is Ok <==> json_text_parses(text@),
        res matches Ok(j) ==> j.origin() == JsonOrigin::Text(text@),
{
    serde_json::from_str::<serde_json::Value>(text).map(
        |value| JsonDoc { source: JsonSource::Text(text.to_string()), value },
    )
}

/// Calls `TryFrom<serde_json::Value>` of `apache_avro::types::Value`, which fails on
/// a number that fits neither `i64` nor `f64`.
#[verifier::external_body]
fn json_to_avro(j: JsonDoc) -> (res: Result<JsonDatum, apache_avro::Error>)
    ensures
        res is Ok <==> json_fits_avro(j.origin()),
        res matches Ok(d) ==> d.origin() == j.origin(),
{
    let JsonDoc { source, value } = j;
    Value::try_from(value).map(|value| JsonDatum { source, value })
}

/// Calls `TryFrom<apache_avro::types::Value>` of `serde_json::Value` on the first
/// value of a container, and keeps a copy of the container's bytes beside the result.
/// The conversion recurses as deep as the value nests, which the writer schema
/// bounds where it refers to no named type by its name.
#[verifier::external_body]
pub(crate) fn container_to_json(d: ContainerDatum<'_>) -> (res: Result<JsonDoc, apache_avro::Error>)
    requires
        container_schema_checked(d.source()),
    ensures
        res is Ok <==> container_value_fits_json(d.source()),
        res matches Ok(j) ==> j.origin() == JsonOrigin::Container(d.source()),
{
    let ContainerDatum { bytes, value } = d;
    serde_json::Value::try_from(value).map(
        |value| JsonDoc { source: JsonSource::Container(bytes.to_vec()), value },
    )
}

/// Calls `PartialEq::eq` of `serde_json::Value`, a structural comparison; values
/// of the same origin are the same value, and a JSON value holds no NaN, so they
/// compare equal.
#[verifier::external_body]
pub(crate) fn json_equal(a: &JsonDoc, b: &JsonDoc) -> (res: bool)
    ensures
        res == json_values_equal(a.origin(), b.origin()),
        a.origin() == b.origin() ==> res,
{
    a.value == b.value
}

/// Calls `apache_avro::schema::ResolvedSchema::try_from` on the schema and tells
/// whether it succeeds.
#[verifier::external_body]
fn schema_resolves(schema: &ParsedSchema) -> (res: bool)
    ensures
        res == avro_schema_resolves(schema.source()),
{
    apache_avro::schema::ResolvedSchema::try_from(&schema.schema).is_ok()
}

/// Calls `apache_avro::types::Value::validate`. It first resolves the schema's
/// names, exactly as `ResolvedSchema::try_from` does, and panics where they do not
/// resolve; the `requires` leaves those schemas out.
#[verifier::external_body]
fn validates(d: &JsonDatum, schema: &ParsedSchema) -> (res: bool)
    requires
        avro_schema_resolves(schema.source()),
    ensures
        res == avro_json_validates(d.origin(), schema.source()),
{
    d.value.validate(&schema.schema)
}

/// The entries of an Avro value, where it has named entries.
pub enum AvroEntries {
    /// A map, its entries in the order in which the map was walked.
    MapEntries(Vec<(String, Value)>),
    /// A record, its fields in order.
    Record(Vec<(String, Value)>),
    Other,
}

/// Which variant the entries were handed out from.
pub open spec fn entries_kind(e: AvroEntries) -> EntriesKind {
    match e {
        AvroEntries::MapEntries(_) => EntriesKind::MapEntries,
        AvroEntries::Record(_) => EntriesKind::Record,
        AvroEntries::Other => EntriesKind::Other,
    }
}

/// The names of entries, in order.
pub open spec fn entry_names(entries: Seq<(String, Value)>) -> Seq<Seq<char>> {
    entries.map_values(|kv: (String, Value)| kv.0@)
}

/// Entries with their names as text.
pub open spec fn entries_view(entries: Seq<(String, Value)>) -> Seq<(Seq<char>, Value)> {
    entries.map_values(|kv: (String, Value)| (kv.0@, kv.1))
}

/// The entries are those of the map, each key once, in some order.
pub open spec fn entries_of_map(entries: Seq<(String, Value)>, m: Map<Seq<char>, Value>) -> bool {
    &&& entry_names(entries).no_duplicates()
    &&& entry_names(entries).to_set() == m.dom()
    &&& forall|i: int| 0 <= i < entries.len() ==> m[#[trigger] entries[i].0@] == entries[i].1
}

/// Hands out the entries of the Avro value made of a JSON value: that conversion
/// makes a map of every JSON object and never a record. The map's entries come
/// in the order in which the map is walked, each key once with its value.
#[verifier::external_body]
fn json_entries(d: JsonDatum) -> (res: AvroEntries)
    ensures
        entries_kind(res) == json_value_kind(d.origin()),
        !(res is Record),
        res matches AvroEntries::MapEntries(f) ==> entries_of_map(f@, json_map_entries(d.origin())),
{
    match d.value {
        Value::Map(m) => AvroEntries::MapEntries(m.into_iter().collect()),
        _ => AvroEntries::Other,
    }
}

/// Hands out the entries of the first value of a container: a record's fields,
/// names with values, in order, or a map's entries in the order in which the map
/// is walked, each key once with its value.
#[verifier::external_body]
fn container_entries(d: ContainerDatum<'_>) -> (res: AvroEntries)
    ensures
        entries_kind(res) == container_value_kind(d.source()),
        res matches AvroEntries::Record(f) ==> entries_view(f@) == container_record_fields(d.source()),
        res matches AvroEntries::MapEntries(f) ==> entries_of_map(f@, container_map_entries(d.source())),
{
    match d.value {
        Value::Map(m) => AvroEntries::MapEntries(m.into_iter().collect()),
        Value::Record(fields) => AvroEntries::Record(fields),
        _ => AvroEntries::Other,
    }
}

/// How the schema held by the registry compares with the local one.
#[derive(Clone, Copy, Debug, PartialEq, Eq, Structural)]
pub enum SchemaCheck {
    /// The registry did not give a schema.
    Unavailable,
    /// The registry's schema does not parse.
    Unparsable,
    /// The two schemas differ.
    Differs,
    Matches,
}

/// What loading the message as an Avro value came to.
pub enum ValueOutcome {
    /// The message file could not be read.
    Unreadable,
    /// The bytes do not start an Avro container.
    AvroHeaderInvalid,
    /// The container's schema refers to a named type by its name, so decoding
    /// its values could recurse without bound; it is not read.
    AvroSchemaReferences,
    /// The container holds no value.
    AvroEmpty,
    /// The first value of the container does not decode.
    AvroValueInvalid,
    /// The text is not JSON.
    JsonInvalid,
    /// The JSON holds a number that Avro cannot hold.
    JsonNotAvro,
    /// The schema defines a name twice or refers to a name it does not define.
    SchemaUnresolved,
    /// The value does not conform to the schema.
    NotValidForSchema,
    /// The value is neither a map nor a record.
    NotARecord,
    /// The named entries of the value.
    Fields(Vec<(String, Value)>),
}

/// The variant of a `ValueOutcome`.
#[derive(Clone, Copy, Debug, PartialEq, Eq, Structural)]
pub enum ValueKind {
    Unreadable,
    AvroHeaderInvalid,
    AvroSchemaReferences,
    AvroEmpty,
    AvroValueInvalid,
    JsonInvalid,
    JsonNotAvro,
    SchemaUnresolved,
    NotValidForSchema,
    NotARecord,
    Fields,
}

impl ValueOutcome {
    /// The variant of the outcome.
    pub open spec fn kind(self) -> ValueKind {
        match self {
            ValueOutcome::Unreadable => ValueKind::Unreadable,
            ValueOutcome::AvroHeaderInvalid => ValueKind::AvroHeaderInvalid,
            ValueOutcome::AvroSchemaReferences => ValueKind::AvroSchemaReferences,
            ValueOutcome::AvroEmpty => ValueKind::AvroEmpty,
            ValueOutcome::AvroValueInvalid => ValueKind::AvroValueInvalid,
            ValueOutcome::JsonInvalid => ValueKind::JsonInvalid,
            ValueOutcome::JsonNotAvro => ValueKind::JsonNotAvro,
            ValueOutcome::SchemaUnresolved => ValueKind::SchemaUnresolved,
            ValueOutcome::NotValidForSchema => ValueKind::NotValidForSchema,
            ValueOutcome::NotARecord => ValueKind::NotARecord,
            ValueOutcome::Fields(_) => ValueKind::Fields,
        }
    }
}

/// How a schema the registry gave (as text, `None` where it gave none) compares
/// with the local schema's text.
pub open spec fn registry_check(local_text: Seq<char>, fetched: Option<Seq<char>>) -> SchemaCheck {
    match fetched {
        None => SchemaCheck::Unavailable,
        Some(t) => if !avro_schema_parses(t) {
            SchemaCheck::Unparsable
        } else if avro_schemas_equal(local_text, t) {
            SchemaCheck::Matches
        } else {
            SchemaCheck::Differs
        },
    }
}

/// Compares the schema the registry gave (as text) with the local one.
pub fn check_registry_schema(local: &ParsedSchema, fetched: Option<String>) -> (res: SchemaCheck)
    ensures
        res == registry_check(
            local.source(),
            match fetched {
                Some(t) => Some(t@),
                None => None,
            },
        ),
{
    match fetched {
        None => SchemaCheck::Unavailable,
        Some(text) => match parse_schema(text.as_str()) {
            Err(_) => SchemaCheck::Unparsable,
            Ok(remote) => schema_comparison(schemas_equal(local, &remote)),
        },
    }
}

/// The outcome of the comparison of the two schemas.
pub fn schema_comparison(equal: bool) -> (res: SchemaCheck)
    ensures
        res == (if equal {
            SchemaCheck::Matches
        } else {
            SchemaCheck::Differs
        }),
{
    if equal {
        SchemaCheck::Matches
    } else {
        SchemaCheck::Differs
    }
}

/// The fields of a value: those of a map or a record; any other value has none.
pub fn record_fields(entries: AvroEntries) -> (res: ValueOutcome)
    ensures
        entries matches AvroEntries::MapEntries(f) ==> res matches ValueOutcome::Fields(g) && g@ == f@,
        entries matches AvroEntries::Record(f) ==> res matches ValueOutcome::Fields(g) && g@ == f@,
        entries is Other ==> res is NotARecord,
{
    match entries {
        AvroEntries::MapEntries(f) => ValueOutcome::Fields(f),
        AvroEntries::Record(f) => ValueOutcome::Fields(f),
        AvroEntries::Other => ValueOutcome::NotARecord,
    }
}

/// What loading the first value of an Avro container comes to, given the
/// container's bytes (`None` where they could not be read).
pub open spec fn avro_load_result(bytes: Option<Seq<u8>>) -> ValueKind {
    match bytes {
        None => ValueKind::Unreadable,
        Some(b) => if !avro_container_opens(b) {
            ValueKind::AvroHeaderInvalid
        } else if !container_schema_checked(b) {
            ValueKind::AvroSchemaReferences
        } else if avro_container_first(b) == FirstValue::Empty {
            ValueKind::AvroEmpty
        } else if avro_container_first(b) == FirstValue::Invalid {
            ValueKind::AvroValueInvalid
        } else if container_value_kind(b) == EntriesKind::Other {
            ValueKind::NotARecord
        } else {
            ValueKind::Fields
        },
    }
}

/// What loading a JSON message comes to, given its text (`None` where it could not
/// be read) and the text of the schema it must conform to.
pub open spec fn json_load_result(text: Option<Seq<char>>, schema_text: Seq<char>) -> ValueKind {
    match text {
        None => ValueKind::Unreadable,
        Some(t) => if !json_text_parses(t) {
            ValueKind::JsonInvalid
        } else if !json_fits_avro(JsonOrigin::Text(t)) {
            ValueKind::JsonNotAvro
        } else if !avro_schema_resolves(schema_text) {
            ValueKind::SchemaUnresolved
        } else if !avro_json_validates(JsonOrigin::Text(t), schema_text) {
            ValueKind::NotValidForSchema
        } else if json_value_kind(JsonOrigin::Text(t)) == EntriesKind::Other {
            ValueKind::NotARecord
        } else {
            ValueKind::Fields
        },
    }
}

/// The fields loaded from a container are the entries of its first value: a
/// record's fields, names with values and in order, or a map's entries, each key
/// once with its value.
pub open spec fn fields_of_container(bytes: Seq<u8>, fields: Seq<(String, Value)>) -> bool {
    if container_value_kind(bytes) == EntriesKind::Record {
        entries_view(fields) == container_record_fields(bytes)
    } else {
        entries_of_map(fields, container_map_entries(bytes))
    }
}

/// The fields loaded from a JSON text are the entries of the map made of it, each
/// key once with its value.
pub open spec fn fields_of_json(text: Seq<char>, fields: Seq<(String, Value)>) -> bool {
    entries_of_map(fields, json_map_entries(JsonOrigin::Text(text)))
}

/// The first value of an Avro container file, given its bytes.
pub fn load_avro_value(bytes: Option<Vec<u8>>) -> (res: ValueOutcome)
    ensures
        res.kind() == avro_load_result(
            match bytes {
                Some(b) => Some(b@),
                None => None,
            },
        ),
        res matches ValueOutcome::Fields(f) ==> bytes is Some && fields_of_container(bytes->0@, f@),
{
    match bytes {
        None => ValueOutcome::Unreadable,
        Some(b) => match open_container(b.as_slice()) {
            Err(_) => ValueOutcome::AvroHeaderInvalid,
            Ok(container) => if !check_container_schema(&container) {
                ValueOutcome::AvroSchemaReferences
            } else {
                match first_value(container) {
                None => ValueOutcome::AvroEmpty,
                Some(Err(_)) => ValueOutcome::AvroValueInvalid,
                Some(Ok(d)) => record_fields(container_entries(d)),
                }
            },
        },
    }
}

/// The value of a JSON message file, given its text, which must conform to the schema.
pub fn load_json_value(text: Option<String>, schema: &ParsedSchema) -> (res: ValueOutcome)
    ensures
        res.kind() == json_load_result(
            match text {
                Some(t) => Some(t@),
                None => None,
            },
            schema.source(),
        ),
        res matches ValueOutcome::Fields(f) ==> text is Some && fields_of_json(text->0@, f@),
{
    match text {
        None => ValueOutcome::Unreadable,
        Some(t) => match parse_json(t.as_str()) {
            Err(_) => ValueOutcome::JsonInvalid,
            Ok(json) => match json_to_avro(json) {
                Err(_) => ValueOutcome::JsonNotAvro,
                Ok(d) => if !schema_resolves(schema) {
                    ValueOutcome::SchemaUnresolved
                } else if validates(&d, schema) {
                    record_fields(json_entries(d))
                } else {
                    ValueOutcome::NotValidForSchema
                },
            },
        },
    }
}

/// Parses the local schema.
pub fn local_schema(text: &str) -> (res: Option<ParsedSchema>)
    ensures
        res is Some <==> avro_schema_parses(text@),
        res matches Some(s) ==> s.source() == text@,
{
    match parse_schema(text) {
        Ok(s) => Some(s),
        Err(_) => None,
    }
}

} // verus!

//! The parameter map of a Kafka client configuration.
use vstd::prelude::*;
use rdkafka::config::{ClientConfig, RDKafkaLogLevel};

verus! {

#[verifier::external_type_specification]
#[verifier::external_body]
pub struct ExClientConfig(ClientConfig);

/// The key/value parameters that a client configuration holds.
pub uninterp spec fn client_config_entries(c: ClientConfig) -> Map<Seq<char>, Seq<char>>;

/// The level of the log lines of a client made from the configuration.
pub uninterp spec fn client_config_log_level(c: ClientConfig) -> LogLevel;

/// The levels of the client's log lines, from the most to the least severe.
#[derive(Clone, Copy, Debug, PartialEq, Eq, Structural)]
pub enum LogLevel {
    Emerg,
    Alert,
    Critical,
    Error,
    Warning,
    Notice,
    Info,
    Debug,
}

/// Calls `rdkafka::config::ClientConfig::new`: no parameters. Its log level is
/// read from the global logger's level, which this contract leaves unsaid.
#[verifier::external_body]
pub(crate) fn client_config_new() -> (c: ClientConfig)
    ensures
        client_config_entries(c).dom() == Set::<Seq<char>>::empty(),
{
    ClientConfig::new()
}

/// Calls `rdkafka::config::ClientConfig::set`, which inserts the pair into its map,
/// overriding an existing value for the key; the log level is left as it was.
#[verifier::external_body]
pub(crate) fn client_config_set(c: &mut ClientConfig, key: &str, value: &str)
    ensures
        client_config_entries(*final(c)) == client_config_entries(*old(c)).insert(key@, value@),
        client_config_log_level(*final(c)) == client_config_log_level(*old(c)),
{
    c.set(key, value);
}

/// Calls the derived `Clone::clone` of `ClientConfig`, which copies its map and log level.
#[verifier::external_body]
pub(crate) fn client_config_clone(c: &ClientConfig) -> (copy: ClientConfig)
    ensures
        client_config_entries(copy) == client_config_entries(*c),
        client_config_log_level(copy) == client_config_log_level(*c),
{
    c.clone()
}

/// Calls `rdkafka::config::ClientConfig::set_log_level`, which sets the level and
/// leaves the parameters as they were. The level is converted variant for variant.
#[verifier::external_body]
pub(crate) fn client_config_set_log_level(c: &mut ClientConfig, level: LogLevel)
    ensures
        client_config_entries(*final(c)) == client_config_entries(*old(c)),
        client_config_log_level(*final(c)) == level,
{
    c.set_log_level(match level {
        LogLevel::Emerg => RDKafkaLogLevel::Emerg,
        LogLevel::Alert => RDKafkaLogLevel::Alert,
        LogLevel::Critical => RDKafkaLogLevel::Critical,
        LogLevel::Error => RDKafkaLogLevel::Error,
        LogLevel::Warning => RDKafkaLogLevel::Warning,
        LogLevel::Notice => RDKafkaLogLevel::Notice,
        LogLevel::Info => RDKafkaLogLevel::Info,
        LogLevel::Debug => RDKafkaLogLevel::Debug,
    });
}

} // verus!

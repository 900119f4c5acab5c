//! Connection settings of the Kafka cluster and of its schema registry.
use vstd::prelude::*;
use vstd::string::*;
use rdkafka::config::ClientConfig;
use crate::client::{client_config_entries, client_config_new, client_config_set};

verus! {

/// Credentials and address of a schema registry.
pub struct SchemaRegistryConfig {
    pub username: String,
    pub password: String,
    pub endpoint: String,
}

/// The connection settings of the tool: the client parameters of the cluster and,
/// where one is used, the schema registry.
pub struct KafkaConfig {
    pub client: ClientConfig,
    pub schema_registry: Option<SchemaRegistryConfig>,
}

/// The client parameters of a cluster at `endpoint`, reached over SASL_SSL with
/// the PLAIN mechanism where credentials are given.
pub open spec fn cluster_entries(
    endpoint: Seq<char>,
    sasl: Option<(Seq<char>, Seq<char>)>,
) -> Map<Seq<char>, Seq<char>> {
    let base = Map::<Seq<char>, Seq<char>>::empty().insert("bootstrap.servers"@, endpoint);
    match sasl {
        None => base,
        Some((user, password)) => base.insert("security.protocol"@, "SASL_SSL"@)
            .insert("sasl.mechanisms"@, "PLAIN"@)
            .insert("sasl.username"@, user)
            .insert("sasl.password"@, password),
    }
}


/// Whatever the credentials, the cluster's client parameters reach the broker at
/// the endpoint given; SASL credentials add the security protocol SASL_SSL, the
/// PLAIN mechanism, the user and the password, and nothing else.
pub proof fn law_cluster_reached_at_endpoint(endpoint: Seq<char>, sasl: Option<(Seq<char>, Seq<char>)>)
    ensures
        cluster_entries(endpoint, sasl).contains_key("bootstrap.servers"@),
        cluster_entries(endpoint, sasl)["bootstrap.servers"@] == endpoint,
        sasl is None ==> cluster_entries(endpoint, sasl).dom() == set!["bootstrap.servers"@],
        sasl matches Some((user, password)) ==> {
            &&& cluster_entries(endpoint, sasl).dom() == set![
                "bootstrap.servers"@,
                "security.protocol"@,
                "sasl.mechanisms"@,
                "sasl.username"@,
                "sasl.password"@
            ]
            &&& cluster_entries(endpoint, sasl)["security.protocol"@] == "SASL_SSL"@
            &&& cluster_entries(endpoint, sasl)["sasl.mechanisms"@] == "PLAIN"@
            &&& cluster_entries(endpoint, sasl)["sasl.username"@] == user
            &&& cluster_entries(endpoint, sasl)["sasl.password"@] == password
        },
{
    reveal_strlit("bootstrap.servers");
    reveal_strlit("security.protocol");
    reveal_strlit("sasl.mechanisms");
    reveal_strlit("sasl.username");
    reveal_strlit("sasl.password");
    reveal_strlit("SASL_SSL");
    reveal_strlit("PLAIN");
    let b = "bootstrap.servers"@;
    let sp = "security.protocol"@;
    let sm = "sasl.mechanisms"@;
    let su = "sasl.username"@;
    let pw = "sasl.password"@;
    assert(b[0] != sp[0] && b[0] != sm[0] && b[0] != su[0] && b[0] != pw[0]);
    assert(sp.len() != sm.len() && sp.len() != su.len() && sp.len() != pw.len());
    assert(sm.len() != su.len() && sm.len() != pw.len());
    assert(su[5] != pw[5]);
    let m = cluster_entries(endpoint, sasl);
    match sasl {
        None => {
            assert(m.dom() =~= set![b]);
        },
        Some((user, password)) => {
            assert(m.dom() =~= set![b, sp, sm, su, pw]);
        },
    }
}

impl KafkaConfig {
    /// The connection settings made of the cluster's endpoint, its SASL credentials
    /// (user and password, where both are set) and the schema registry's address and
    /// credentials (an unset credential is empty); no address, no registry.
    pub fn from_settings(
        endpoint: &str,
        sasl: Option<(String, String)>,
        registry_url: Option<String>,
        registry_username: Option<String>,
        registry_password: Option<String>,
    ) -> (c: KafkaConfig)
        ensures
            client_config_entries(c.client) == cluster_entries(
                endpoint@,
                match sasl {
                    Some((u, p)) => Some((u@, p@)),
                    None => None,
                },
            ),
            c.schema_registry is Some <==> registry_url is Some,
            c.schema_registry matches Some(r) ==> {
                &&& r.endpoint@ == registry_url->0@
                &&& r.username@ == (match registry_username {
                    Some(u) => u@,
                    None => Seq::<char>::empty(),
                })
                &&& r.password@ == (match registry_password {
                    Some(p) => p@,
                    None => Seq::<char>::empty(),
                })
            },
    {
        let mut client = client_config_new();
        client_config_set(&mut client, "bootstrap.servers", endpoint);
        match &sasl {
            Some((user, password)) => {
                client_config_set(&mut client, "security.protocol", "SASL_SSL");
                client_config_set(&mut client, "sasl.mechanisms", "PLAIN");
                client_config_set(&mut client, "sasl.username", user.as_str());
                client_config_set(&mut client, "sasl.password", password.as_str());
            },
            None => {},
        }
        let schema_registry = match registry_url {
            Some(url) => Some(
                SchemaRegistryConfig {
                    username: match registry_username {
                        Some(u) => u,
                        None => String::new(),
                    },
                    password: match registry_password {
                        Some(p) => p,
                        None => String::new(),
                    },
                    endpoint: url,
                },
            ),
            None => None,
        };
        KafkaConfig { client, schema_registry }
    }
}

/// What a producer is configured with in a configuration file.
pub struct ProducerConfig {
    pub topic: String,
    pub key_file: String,
    pub value_file: String,
    pub key_schema_file: Option<String>,
    pub value_schema_file: Option<String>,
    pub key_schema_id: Option<u32>,
    pub value_schema_id: Option<u32>,
}

} // verus!

//! Reading one message: the client parameters a consumer is created with, and
//! the text that is made of a received payload.
use vstd::prelude::*;
use vstd::string::*;
use vstd::utf8::{valid_utf8, decode_utf8};
use rdkafka::config::ClientConfig;
use crate::client::{
    client_config_clone, client_config_entries, client_config_log_level, client_config_set,
    client_config_set_log_level, LogLevel,
};
use crate::kafka_config::KafkaConfig;

verus! {

/// A consumer of one topic in a consumer group.
pub struct KafkaConsumer {
    pub client: ClientConfig,
    pub topic: String,
    pub key_file: Option<String>,
    pub consumer_group_id: String,
    pub partition: Option<u32>,
}

/// The parameters a consumer is created with: those of the cluster, with its group,
/// no end-of-partition events, a session timeout of 6000 ms and no automatic commits.
pub open spec fn consumer_entries(
    base: Map<Seq<char>, Seq<char>>,
    group: Seq<char>,
) -> Map<Seq<char>, Seq<char>> {
    base.insert("group.id"@, group)
        .insert("enable.partition.eof"@, "false"@)
        .insert("session.timeout.ms"@, "6000"@)
        .insert("enable.auto.commit"@, "false"@)
}

/// The text of a received payload: the payload decoded as UTF-8, and empty where
/// there is no payload or it is not UTF-8.
pub open spec fn payload_text(payload: Option<Seq<u8>>) -> Seq<char> {
    match payload {
        None => Seq::empty(),
        Some(bytes) => if valid_utf8(bytes) {
            decode_utf8(bytes)
        } else {
            Seq::empty()
        },
    }
}

/// Calls `std::str::from_utf8`, which gives the text that the bytes encode in UTF-8,
/// or an error where they are not valid UTF-8.
#[verifier::external_body]
fn utf8_text(bytes: &[u8]) -> (res: Option<&str>)
    ensures
        res is Some <==> valid_utf8(bytes@),
        res matches Some(s) ==> s@ == decode_utf8(bytes@),
{
    std::str::from_utf8(bytes).ok()
}

impl KafkaConsumer {
    /// A consumer with the cluster's client parameters and the given topic, key
    /// file, group and partition.
    pub fn new(
        config: &KafkaConfig,
        topic: &String,
        key_file: &Option<String>,
        consumer_group_id: &String,
        partition: &Option<u32>,
    ) -> (consumer: Self)
        ensures
            client_config_entries(consumer.client) == client_config_entries(config.client),
            client_config_log_level(consumer.client) == client_config_log_level(config.client),
            consumer.topic@ == topic@,
            consumer.key_file is Some <==> key_file is Some,
            consumer.key_file matches Some(k) ==> k@ == key_file->0@,
            consumer.consumer_group_id@ == consumer_group_id@,
            consumer.partition == *partition,
    {
        let key_file = match key_file {
            Some(k) => Some(k.clone()),
            None => None,
        };
        KafkaConsumer {
            topic: topic.clone(),
            client: client_config_clone(&config.client),
            key_file,
            consumer_group_id: consumer_group_id.clone(),
            partition: *partition,
        }
    }

    /// The client configuration the consumer is created from; its client logs at the debug level.
    pub fn consumer_config(&self) -> (c: ClientConfig)
        ensures
            client_config_entries(c) == consumer_entries(
                client_config_entries(self.client),
                self.consumer_group_id@,
            ),
            client_config_log_level(c) == LogLevel::Debug,
    {
        let mut c = client_config_clone(&self.client);
        client_config_set(&mut c, "group.id", self.consumer_group_id.as_str());
        client_config_set(&mut c, "enable.partition.eof", "false");
        client_config_set(&mut c, "session.timeout.ms", "6000");
        client_config_set(&mut c, "enable.auto.commit", "false");
        client_config_set_log_level(&mut c, LogLevel::Debug);
        c
    }
}

/// What a consumer reads from.
pub enum Assignment {
    /// The topic, through a subscription of the consumer's group.
    Subscribe(String),
    /// The partition of the topic, from the offset the group stored.
    Partition(String, i32),
    /// The partition of the topic, from the offset.
    Offset(String, i32, i64),
    /// The partition given is beyond the partition numbers of the cluster.
    InvalidPartition(u32),
}

/// What a consumer reads from, its topic as text.
pub enum AssignmentView {
    Subscribe(Seq<char>),
    Partition(Seq<char>, i32),
    Offset(Seq<char>, i32, i64),
    InvalidPartition(u32),
}

impl View for Assignment {
    type V = AssignmentView;

    open spec fn view(&self) -> AssignmentView {
        match self {
            Assignment::Subscribe(t) => AssignmentView::Subscribe(t@),
            Assignment::Partition(t, p) => AssignmentView::Partition(t@, *p),
            Assignment::Offset(t, p, o) => AssignmentView::Offset(t@, *p, *o),
            Assignment::InvalidPartition(p) => AssignmentView::InvalidPartition(*p),
        }
    }
}

/// What a consumer of `topic`, given `partition`, reads from: the partition and
/// offset where a message was just produced, where there is one; else the
/// partition given; else the whole topic.
pub open spec fn assignment_for(
    topic: Seq<char>,
    partition: Option<u32>,
    produced: Option<(i32, i64)>,
) -> AssignmentView {
    match produced {
        Some((p, o)) => AssignmentView::Offset(topic, p, o),
        None => match partition {
            Some(p) => if p <= i32::MAX {
                AssignmentView::Partition(topic, p as i32)
            } else {
                AssignmentView::InvalidPartition(p)
            },
            None => AssignmentView::Subscribe(topic),
        },
    }
}

impl KafkaConsumer {
    /// What the consumer reads from, given where a message was just produced, if one was.
    pub fn assignment(&self, produced: Option<(i32, i64)>) -> (a: Assignment)
        ensures
            a@ == assignment_for(self.topic@, self.partition, produced),
    {
        match produced {
            Some((p, o)) => Assignment::Offset(self.topic.clone(), p, o),
            None => match self.partition {
                Some(p) => if p <= 2147483647u32 {
                    Assignment::Partition(self.topic.clone(), p as i32)
                } else {
                    Assignment::InvalidPartition(p)
                },
                None => Assignment::Subscribe(self.topic.clone()),
            },
        }
    }
}

/// The text that consuming a message gives back for its payload.
pub fn received_payload(payload: Option<&[u8]>) -> (text: String)
    ensures
        text@ == payload_text(
            match payload {
                Some(b) => Some(b@),
                None => None,
            },
        ),
{
    match payload {
        None => String::new(),
        Some(bytes) => match utf8_text(bytes) {
            Some(s) => String::from_str(s),
            None => String::new(),
        },
    }
}

/// The consumer's own parameters are set as given, whatever the cluster settings
/// held for them; every other parameter of the cluster is kept unchanged.
pub proof fn law_consumer_entries(base: Map<Seq<char>, Seq<char>>, group: Seq<char>, key: Seq<char>)
    ensures
        consumer_entries(base, group)["group.id"@] == group,
        consumer_entries(base, group)["enable.auto.commit"@] == "false"@,
        consumer_entries(base, group)["enable.partition.eof"@] == "false"@,
        consumer_entries(base, group)["session.timeout.ms"@] == "6000"@,
        key != "group.id"@ && key != "enable.partition.eof"@ && key != "session.timeout.ms"@
            && key != "enable.auto.commit"@ ==> (consumer_entries(base, group).contains_key(key)
            <==> base.contains_key(key)) && (base.contains_key(key) ==> consumer_entries(
            base,
            group,
        )[key] == base[key]),
{
    reveal_strlit("group.id");
    reveal_strlit("enable.auto.commit");
    reveal_strlit("enable.partition.eof");
    reveal_strlit("session.timeout.ms");
    assert("group.id"@.len() == 8);
    assert("enable.partition.eof"@.len() == 20);
    assert("session.timeout.ms"@.len() == 18);
    assert("enable.auto.commit"@.len() == 18);
    assert("enable.auto.commit"@[0] != "session.timeout.ms"@[0]);
}

} // verus!

//! What a session with the broker is opened with, and the creation request
//! submitted through it.
use rdkafka::ClientConfig;
use vstd::prelude::*;

use crate::config::{valid_count, SubOpts};
use crate::kafka::{client_config_entries, empty_client_config, set_client_param, u32_text};
use crate::numeral::decimal_text;

verus! {

/// The client parameters of a session: the bootstrap broker and the session
/// timeout in milliseconds.
pub open spec fn session_params(broker: Seq<char>, session_timeout_ms: u32) -> Map<
    Seq<char>,
    Seq<char>,
> {
    Map::empty().insert("bootstrap.servers"@, broker).insert(
        "session.timeout.ms"@,
        decimal_text(session_timeout_ms as nat),
    )
}

/// The client configuration for a session with `broker`.
pub fn session_config(broker: &str, session_timeout_ms: u32) -> (r: ClientConfig)
    ensures
        client_config_entries(r) == session_params(broker@, session_timeout_ms),
{
    let mut c = empty_client_config();
    set_client_param(&mut c, "bootstrap.servers", broker);
    let timeout = u32_text(session_timeout_ms);
    set_client_param(&mut c, "session.timeout.ms", timeout.as_str());
    c
}

/// One topic-creation intent, in the shape the broker takes it: every
/// partition gets the same, fixed replication factor.
#[derive(Debug, PartialEq, Eq)]
pub struct CreateRequest {
    pub name: String,
    pub partitions: i32,
    pub replication_factor: i32,
}

/// The request that creating a topic with these parameters submits.
pub open spec fn request_of(cmd: SubOpts) -> CreateRequest {
    match cmd {
        SubOpts::CreateTopic { name, partitions, replication_factor } => CreateRequest {
            name,
            partitions: partitions as i32,
            replication_factor: replication_factor as i32,
        },
        _ => arbitrary(),
    }
}

/// Builds the creation request for a topic.
pub fn build_create_request(name: &String, partitions: u32, replication_factor: u32) -> (r:
    CreateRequest)
    requires
        valid_count(partitions),
        valid_count(replication_factor),
    ensures
        r.name == *name,
        r.partitions == partitions as int,
        r.replication_factor == replication_factor as int,
{
    CreateRequest {
        name: name.clone(),
        partitions: partitions as i32,
        replication_factor: replication_factor as i32,
    }
}

} // verus!

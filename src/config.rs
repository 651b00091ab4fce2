//! The configuration of one invocation: raw command-line values, and the
//! validated options built from them.
use vstd::prelude::*;

use crate::numeral::{count_value, is_numeral, parse_count};

verus! {

/// Broker address used when none is given.
pub const DEFAULT_BROKER: &'static str = "localhost:9092";

/// Session timeout, in milliseconds, used when none is given.
pub const DEFAULT_SESSION_TIMEOUT_MS: u32 = 6000;

/// Request timeout, in milliseconds, used when none is given.
pub const DEFAULT_REQUEST_TIMEOUT_MS: u32 = 60000;

/// Why the command-line values do not make a valid invocation.
#[derive(Debug, Clone, Copy, PartialEq, Eq, Structural)]
pub enum ConfigError {
    EmptyTopicName,
    InvalidPartitions,
    MissingReplicationFactor,
    InvalidReplicationFactor,
    InvalidSessionTimeout,
    InvalidRequestTimeout,
}

/// The operation selected on the command line, as typed.
#[derive(Debug)]
pub enum RawCommand {
    CreateTopic { name: String, partitions: Option<String>, replication_factor: Option<String> },
    Echo { topic: String },
    Produce,
}

/// The command-line values of one invocation, before validation.
#[derive(Debug)]
pub struct RawOpts {
    pub cmd: RawCommand,
    pub broker: Option<String>,
    pub session_timeout_ms: Option<String>,
    pub request_timeout_ms: Option<String>,
}

/// The selected operation with its parameters.
#[derive(Debug)]
pub enum SubOpts {
    CreateTopic { name: String, partitions: u32, replication_factor: u32 },
    Echo { topic: String },
    Produce,
}

/// A validated invocation.
#[derive(Debug)]
pub struct Opts {
    pub cmd: SubOpts,
    pub broker: String,
    pub session_timeout_ms: u32,
    pub request_timeout_ms: u32,
}

pub open spec fn valid_count(n: u32) -> bool {
    1 <= n <= crate::numeral::MAX_COUNT
}

/// What is wrong with the parameters of a selected operation, if anything.
pub open spec fn command_error(cmd: SubOpts) -> Option<ConfigError> {
    match cmd {
        SubOpts::CreateTopic { name, partitions, replication_factor } => {
            if name@.len() == 0 {
                Some(ConfigError::EmptyTopicName)
            } else if !valid_count(partitions) {
                Some(ConfigError::InvalidPartitions)
            } else if !valid_count(replication_factor) {
                Some(ConfigError::InvalidReplicationFactor)
            } else {
                None
            }
        },
        _ => None,
    }
}

/// What is wrong with the raw operation, if anything.
pub open spec fn raw_command_error(cmd: RawCommand) -> Option<ConfigError> {
    match cmd {
        RawCommand::CreateTopic { name, partitions, replication_factor } => {
            if name@.len() == 0 {
                Some(ConfigError::EmptyTopicName)
            } else if partitions is Some && count_value(partitions->Some_0@) is None {
                Some(ConfigError::InvalidPartitions)
            } else if replication_factor is None {
                Some(ConfigError::MissingReplicationFactor)
            } else if count_value(replication_factor->Some_0@) is None {
                Some(ConfigError::InvalidReplicationFactor)
            } else {
                None
            }
        },
        _ => None,
    }
}

/// What is wrong with the raw values, if anything: the operation is checked
/// first, then the session timeout, then the request timeout.
pub open spec fn config_error(raw: RawOpts) -> Option<ConfigError> {
    if raw_command_error(raw.cmd) is Some {
        raw_command_error(raw.cmd)
    } else if raw.session_timeout_ms is Some && count_value(
        raw.session_timeout_ms->Some_0@,
    ) is None {
        Some(ConfigError::InvalidSessionTimeout)
    } else if raw.request_timeout_ms is Some && count_value(
        raw.request_timeout_ms->Some_0@,
    ) is None {
        Some(ConfigError::InvalidRequestTimeout)
    } else {
        None
    }
}

/// The value of an optional count, or `default` when it is absent.
pub open spec fn count_or(s: Option<String>, default: u32) -> u32 {
    match s {
        Some(t) => count_value(t@)->Some_0,
        None => default,
    }
}

/// `cmd` is the validated form of the raw operation `raw`.
pub open spec fn command_from_raw(raw: RawCommand, cmd: SubOpts) -> bool {
    match raw {
        RawCommand::CreateTopic { name, partitions, replication_factor } => {
            &&& cmd is CreateTopic
            &&& cmd->CreateTopic_name@ == name@
            &&& cmd->CreateTopic_partitions == count_or(partitions, 1)
            &&& cmd->CreateTopic_replication_factor == count_value(
                replication_factor->Some_0@,
            )->Some_0
        },
        RawCommand::Echo { topic } => cmd is Echo && cmd->Echo_topic@ == topic@,
        RawCommand::Produce => cmd is Produce,
    }
}

/// `opts` is the validated form of `raw`, defaults filled in.
pub open spec fn opts_from_raw(raw: RawOpts, opts: Opts) -> bool {
    &&& command_from_raw(raw.cmd, opts.cmd)
    &&& opts.broker@ == match raw.broker {
        Some(b) => b@,
        None => DEFAULT_BROKER@,
    }
    &&& opts.session_timeout_ms == count_or(raw.session_timeout_ms, DEFAULT_SESSION_TIMEOUT_MS)
    &&& opts.request_timeout_ms == count_or(raw.request_timeout_ms, DEFAULT_REQUEST_TIMEOUT_MS)
}

/// A validated invocation: the operation's parameters are valid and both
/// timeouts are positive.
pub open spec fn opts_valid(opts: Opts) -> bool {
    &&& command_error(opts.cmd) is None
    &&& opts.session_timeout_ms >= 1
    &&& opts.request_timeout_ms >= 1
}

/// A topic creation without a replication factor, or with a partition count
/// that is not a numeral, is rejected with a configuration error, before
/// anything else is looked at.
pub proof fn lemma_malformed_creation_rejected(raw: RawOpts)
    requires
        raw.cmd is CreateTopic,
        raw.cmd->CreateTopic_replication_factor is None || (
        raw.cmd->CreateTopic_partitions is Some && !is_numeral(
            raw.cmd->CreateTopic_partitions->Some_0@,
        )),
    ensures
        config_error(raw) is Some,
{
}

fn optional_count(s: Option<String>, default: u32) -> (r: Option<u32>)
    ensures
        s is None ==> r == Some(default),
        s is Some ==> r == count_value(s->Some_0@),
{
    match s {
        Some(t) => parse_count(t.as_str()),
        None => Some(default),
    }
}

fn command_from(raw: RawCommand) -> (r: Result<SubOpts, ConfigError>)
    ensures
        match raw_command_error(raw) {
            Some(e) => r == Err::<SubOpts, ConfigError>(e),
            None => r is Ok && command_from_raw(raw, r->Ok_0) && command_error(r->Ok_0) is None,
        },
{
    match raw {
        RawCommand::CreateTopic { name, partitions, replication_factor } => {
            if name.unicode_len() == 0 {
                return Err(ConfigError::EmptyTopicName);
            }
            let p = match optional_count(partitions, 1) {
                Some(p) => p,
                None => return Err(ConfigError::InvalidPartitions),
            };
            let r = match replication_factor {
                None => return Err(ConfigError::MissingReplicationFactor),
                Some(t) => match parse_count(t.as_str()) {
                    Some(r) => r,
                    None => return Err(ConfigError::InvalidReplicationFactor),
                },
            };
            Ok(SubOpts::CreateTopic { name, partitions: p, replication_factor: r })
        },
        RawCommand::Echo { topic } => Ok(SubOpts::Echo { topic }),
        RawCommand::Produce => Ok(SubOpts::Produce),
    }
}

impl Opts {
    /// Validates the raw values of an invocation. Fails with the error that
    /// `config_error` names, and with no other; on success every default is
    /// filled in.
    pub fn from_raw(raw: RawOpts) -> (r: Result<Opts, ConfigError>)
        ensures
            match config_error(raw) {
                Some(e) => r == Err::<Opts, ConfigError>(e),
                None => r is Ok && opts_from_raw(raw, r->Ok_0) && opts_valid(r->Ok_0),
            },
    {
        let RawOpts { cmd, broker, session_timeout_ms, request_timeout_ms } = raw;
        let cmd = match command_from(cmd) {
            Ok(c) => c,
            Err(e) => return Err(e),
        };
        let session = match optional_count(session_timeout_ms, DEFAULT_SESSION_TIMEOUT_MS) {
            Some(t) => t,
            None => return Err(ConfigError::InvalidSessionTimeout),
        };
        let request = match optional_count(request_timeout_ms, DEFAULT_REQUEST_TIMEOUT_MS) {
            Some(t) => t,
            None => return Err(ConfigError::InvalidRequestTimeout),
        };
        let broker = match broker {
            Some(b) => b,
            None => DEFAULT_BROKER.to_string(),
        };
        Ok(Opts { cmd, broker, session_timeout_ms: session, request_timeout_ms: request })
    }
}

} // verus!

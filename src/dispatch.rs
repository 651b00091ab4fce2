//! The command dispatcher: one invocation as a state machine. The caller
//! performs each action it returns (open a session, submit a request, exit)
//! and hands back what happened as an event.
use rdkafka::admin::TopicResult;
use rdkafka::ClientConfig;
use vstd::prelude::*;

use crate::config::{command_error, config_error, opts_from_raw, ConfigError, Opts, RawOpts, SubOpts};
use crate::kafka::client_config_entries;
use crate::reconcile::{reconcile, reconcile_spec, KafkaManError, TopicError};
use crate::session::{build_create_request, request_of, session_config, session_params, CreateRequest};

verus! {

/// Where an invocation stands.
#[derive(Debug, Clone, Copy, PartialEq, Eq, Structural)]
pub enum Phase {
    Init,
    Executing,
    Reconciling,
    Completed,
    Failed,
}

/// What happened to the last action.
#[derive(Debug)]
pub enum Event {
    /// The session with the broker is established.
    SessionOpened,
    /// The session could not be established, for the reason given.
    SessionFailed(String),
    /// The broker answered the batch, one result per topic.
    BatchResolved(Vec<TopicResult>),
    /// The broker did not answer the batch within the request timeout.
    BatchTimedOut,
}

/// What the caller is to do next.
#[derive(Debug)]
pub enum Action {
    /// Open a session with this client configuration.
    OpenSession(ClientConfig),
    /// Submit this creation request, waiting at most the timeout.
    SubmitCreate { request: CreateRequest, request_timeout_ms: u32 },
    /// End the invocation with this outcome.
    Finish(Result<(), KafkaManError>),
}

/// One invocation of the tool.
pub struct KafkaMan {
    pub opts: Opts,
    pub phase: Phase,
}

/// The phase that ends an invocation with this outcome.
pub open spec fn phase_of(outcome: Result<(), KafkaManError>) -> Phase {
    if outcome is Ok {
        Phase::Completed
    } else {
        Phase::Failed
    }
}

/// The process exit status for an outcome: zero on success only.
pub open spec fn exit_code_spec(outcome: Result<(), KafkaManError>) -> i32 {
    if outcome is Ok {
        0
    } else {
        1
    }
}

/// The error with which starting an operation ends the invocation at once,
/// or `None` when it goes on to open a session.
pub open spec fn start_failure(cmd: SubOpts) -> Option<KafkaManError> {
    match cmd {
        SubOpts::CreateTopic { .. } => match command_error(cmd) {
            Some(e) => Some(KafkaManError::Config(e)),
            None => None,
        },
        _ => Some(KafkaManError::NotImplemented),
    }
}

/// Which events each phase waits for.
pub open spec fn expects(phase: Phase, e: Event) -> bool {
    match phase {
        Phase::Executing => e is SessionOpened || e is SessionFailed,
        Phase::Reconciling => e is BatchResolved || e is BatchTimedOut,
        _ => false,
    }
}

/// The step of the state machine on an event that it waits for.
pub open spec fn next(k: KafkaMan, e: Event) -> (KafkaMan, Action) {
    match e {
        Event::SessionOpened => (
            KafkaMan { opts: k.opts, phase: Phase::Reconciling },
            Action::SubmitCreate {
                request: request_of(k.opts.cmd),
                request_timeout_ms: k.opts.request_timeout_ms,
            },
        ),
        Event::SessionFailed(msg) => (
            KafkaMan { opts: k.opts, phase: Phase::Failed },
            Action::Finish(Err(KafkaManError::Connection(msg))),
        ),
        Event::BatchResolved(results) => (
            KafkaMan { opts: k.opts, phase: phase_of(reconcile_spec(results@)) },
            Action::Finish(reconcile_spec(results@)),
        ),
        Event::BatchTimedOut => (
            KafkaMan { opts: k.opts, phase: Phase::Failed },
            Action::Finish(Err(KafkaManError::RequestTimeout)),
        ),
    }
}

/// The process exit status for an outcome.
pub fn exit_code(outcome: &Result<(), KafkaManError>) -> (r: i32)
    ensures
        r == exit_code_spec(*outcome),
        r == 0 <==> outcome is Ok,
{
    match outcome {
        Ok(_) => 0,
        Err(_) => 1,
    }
}

impl KafkaMan {
    /// The machine's invariant: while the broker is involved, the operation
    /// is a valid topic creation.
    pub open spec fn wf(&self) -> bool {
        (self.phase == Phase::Executing || self.phase == Phase::Reconciling) ==> {
            &&& self.opts.cmd is CreateTopic
            &&& command_error(self.opts.cmd) is None
        }
    }

    /// A new invocation of `opts`, not yet started.
    pub fn new(opts: Opts) -> (r: KafkaMan)
        ensures
            r.opts == opts,
            r.phase == Phase::Init,
            r.wf(),
    {
        KafkaMan { opts, phase: Phase::Init }
    }

    /// Validates the raw values and makes an invocation of them. On invalid
    /// values it fails with the configuration error, and there is then no
    /// invocation that could reach the broker.
    pub fn configure(raw: RawOpts) -> (r: Result<KafkaMan, KafkaManError>)
        ensures
            match config_error(raw) {
                Some(e) => r matches Err(KafkaManError::Config(got)) && got == e,
                None => r is Ok && opts_from_raw(raw, r->Ok_0.opts) && r->Ok_0.phase
                    == Phase::Init,
            },
            r is Ok ==> r->Ok_0.wf(),
    {
        match Opts::from_raw(raw) {
            Ok(opts) => Ok(KafkaMan::new(opts)),
            Err(e) => Err(KafkaManError::Config(e)),
        }
    }

    /// Starts the invocation. Creating a topic with valid parameters opens a
    /// session with the broker; invalid parameters end it with the
    /// configuration error, and the operations that have no implementation
    /// end it at once, the broker untouched.
    pub fn start(&mut self) -> (r: Action)
        requires
            old(self).phase == Phase::Init,
        ensures
            final(self).opts == old(self).opts,
            final(self).wf(),
            match start_failure(old(self).opts.cmd) {
                Some(e) => final(self).phase == Phase::Failed && r == Action::Finish(Err(e)),
                None => final(self).phase == Phase::Executing && (r matches Action::OpenSession(
                    c,
                ) && client_config_entries(c) == session_params(
                    old(self).opts.broker@,
                    old(self).opts.session_timeout_ms,
                )),
            },
    {
        match &self.opts.cmd {
            SubOpts::CreateTopic { name, partitions, replication_factor } => {
                let err = create_params_error(name, *partitions, *replication_factor);
                match err {
                    Some(e) => {
                        self.phase = Phase::Failed;
                        Action::Finish(Err(KafkaManError::Config(e)))
                    },
                    None => {
                        self.phase = Phase::Executing;
                        Action::OpenSession(
                            session_config(self.opts.broker.as_str(), self.opts.session_timeout_ms),
                        )
                    },
                }
            },
            _ => {
                self.phase = Phase::Failed;
                Action::Finish(Err(KafkaManError::NotImplemented))
            },
        }
    }

    /// Advances the invocation on an event that it waits for.
    pub fn on_event(&mut self, e: Event) -> (r: Action)
        requires
            old(self).wf(),
            expects(old(self).phase, e),
        ensures
            (*final(self), r) == next(*old(self), e),
            final(self).wf(),
    {
        match e {
            Event::SessionOpened => {
                let request = match &self.opts.cmd {
                    SubOpts::CreateTopic { name, partitions, replication_factor } => {
                        build_create_request(name, *partitions, *replication_factor)
                    },
                    _ => {
                        assert(false);
                        return Action::Finish(Err(KafkaManError::NotImplemented));
                    },
                };
                self.phase = Phase::Reconciling;
                Action::SubmitCreate { request, request_timeout_ms: self.opts.request_timeout_ms }
            },
            Event::SessionFailed(msg) => {
                self.phase = Phase::Failed;
                Action::Finish(Err(KafkaManError::Connection(msg)))
            },
            Event::BatchResolved(results) => {
                let outcome = reconcile(results);
                self.phase = match outcome {
                    Ok(_) => Phase::Completed,
                    Err(_) => Phase::Failed,
                };
                Action::Finish(outcome)
            },
            Event::BatchTimedOut => {
                self.phase = Phase::Failed;
                Action::Finish(Err(KafkaManError::RequestTimeout))
            },
        }
    }
}

/// A batch in which the broker accepted every topic completes the
/// invocation, with exit status zero.
pub proof fn lemma_all_accepted_completes(k: KafkaMan, results: Vec<TopicResult>)
    requires
        k.wf(),
        k.phase == Phase::Reconciling,
        forall|i: int| 0 <= i < results@.len() ==> (#[trigger] results@[i]) is Ok,
    ensures
        next(k, Event::BatchResolved(results)).0.phase == Phase::Completed,
        next(k, Event::BatchResolved(results)).1 == Action::Finish(Ok(())),
        exit_code_spec(Ok(())) == 0,
{
    lemma_reconcile_all_ok(results@);
}

proof fn lemma_reconcile_all_ok(results: Seq<TopicResult>)
    requires
        forall|i: int| 0 <= i < results.len() ==> (#[trigger] results[i]) is Ok,
    ensures
        reconcile_spec(results) == Ok::<(), KafkaManError>(()),
    decreases results.len(),
{
    if results.len() > 0 {
        assert(results[0] is Ok);
        assert forall|i: int| 0 <= i < results.drop_first().len() implies (
        #[trigger] results.drop_first()[i]) is Ok by {
            assert(results.drop_first()[i] == results[i + 1]);
        }
        lemma_reconcile_all_ok(results.drop_first());
    }
}

/// A topic that the broker refuses fails the whole invocation with that
/// topic's name and reason (the first such topic of the batch), and a
/// non-zero exit status.
pub proof fn lemma_refused_topic_fails(k: KafkaMan, results: Vec<TopicResult>, i: int)
    requires
        k.wf(),
        k.phase == Phase::Reconciling,
        0 <= i < results@.len(),
        results@[i] is Err,
        forall|j: int| 0 <= j < i ==> (#[trigger] results@[j]) is Ok,
    ensures
        next(k, Event::BatchResolved(results)).0.phase == Phase::Failed,
        next(k, Event::BatchResolved(results)).1 == Action::Finish(
            Err(
                KafkaManError::Topic(
                    TopicError { name: results@[i]->Err_0.0, reason: results@[i]->Err_0.1 },
                ),
            ),
        ),
        exit_code_spec(reconcile_spec(results@)) != 0,
{
    lemma_reconcile_first_err(results@, i);
}

proof fn lemma_reconcile_first_err(results: Seq<TopicResult>, i: int)
    requires
        0 <= i < results.len(),
        results[i] is Err,
        forall|j: int| 0 <= j < i ==> (#[trigger] results[j]) is Ok,
    ensures
        reconcile_spec(results) == Err::<(), KafkaManError>(
            KafkaManError::Topic(TopicError { name: results[i]->Err_0.0, reason: results[i]->Err_0.1 }),
        ),
    decreases i,
{
    if i > 0 {
        let rest = results.drop_first();
        assert(results[0] is Ok);
        assert(rest[i - 1] == results[i]);
        assert forall|j: int| 0 <= j < i - 1 implies (#[trigger] rest[j]) is Ok by {
            assert(rest[j] == results[j + 1]);
        }
        lemma_reconcile_first_err(rest, i - 1);
    }
}

/// A broker that cannot be reached fails the invocation with a connection
/// error and a non-zero exit status; nothing is submitted.
pub proof fn lemma_unreachable_broker_fails(k: KafkaMan, msg: String)
    requires
        k.wf(),
        k.phase == Phase::Executing,
    ensures
        next(k, Event::SessionFailed(msg)).0.phase == Phase::Failed,
        next(k, Event::SessionFailed(msg)).1 == Action::Finish(
            Err(KafkaManError::Connection(msg)),
        ),
        exit_code_spec(Err(KafkaManError::Connection(msg))) != 0,
{
}

/// An operation without an implementation ends the invocation at once with
/// `NotImplemented` and a non-zero exit status, whatever the broker and the
/// other options.
pub proof fn lemma_unimplemented_command_fails(cmd: SubOpts)
    requires
        !(cmd is CreateTopic),
    ensures
        start_failure(cmd) == Some(KafkaManError::NotImplemented),
        exit_code_spec(Err(start_failure(cmd)->Some_0)) != 0,
{
}

/// A batch that the broker leaves unanswered past the request timeout fails
/// the invocation with a request timeout and a non-zero exit status.
pub proof fn lemma_request_timeout_fails(k: KafkaMan)
    requires
        k.wf(),
        k.phase == Phase::Reconciling,
    ensures
        next(k, Event::BatchTimedOut).0.phase == Phase::Failed,
        next(k, Event::BatchTimedOut).1 == Action::Finish(Err(KafkaManError::RequestTimeout)),
        exit_code_spec(Err(KafkaManError::RequestTimeout)) != 0,
{
}

fn create_params_error(name: &String, partitions: u32, replication_factor: u32) -> (r: Option<
    ConfigError,
>)
    ensures
        r == command_error(
            SubOpts::CreateTopic { name: *name, partitions, replication_factor },
        ),
{
    if name.unicode_len() == 0 {
        Some(ConfigError::EmptyTopicName)
    } else if !(1 <= partitions && partitions <= crate::numeral::MAX_COUNT) {
        Some(ConfigError::InvalidPartitions)
    } else if !(1 <= replication_factor && replication_factor <= crate::numeral::MAX_COUNT) {
        Some(ConfigError::InvalidReplicationFactor)
    } else {
        None
    }
}

} // verus!

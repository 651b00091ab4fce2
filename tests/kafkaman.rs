use kafkaman::config::{ConfigError, Opts, RawCommand, RawOpts, SubOpts};
use kafkaman::dispatch::{exit_code, Action, Event, KafkaMan, Phase};
use kafkaman::numeral::parse_count;
use kafkaman::reconcile::{reconcile, KafkaManError};
use kafkaman::session::{build_create_request, session_config};
use rdkafka::admin::TopicResult;
use rdkafka::error::RDKafkaErrorCode;

fn create_raw(name: &str, partitions: Option<&str>, replication_factor: Option<&str>) -> RawOpts {
    RawOpts {
        cmd: RawCommand::CreateTopic {
            name: name.to_string(),
            partitions: partitions.map(|p| p.to_string()),
            replication_factor: replication_factor.map(|r| r.to_string()),
        },
        broker: None,
        session_timeout_ms: None,
        request_timeout_ms: None,
    }
}

fn create_opts(name: &str, partitions: u32, replication_factor: u32) -> Opts {
    Opts {
        cmd: SubOpts::CreateTopic { name: name.into(), partitions, replication_factor },
        broker: "localhost:9092".into(),
        session_timeout_ms: 6000,
        request_timeout_ms: 60000,
    }
}

fn config_error_of(raw: RawOpts) -> ConfigError {
    match Opts::from_raw(raw) {
        Err(e) => e,
        Ok(o) => panic!("accepted {:?}", o),
    }
}

/// Runs a topic creation up to the broker's answer and returns the final action.
fn run_to_answer(k: &mut KafkaMan, answer: Event) -> Action {
    match k.start() {
        Action::OpenSession(_) => {},
        a => panic!("expected a session to be opened, got {:?}", a),
    }
    assert_eq!(k.phase, Phase::Executing);
    match k.on_event(Event::SessionOpened) {
        Action::SubmitCreate { .. } => {},
        a => panic!("expected a submission, got {:?}", a),
    }
    assert_eq!(k.phase, Phase::Reconciling);
    k.on_event(answer)
}

#[test]
fn parse_count_reads_numerals() {
    assert_eq!(parse_count("1"), Some(1));
    assert_eq!(parse_count("42"), Some(42));
    assert_eq!(parse_count("007"), Some(7));
    assert_eq!(parse_count("2147483647"), Some(2147483647));
}

#[test]
fn parse_count_rejects_others() {
    assert_eq!(parse_count(""), None);
    assert_eq!(parse_count("0"), None);
    assert_eq!(parse_count("abc"), None);
    assert_eq!(parse_count("12a"), None);
    assert_eq!(parse_count("-3"), None);
    assert_eq!(parse_count("+3"), None);
    assert_eq!(parse_count("2147483648"), None);
    assert_eq!(parse_count("99999999999999999999"), None);
}

#[test]
fn from_raw_fills_defaults() {
    let opts = Opts::from_raw(create_raw("foo", None, Some("3"))).unwrap();
    assert_eq!(opts.broker, "localhost:9092");
    assert_eq!(opts.session_timeout_ms, 6000);
    assert_eq!(opts.request_timeout_ms, 60000);
    match opts.cmd {
        SubOpts::CreateTopic { name, partitions, replication_factor } => {
            assert_eq!(name, "foo");
            assert_eq!(partitions, 1);
            assert_eq!(replication_factor, 3);
        },
        c => panic!("unexpected command {:?}", c),
    }
}

#[test]
fn from_raw_keeps_given_values() {
    let mut raw = create_raw("bar", Some("8"), Some("2"));
    raw.broker = Some("kafka:9093".into());
    raw.session_timeout_ms = Some("1500".into());
    raw.request_timeout_ms = Some("2500".into());
    let opts = Opts::from_raw(raw).unwrap();
    assert_eq!(opts.broker, "kafka:9093");
    assert_eq!(opts.session_timeout_ms, 1500);
    assert_eq!(opts.request_timeout_ms, 2500);
    assert!(matches!(opts.cmd, SubOpts::CreateTopic { partitions: 8, replication_factor: 2, .. }));
}

#[test]
fn missing_replication_factor_is_config_error() {
    let e = config_error_of(create_raw("foo", Some("1"), None));
    assert_eq!(e, ConfigError::MissingReplicationFactor);
}

#[test]
fn non_numeric_partitions_is_config_error() {
    let e = config_error_of(create_raw("foo", Some("many"), Some("1")));
    assert_eq!(e, ConfigError::InvalidPartitions);
}

#[test]
fn each_config_error_has_an_input() {
    assert_eq!(config_error_of(create_raw("", None, Some("1"))), ConfigError::EmptyTopicName);
    assert_eq!(config_error_of(create_raw("foo", Some("0"), Some("1"))), ConfigError::InvalidPartitions);
    assert_eq!(config_error_of(create_raw("foo", None, Some("x"))), ConfigError::InvalidReplicationFactor);
    let mut raw = create_raw("foo", None, Some("1"));
    raw.session_timeout_ms = Some("soon".into());
    assert_eq!(config_error_of(raw), ConfigError::InvalidSessionTimeout);
    let mut raw = create_raw("foo", None, Some("1"));
    raw.request_timeout_ms = Some("0".into());
    assert_eq!(config_error_of(raw), ConfigError::InvalidRequestTimeout);
}

#[test]
fn malformed_config_never_reaches_the_broker() {
    match KafkaMan::configure(create_raw("foo", Some("1"), None)) {
        Err(KafkaManError::Config(ConfigError::MissingReplicationFactor)) => {},
        Err(e) => panic!("unexpected error {:?}", e),
        Ok(_) => panic!("a malformed configuration was accepted"),
    }
}

#[test]
fn session_config_sets_broker_and_timeout() {
    let c = session_config("localhost:9092", 6000);
    assert_eq!(c.get("bootstrap.servers"), Some("localhost:9092"));
    assert_eq!(c.get("session.timeout.ms"), Some("6000"));
    let c = session_config("other:1", 250);
    assert_eq!(c.get("bootstrap.servers"), Some("other:1"));
    assert_eq!(c.get("session.timeout.ms"), Some("250"));
}

#[test]
fn create_request_carries_parameters() {
    let r = build_create_request(&"foo".to_string(), 3, 2);
    assert_eq!(r.name, "foo");
    assert_eq!(r.partitions, 3);
    assert_eq!(r.replication_factor, 2);
}

#[test]
fn reconcile_empty_and_all_ok() {
    assert!(reconcile(vec![]).is_ok());
    let results: Vec<TopicResult> = vec![Ok("a".into()), Ok("b".into())];
    assert!(reconcile(results).is_ok());
}

#[test]
fn reconcile_reports_first_failure() {
    let results: Vec<TopicResult> = vec![
        Ok("a".into()),
        Err(("b".into(), RDKafkaErrorCode::InvalidReplicationFactor)),
        Err(("c".into(), RDKafkaErrorCode::TopicAlreadyExists)),
    ];
    match reconcile(results) {
        Err(KafkaManError::Topic(t)) => {
            assert_eq!(t.name, "b");
            assert_eq!(t.reason, RDKafkaErrorCode::InvalidReplicationFactor);
        },
        r => panic!("unexpected outcome {:?}", r),
    }
}

#[test]
fn exit_codes() {
    assert_eq!(exit_code(&Ok(())), 0);
    assert_eq!(exit_code(&Err(KafkaManError::RequestTimeout)), 1);
    assert_eq!(exit_code(&Err(KafkaManError::NotImplemented)), 1);
}

#[test]
fn create_foo_completes() {
    let mut k = KafkaMan::new(create_opts("foo", 1, 1));
    assert_eq!(k.phase, Phase::Init);
    match k.start() {
        Action::OpenSession(c) => assert_eq!(c.get("bootstrap.servers"), Some("localhost:9092")),
        a => panic!("unexpected action {:?}", a),
    }
    match k.on_event(Event::SessionOpened) {
        Action::SubmitCreate { request, request_timeout_ms } => {
            assert_eq!(request.name, "foo");
            assert_eq!(request.partitions, 1);
            assert_eq!(request.replication_factor, 1);
            assert_eq!(request_timeout_ms, 60000);
        },
        a => panic!("unexpected action {:?}", a),
    }
    match k.on_event(Event::BatchResolved(vec![Ok("foo".into())])) {
        Action::Finish(outcome) => {
            assert!(outcome.is_ok());
            assert_eq!(exit_code(&outcome), 0);
        },
        a => panic!("unexpected action {:?}", a),
    }
    assert_eq!(k.phase, Phase::Completed);
}

#[test]
fn duplicate_creation_fails_second_time() {
    let mut first = KafkaMan::new(create_opts("foo", 1, 1));
    match run_to_answer(&mut first, Event::BatchResolved(vec![Ok("foo".into())])) {
        Action::Finish(outcome) => assert_eq!(exit_code(&outcome), 0),
        a => panic!("unexpected action {:?}", a),
    }
    let mut second = KafkaMan::new(create_opts("foo", 1, 1));
    let answer = vec![Err(("foo".into(), RDKafkaErrorCode::TopicAlreadyExists))];
    match run_to_answer(&mut second, Event::BatchResolved(answer)) {
        Action::Finish(outcome) => {
            assert_ne!(exit_code(&outcome), 0);
            match outcome {
                Err(KafkaManError::Topic(t)) => {
                    assert_eq!(t.name, "foo");
                    assert_eq!(t.reason, RDKafkaErrorCode::TopicAlreadyExists);
                },
                r => panic!("unexpected outcome {:?}", r),
            }
        },
        a => panic!("unexpected action {:?}", a),
    }
    assert_eq!(second.phase, Phase::Failed);
}

#[test]
fn unreachable_broker_is_connection_error() {
    let mut k = KafkaMan::new(create_opts("foo", 1, 1));
    assert!(matches!(k.start(), Action::OpenSession(_)));
    match k.on_event(Event::SessionFailed("connection refused".into())) {
        Action::Finish(outcome) => {
            assert_ne!(exit_code(&outcome), 0);
            match outcome {
                Err(KafkaManError::Connection(m)) => assert_eq!(m, "connection refused"),
                r => panic!("unexpected outcome {:?}", r),
            }
        },
        a => panic!("unexpected action {:?}", a),
    }
    assert_eq!(k.phase, Phase::Failed);
}

#[test]
fn echo_and_produce_are_not_implemented() {
    let cmds = vec![SubOpts::Echo { topic: "foo".into() }, SubOpts::Produce];
    for cmd in cmds {
        let mut opts = create_opts("foo", 1, 1);
        opts.cmd = cmd;
        opts.broker = "127.0.0.1:1".into();
        let mut k = KafkaMan::new(opts);
        match k.start() {
            Action::Finish(outcome) => {
                assert!(matches!(outcome, Err(KafkaManError::NotImplemented)));
                assert_ne!(exit_code(&outcome), 0);
            },
            a => panic!("unexpected action {:?}", a),
        }
        assert_eq!(k.phase, Phase::Failed);
    }
}

#[test]
fn invalid_parameters_stop_before_the_session() {
    let mut k = KafkaMan::new(create_opts("foo", 0, 1));
    match k.start() {
        Action::Finish(Err(KafkaManError::Config(ConfigError::InvalidPartitions))) => {},
        a => panic!("unexpected action {:?}", a),
    }
    assert_eq!(k.phase, Phase::Failed);
}

#[test]
fn request_timeout_fails() {
    let mut k = KafkaMan::new(create_opts("foo", 1, 1));
    match run_to_answer(&mut k, Event::BatchTimedOut) {
        Action::Finish(outcome) => {
            assert!(matches!(outcome, Err(KafkaManError::RequestTimeout)));
            assert_ne!(exit_code(&outcome), 0);
        },
        a => panic!("unexpected action {:?}", a),
    }
    assert_eq!(k.phase, Phase::Failed);
}

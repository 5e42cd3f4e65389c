use celery_results::classify::{find_marker, has_marker_of, Classifier, ErrorKind, FaultReport, MarkerRule};
use celery_results::client::{backend_address_setting, outcome_as_expected, BrokerChoice, ClientTask};
use celery_results::envelope::{result_key, ResultEnvelope};
use celery_results::failure::{ExceptionInfo, FailureRecord};
use celery_results::message::MessagePart;
use celery_results::polling::{interpret, on_read, on_tick, Fetched, Read, Step, WaitError, WaitPolicy};
use celery_results::text::{blank_run, contains_text};
use celery_results::time::Timestamp;

fn foreign_record(exc_type: &str, traceback: Option<&str>) -> FailureRecord {
    FailureRecord {
        status: "FAILURE".to_string(),
        result: ExceptionInfo {
            exc_type: exc_type.to_string(),
            exc_module: "celery.exceptions".to_string(),
            exc_message: MessagePart::Text("boom".to_string()),
            exc_cause: None,
            exc_traceback: traceback.map(|t| t.to_string()),
        },
        traceback: None,
        date_done: None,
        task_id: "t-1".to_string(),
    }
}

fn at() -> Timestamp {
    Timestamp { secs: 1_700_000_000, nanos: 500_000_000 }
}

#[test]
fn key_is_namespaced() {
    assert_eq!(result_key("abc-123"), "celery-task-meta-abc-123");
    assert_eq!(result_key(""), "celery-task-meta-");
}

#[test]
fn success_envelope_fields() {
    let e = ResultEnvelope::success_at("id-7", 3i32, at());
    assert_eq!(e.task_id, "id-7");
    assert_eq!(e.status, "SUCCESS");
    assert_eq!(e.result, 3);
    assert!(e.traceback.is_none());
    assert_eq!(e.date_done, Some(at()));
    assert!(e.is_success());
    let now = ResultEnvelope::success("id-8", 1u8);
    assert!(now.date_done.is_some());
    assert!(now.date_done.unwrap().secs > 1_600_000_000);
}

#[test]
fn add_result_is_returned() {
    let c = Classifier::standard();
    let policy = WaitPolicy { cleanup: false, wait_ms: 10_000 };
    let e = ResultEnvelope::success_at("add-1", 1i32 + 2, at());
    assert!(matches!(on_tick::<i32>(&policy, 5), Step::Read));
    assert!(matches!(on_read::<i32>(&c, &policy, Read::Absent), Step::Wait));
    match on_read(&c, &policy, Read::Envelope(e)) {
        Step::Done(Ok(v)) => assert_eq!(v, 3),
        _ => panic!("expected the stored sum"),
    }
    assert!(outcome_as_expected(&c, ClientTask::Add, &Ok(3)));
    assert!(!outcome_as_expected(&c, ClientTask::Add, &Ok(4)));
}

#[test]
fn cleanup_deletes_before_returning() {
    let c = Classifier::standard();
    let policy = WaitPolicy::default();
    assert!(policy.cleanup);
    assert_eq!(policy.wait_ms, 10_000);
    let e = ResultEnvelope::success_at("add-2", 3i32, at());
    match on_read(&c, &policy, Read::Envelope(e)) {
        Step::Delete(v) => assert_eq!(v, 3),
        _ => panic!("expected a delete step"),
    }
}

#[test]
fn deadline_gives_timeout() {
    let policy = WaitPolicy { cleanup: true, wait_ms: 1_000 };
    assert!(matches!(on_tick::<i32>(&policy, 999), Step::Read));
    assert!(matches!(on_tick::<i32>(&policy, 1_000), Step::Done(Err(WaitError::Timeout))));
    assert!(matches!(on_tick::<i32>(&policy, 5_000), Step::Done(Err(WaitError::Timeout))));
}

#[test]
fn absent_reads_never_return_a_value() {
    let c = Classifier::standard();
    let policy = WaitPolicy { cleanup: true, wait_ms: 1_000 };
    let mut elapsed: u64 = 0;
    let mut reads = 0;
    let outcome = loop {
        match on_tick::<i32>(&policy, elapsed) {
            Step::Read => {}
            Step::Done(r) => break r,
            _ => panic!("a tick only reads or stops"),
        }
        reads += 1;
        match on_read::<i32>(&c, &policy, Read::Absent) {
            Step::Wait => elapsed += 250,
            _ => panic!("an absent read waits"),
        }
    };
    assert!(matches!(outcome, Err(WaitError::Timeout)));
    assert_eq!(reads, 4);
}

#[test]
fn store_failure_is_a_backend_error() {
    let c = Classifier::standard();
    let policy = WaitPolicy::default();
    match on_read::<i32>(&c, &policy, Read::Unavailable("connection refused".to_string())) {
        Step::Done(Err(WaitError::Backend(m))) => assert_eq!(m, "connection refused"),
        _ => panic!("expected a backend error"),
    }
}

#[test]
fn native_expected_failure_is_expected() {
    let c = Classifier::standard();
    let r = c.native_failure("f-1", ErrorKind::Expected, "failure expected", at());
    assert_eq!(r.result.exc_type, "ExpectedError");
    assert_eq!(r.result.exc_module, "rust");
    assert_eq!(r.status, "FAILURE");
    assert_eq!(c.classify(&r), ErrorKind::Expected);
    assert_eq!(c.report(&r), FaultReport::Native(ErrorKind::Expected));
    let policy = WaitPolicy::default();
    match on_read::<i32>(&c, &policy, Read::Failure(r)) {
        Step::Done(Err(WaitError::Failed { kind, record })) => {
            assert_eq!(kind, ErrorKind::Expected);
            assert_eq!(record.task_id, "f-1");
            let o: Result<i32, WaitError> = Err(WaitError::Failed { kind, record });
            assert!(outcome_as_expected(&c, ClientTask::ExpectedFailure, &o));
            assert!(!outcome_as_expected(&c, ClientTask::UnexpectedFailure, &o));
        }
        _ => panic!("expected a classified failure"),
    }
}

#[test]
fn native_unexpected_failure_is_unexpected() {
    let c = Classifier::standard();
    let r = c.native_failure("f-2", ErrorKind::Unexpected, "failure still expected", at());
    assert_eq!(c.classify(&r), ErrorKind::Unexpected);
    assert_eq!(c.report(&r), FaultReport::Native(ErrorKind::Unexpected));
}

#[test]
fn foreign_time_limit_is_other_and_a_timeout_fault() {
    let c = Classifier::standard();
    for ty in ["TimeLimitExceeded", "SoftTimeLimitExceeded"] {
        let r = foreign_record(ty, Some("Traceback ...\nTimeLimitExceeded(1)"));
        assert_eq!(c.classify(&r), ErrorKind::Other);
        assert_eq!(c.report(&r), FaultReport::TimeLimit);
        let o: Result<i32, WaitError> = Err(WaitError::Failed { kind: ErrorKind::Other, record: r });
        assert!(outcome_as_expected(&c, ClientTask::TaskWithTimeout, &o));
    }
    let o: Result<i32, WaitError> = Err(WaitError::Timeout);
    assert!(!outcome_as_expected(&c, ClientTask::TaskWithTimeout, &o));
}

#[test]
fn foreign_markers_give_kinds() {
    let c = Classifier::standard();
    let r = foreign_record("Exception", Some("Traceback (most recent call last):\nException: expected"));
    assert_eq!(c.classify(&r), ErrorKind::Other);
    assert_eq!(c.report(&r), FaultReport::Marked(ErrorKind::Expected));
    let r = foreign_record("Exception", Some("Traceback:\nException: unexpected"));
    assert_eq!(c.report(&r), FaultReport::Marked(ErrorKind::Unexpected));
    let r = foreign_record("Exception", Some("Traceback:\nValueError: nope"));
    assert_eq!(c.report(&r), FaultReport::Unrecognized);
    let r = foreign_record("Exception", None);
    assert_eq!(c.report(&r), FaultReport::Unrecognized);
}

#[test]
fn classification_is_repeatable() {
    let c = Classifier::standard();
    let r = foreign_record("Exception", Some("Exception: expected"));
    let first = c.report(&r);
    for _ in 0..5 {
        assert_eq!(c.report(&r), first);
        assert_eq!(c.classify(&r), ErrorKind::Other);
    }
}

#[test]
fn first_marker_wins() {
    let rules = vec![
        MarkerRule { marker: "b".to_string(), kind: ErrorKind::Unexpected },
        MarkerRule { marker: "a".to_string(), kind: ErrorKind::Expected },
    ];
    assert_eq!(find_marker(&rules, "xab"), Some(ErrorKind::Unexpected));
    assert_eq!(find_marker(&rules, "xa"), Some(ErrorKind::Expected));
    assert_eq!(find_marker(&rules, "xyz"), None);
    assert_eq!(find_marker(&vec![], "xyz"), None);
}

#[test]
fn substring_search() {
    assert!(contains_text("hello world", "lo w"));
    assert!(contains_text("abc", ""));
    assert!(contains_text("abc", "abc"));
    assert!(!contains_text("abc", "abcd"));
    assert!(!contains_text("aab", "abb"));
    assert_eq!(blank_run(3), "   ");
    assert_eq!(blank_run(0), "");
}

#[test]
fn message_renders_nested_lists() {
    let m = MessagePart::List(vec![
        MessagePart::Text("a".to_string()),
        MessagePart::List(vec![
            MessagePart::Text("b".to_string()),
            MessagePart::List(vec![MessagePart::Other("{\"k\":1}".to_string())]),
        ]),
    ]);
    assert_eq!(m.render(0), "  a\n    b\n      {\"k\":1}\n");
    assert_eq!(MessagePart::Text("x".to_string()).render(1), " x\n");
    assert_eq!(MessagePart::List(vec![]).render(0), "");
}

#[test]
fn failure_description() {
    let mut r = foreign_record("ValueError", Some("tb1"));
    r.traceback = Some("tb2".to_string());
    r.result.exc_message = MessagePart::List(vec![
        MessagePart::Text("line one".to_string()),
        MessagePart::Text("line two".to_string()),
    ]);
    assert_eq!(
        r.describe(),
        "Celery task failed task_id=t-1 status=FAILURE\nValueError: celery.exceptions\n  line one\n  line two\nexc traceback: tb1\ntraceback: tb2\n"
    );
    r.date_done = Some(Timestamp { secs: 0, nanos: 0 });
    assert_eq!(
        r.describe(),
        "Celery task failed task_id=t-1 status=FAILURE time=1970-01-01 00:00:00\nValueError: celery.exceptions\n  line one\n  line two\nexc traceback: tb1\ntraceback: tb2\n"
    );
    let with_time = r.describe_with_time(&Some("T".to_string()));
    assert!(with_time.starts_with("Celery task failed task_id=t-1 status=FAILURE time=T\n"));
}

#[test]
fn broker_settings() {
    assert_eq!(BrokerChoice::Redis.address_setting(), "REDIS_ADDR");
    assert_eq!(BrokerChoice::Amqp.address_setting(), "AMQP_ADDR");
    assert_eq!(backend_address_setting(), "REDIS_ADDR");
}

#[test]
fn non_success_envelope_is_never_a_result() {
    let c = Classifier::standard();
    let mut e = ResultEnvelope::success_at("x-1", 5i32, at());
    e.status = "FAILURE".to_string();
    assert!(!e.is_success());
    match on_read(&c, &WaitPolicy::default(), Read::Envelope(e)) {
        Step::Done(Err(WaitError::Backend(m))) => assert_eq!(m, "FAILURE"),
        _ => panic!("a failure-status envelope is not a result"),
    }
}

#[test]
fn interpret_picks_shape_by_status() {
    let ok = ResultEnvelope::success_at("s-1", 3i32, at());
    let r = interpret(Fetched::Stored { envelope: Some(ok), failure: None, decode_error: String::new() });
    assert!(matches!(r, Read::Envelope(ref e) if e.result == 3));

    let mut bad = ResultEnvelope::success_at("s-2", 3i32, at());
    bad.status = "FAILURE".to_string();
    let rec = foreign_record("ValueError", None);
    let r = interpret(Fetched::Stored { envelope: Some(bad), failure: Some(rec), decode_error: String::new() });
    assert!(matches!(r, Read::Failure(ref f) if f.result.exc_type == "ValueError"));

    let r: Read<i32> =
        interpret(Fetched::Stored { envelope: None, failure: None, decode_error: "bad json".to_string() });
    assert!(matches!(r, Read::Unavailable(ref m) if m == "bad json"));

    let r: Read<i32> = interpret(Fetched::Missing);
    assert!(matches!(r, Read::Absent));

    let r: Read<i32> = interpret(Fetched::StoreError {
        error: "refused".to_string(),
        failure: Some(foreign_record("KeyError", None)),
    });
    assert!(matches!(r, Read::Failure(ref f) if f.result.exc_type == "KeyError"));

    let r: Read<i32> = interpret(Fetched::StoreError { error: "refused".to_string(), failure: None });
    assert!(matches!(r, Read::Unavailable(ref m) if m == "refused"));
}

#[test]
fn marker_acceptance_ignores_rule_order_and_time_limit() {
    let c = Classifier::standard();
    let r = foreign_record("TimeLimitExceeded", Some("Exception: expected"));
    assert_eq!(c.report(&r), FaultReport::TimeLimit);
    let o: Result<i32, WaitError> = Err(WaitError::Failed { kind: ErrorKind::Other, record: r });
    assert!(outcome_as_expected(&c, ClientTask::ExpectedFailure, &o));

    let r = foreign_record("Exception", Some("Exception: expected\nException: unexpected"));
    assert!(c.is_raised_as(&r, ErrorKind::Unexpected));
    assert!(c.is_raised_as(&r, ErrorKind::Expected));
    let o: Result<i32, WaitError> = Err(WaitError::Failed { kind: ErrorKind::Other, record: r });
    assert!(outcome_as_expected(&c, ClientTask::UnexpectedFailure, &o));

    let r = foreign_record("Exception", Some("no marker here"));
    let o: Result<i32, WaitError> = Err(WaitError::Failed { kind: ErrorKind::Other, record: r });
    assert!(!outcome_as_expected(&c, ClientTask::ExpectedFailure, &o));
    assert!(has_marker_of(&c.markers, "x Exception: unexpected", ErrorKind::Unexpected));
    assert!(!has_marker_of(&c.markers, "x Exception: unexpected", ErrorKind::Expected));
}

#[test]
fn native_failures_stamped_now() {
    let c = Classifier::standard();
    let r = c.native_failure_now("n-1", ErrorKind::Unexpected, "oops");
    assert_eq!(c.classify(&r), ErrorKind::Unexpected);
    assert!(r.date_done.is_some());
    let t = c.time_limit_failure_now("n-2", "too slow");
    assert_eq!(t.result.exc_type, "TimeLimitExceeded");
    assert_eq!(c.classify(&t), ErrorKind::Other);
    assert_eq!(c.report(&t), FaultReport::TimeLimit);
    let o: Result<i32, WaitError> = Err(WaitError::Failed { kind: ErrorKind::Other, record: t });
    assert!(outcome_as_expected(&c, ClientTask::TaskWithTimeout, &o));
}

#[test]
fn renderability_and_depth() {
    let deep = MessagePart::List(vec![MessagePart::List(vec![MessagePart::Text("x".to_string())])]);
    assert!(deep.depth_at_most(2));
    assert!(!deep.depth_at_most(1));
    assert!(MessagePart::Text("y".to_string()).depth_at_most(0));
    let mut r = foreign_record("E", None);
    r.result.exc_message = deep;
    assert!(r.is_renderable());
}

#[test]
fn description_shows_a_representable_time() {
    let mut r = foreign_record("E", None);
    r.date_done = Some(Timestamp { secs: 86_400 + 3_661, nanos: 0 });
    assert!(r.describe().starts_with("Celery task failed task_id=t-1 status=FAILURE time=1970-01-02 01:01:01\n"));
    r.date_done = Some(Timestamp { secs: 0, nanos: 2_000_000_000 });
    assert!(r.describe().starts_with("Celery task failed task_id=t-1 status=FAILURE\n"));
}

use simu_engine::config::ConfigError;
use simu_engine::executor::{
    injector_async_response, injector_launch_transac, spawn_one_transaction, CallOutcome,
    InjectorEntry, NextAction, Notification, ResponseError, RunError,
};
use simu_engine::injector::{job_scenario_exec, Injector, RunNext, RunPosition};
use simu_engine::json::{Json, Member};
use simu_engine::policy::{InjectorDelayConf, InjectorRetryConf};
use simu_engine::status::{EntryError, SimulationStatus};

fn object(members: Vec<(&str, Json)>) -> Json {
    let mut out = Vec::new();
    for (key, value) in members {
        out.push(Member { key: key.to_string(), value });
    }
    Json::Object(out)
}

fn text(s: &str) -> Json {
    Json::Str(s.to_string())
}

fn entry(count: u32, expects: Vec<Json>) -> InjectorEntry {
    InjectorEntry {
        uid: "sdp-req".to_string(),
        target: "iso".to_string(),
        verb: "iso:sdp_req".to_string(),
        queries: vec![object(vec![("action", text("discover"))])],
        expects,
        status: SimulationStatus::Skip,
        retry: InjectorRetryConf { delay: 30, timeout: 1000, count },
        delay: 50,
        sequence: 0,
    }
}

fn three_entries() -> Injector {
    let transactions = Json::Array(vec![
        object(vec![
            ("uid", text("sdp-evse")),
            ("query", object(vec![("action", text("discover"))])),
            ("expect", object(vec![("rcode", text("ok"))])),
            ("retry", object(vec![("count", Json::Int(3)), ("delay", Json::Int(400))])),
        ]),
        object(vec![("uid", text("app-proto")), ("verb", text("iso2:app_proto")), ("delay", Json::Int(2000))]),
        object(vec![("uid", text("session-setup")), ("expect", object(vec![("id", Json::Int(7))]))]),
    ]);
    Injector::new(
        "scenario:0",
        Some("iso15118"),
        "iso2",
        3,
        &transactions,
        InjectorDelayConf { percent: 50, min: 10, max: 1000 },
        InjectorRetryConf { delay: 100, timeout: 1000, count: 1 },
    )
    .unwrap()
}

fn ok_response() -> CallOutcome {
    CallOutcome::Response(vec![object(vec![("rcode", text("ok")), ("extra", Json::Int(1))])])
}

fn failure() -> CallOutcome {
    CallOutcome::TransportFailure("unreachable".to_string())
}

#[test]
fn response_without_expectation_is_done() {
    let transac = entry(1, vec![]);
    assert!(matches!(injector_async_response(&transac, &vec![]), Ok(SimulationStatus::Done)));
    assert!(matches!(
        injector_async_response(&transac, &vec![Json::Int(1)]),
        Ok(SimulationStatus::Done)
    ));
}

#[test]
fn response_is_verified_against_the_expectation() {
    let transac = entry(1, vec![object(vec![("rcode", text("ok"))])]);
    let good = vec![object(vec![("rcode", text("ok")), ("more", Json::Int(3))])];
    assert!(matches!(injector_async_response(&transac, &good), Ok(SimulationStatus::Check)));
    let bad = vec![object(vec![("rcode", text("ko"))])];
    match injector_async_response(&transac, &bad) {
        Ok(SimulationStatus::Fail(EntryError::Mismatch(error))) => {
            assert_eq!(error.describe(), "sdp-req: mismatch at key rcode: expected \"ok\", received \"ko\"");
        }
        _ => panic!("a failed verification was expected"),
    }
}

#[test]
fn empty_expectation_checks_the_entry() {
    let transac = entry(1, vec![object(vec![])]);
    assert!(matches!(
        injector_async_response(&transac, &vec![Json::Int(1)]),
        Ok(SimulationStatus::Check)
    ));
}

#[test]
fn response_without_payload_cannot_be_judged() {
    let transac = entry(1, vec![object(vec![("rcode", text("ok"))])]);
    assert_eq!(injector_async_response(&transac, &vec![]).unwrap_err(), ResponseError::NoPayload);
}

#[test]
fn several_expectations_cannot_be_judged() {
    let transac = entry(1, vec![object(vec![]), object(vec![])]);
    assert_eq!(
        injector_async_response(&transac, &vec![Json::Null]).unwrap_err(),
        ResponseError::MultipleExpect
    );
    assert!(matches!(
        injector_launch_transac(&transac, &CallOutcome::Response(vec![Json::Null])),
        Ok(SimulationStatus::Timeout)
    ));
}

#[test]
fn launch_reports_the_end_of_the_wait() {
    let transac = entry(1, vec![]);
    assert!(matches!(
        injector_launch_transac(&transac, &CallOutcome::TimedOut),
        Ok(SimulationStatus::Timeout)
    ));
    assert_eq!(injector_launch_transac(&transac, &failure()).unwrap_err(), "unreachable");
    assert!(matches!(
        injector_launch_transac(&transac, &CallOutcome::Response(vec![])),
        Ok(SimulationStatus::Done)
    ));
}

fn status_of(record: &Notification) -> String {
    record.status.name()
}

#[test]
fn retry_success_path() {
    let mut transac = entry(3, vec![object(vec![("rcode", text("ok"))])]);
    let mut records = Vec::new();
    let outcomes = vec![failure(), failure(), ok_response()];
    let mut attempt = 1;
    for outcome in &outcomes {
        transac.begin_attempt();
        assert!(matches!(transac.status, SimulationStatus::Pending));
        let step = spawn_one_transaction(&mut transac, attempt, outcome);
        records.push(status_of(&step.notification));
        match step.next {
            NextAction::Retry { delay } => {
                assert_eq!(delay, 30);
                assert!(matches!(transac.status, SimulationStatus::Retry));
                attempt += 1;
            }
            NextAction::Proceed => break,
            NextAction::Abort(_) => panic!("the run must not abort"),
        }
    }
    assert_eq!(attempt, 3);
    assert!(matches!(transac.status, SimulationStatus::Check));
    assert_eq!(records, vec!["Retry", "Retry", "Checked"]);
}

#[test]
fn retries_exhausted_abort_the_run() {
    let mut transac = entry(2, vec![]);
    let first = spawn_one_transaction(&mut transac, 1, &failure());
    assert!(matches!(first.next, NextAction::Retry { delay: 30 }));
    let second = spawn_one_transaction(&mut transac, 2, &failure());
    match second.next {
        NextAction::Abort(RunError::Transport { uid, reason }) => {
            assert_eq!(uid, "sdp-req");
            assert_eq!(reason, "unreachable");
        }
        _ => panic!("an abort was expected"),
    }
    assert!(matches!(transac.status, SimulationStatus::Fail(EntryError::Transport(_))));
    assert_eq!(second.notification.error.unwrap(), "transport failure: unreachable");
}

#[test]
fn single_attempt_failure_aborts_at_once() {
    let mut transac = entry(1, vec![]);
    let step = spawn_one_transaction(&mut transac, 1, &failure());
    assert!(matches!(step.next, NextAction::Abort(RunError::Transport { .. })));
}

#[test]
fn timeout_is_never_retried() {
    let mut transac = entry(3, vec![]);
    let step = spawn_one_transaction(&mut transac, 1, &CallOutcome::TimedOut);
    match step.next {
        NextAction::Abort(RunError::Timeout { uid }) => assert_eq!(uid, "sdp-req"),
        _ => panic!("an abort was expected"),
    }
    assert!(matches!(transac.status, SimulationStatus::Timeout));
    assert_eq!(status_of(&step.notification), "Timeout");
    assert!(step.notification.error.is_none());
}

#[test]
fn failed_verification_does_not_abort() {
    let mut transac = entry(3, vec![object(vec![("rcode", text("ok"))])]);
    let outcome = CallOutcome::Response(vec![object(vec![("rcode", text("ko"))])]);
    let step = spawn_one_transaction(&mut transac, 1, &outcome);
    assert!(matches!(step.next, NextAction::Proceed));
    assert!(matches!(transac.status, SimulationStatus::Fail(EntryError::Mismatch(_))));
    assert_eq!(step.notification.uid, "sdp-req");
    assert_eq!(step.notification.verb, "iso:sdp_req");
    assert_eq!(step.notification.error.unwrap(), "sdp-req: mismatch at key rcode: expected \"ok\", received \"ko\"");
}

#[test]
fn injector_new_builds_entries_in_order() {
    let injector = three_entries();
    assert_eq!(injector.get_uid(), "scenario:0");
    assert_eq!(injector.count(), 3);
    let state = injector.lock_state();
    let first = &state.entries[0];
    assert_eq!(first.uid, "sdp-evse");
    assert_eq!(first.verb, "iso2:sdp_evse_req");
    assert_eq!(first.target, "iso15118");
    assert_eq!(first.queries.len(), 1);
    assert_eq!(first.expects.len(), 1);
    assert_eq!(first.delay, 50);
    assert_eq!((first.retry.delay, first.retry.timeout, first.retry.count), (200, 1000, 3));
    assert!(matches!(first.status, SimulationStatus::Skip));
    let second = &state.entries[1];
    assert_eq!(second.verb, "iso2:app_proto");
    assert_eq!(second.queries.len(), 0);
    assert_eq!(second.expects.len(), 0);
    assert_eq!(second.delay, 1000);
    assert_eq!((second.retry.delay, second.retry.timeout, second.retry.count), (100, 1000, 1));
    assert_eq!(state.entries[2].verb, "iso2:session_setup_req");
}

#[test]
fn injector_new_needs_a_target() {
    let made = Injector::new(
        "s",
        None,
        "p",
        1,
        &Json::Array(vec![]),
        InjectorDelayConf::default(),
        InjectorRetryConf::default(),
    );
    assert!(matches!(made, Err(ConfigError::MissingTarget)));
}

#[test]
fn injector_new_needs_an_array() {
    let made = Injector::new(
        "s",
        Some("t"),
        "p",
        1,
        &object(vec![]),
        InjectorDelayConf::default(),
        InjectorRetryConf::default(),
    );
    match made {
        Err(ConfigError::WrongType(key)) => assert_eq!(key, "transactions"),
        _ => panic!("a wrong type was expected"),
    }
}

#[test]
fn injector_new_reports_the_first_bad_transaction() {
    let transactions = Json::Array(vec![
        object(vec![("uid", text("one"))]),
        object(vec![("verb", text("two"))]),
        object(vec![("uid", Json::Int(3))]),
    ]);
    let made = Injector::new(
        "s",
        Some("t"),
        "p",
        1,
        &transactions,
        InjectorDelayConf::default(),
        InjectorRetryConf::default(),
    );
    match made {
        Err(ConfigError::MissingKey(key)) => assert_eq!(key, "uid"),
        _ => panic!("a missing key was expected"),
    }
}

#[test]
fn watchdog_is_scaled_and_floored() {
    let delay_conf = InjectorDelayConf { percent: 50, min: 10, max: 1000 };
    let small =
        Injector::new("s", Some("t"), "p", 3, &Json::Array(vec![]), delay_conf, InjectorRetryConf::default())
            .unwrap();
    assert_eq!(small.post_scenario().watchdog, 10);
    assert_eq!(small.post_scenario().start_delay, 100);
    let large =
        Injector::new("s", Some("t"), "p", 90, &Json::Array(vec![]), delay_conf, InjectorRetryConf::default())
            .unwrap();
    assert_eq!(large.post_scenario().watchdog, 45);
}

#[test]
fn result_has_one_line_per_entry_and_a_header() {
    let injector = three_entries();
    let lines = injector.get_result();
    assert_eq!(lines.len(), 4);
    assert_eq!(lines[0], "1..3 # scenario:0");
    assert_eq!(lines[1], "fx 0000 - iso2:sdp_evse_req(sdp-evse) # Skip");
    assert_eq!(lines[2], "fx 0001 - iso2:app_proto(app-proto) # Skip");
    assert_eq!(lines[3], "fx 0002 - iso2:session_setup_req(session-setup) # Skip");
}

#[test]
fn result_of_an_empty_scenario_is_its_header() {
    let injector = Injector::new(
        "empty",
        Some("t"),
        "p",
        0,
        &Json::Array(vec![]),
        InjectorDelayConf::default(),
        InjectorRetryConf::default(),
    )
    .unwrap();
    assert_eq!(injector.get_result(), vec!["1..0 # empty".to_string()]);
    assert!(matches!(injector.first_step(), RunNext::Finished));
}

#[test]
fn result_is_idempotent() {
    let mut injector = three_entries();
    let position = RunPosition { index: 0, attempt: 1 };
    job_scenario_exec(&mut injector, position, &ok_response());
    let first = injector.get_result();
    let second = injector.get_result();
    assert_eq!(first, second);
    assert_eq!(injector.kill_scenario(), first);
}

fn run(injector: &mut Injector, outcomes: Vec<CallOutcome>) -> (Vec<String>, RunNext) {
    let mut records = Vec::new();
    let mut next = injector.first_step();
    let mut waits = Vec::new();
    for outcome in &outcomes {
        let position = match &next {
            RunNext::Call { position, wait } => {
                waits.push(*wait);
                *position
            }
            _ => break,
        };
        assert!(position.index < injector.count());
        injector.begin_attempt(position.index);
        let step = job_scenario_exec(injector, position, outcome);
        records.push(format!("{}:{}", step.notification.uid, step.notification.status.name()));
        next = step.next;
    }
    records.push(format!("{:?}", waits));
    (records, next)
}

#[test]
fn full_run_walks_entries_in_order() {
    let mut injector = three_entries();
    let session = CallOutcome::Response(vec![object(vec![("id", Json::Int(7))])]);
    let outcomes = vec![failure(), failure(), ok_response(), CallOutcome::Response(vec![]), session];
    let (records, next) = run(&mut injector, outcomes);
    assert!(matches!(next, RunNext::Finished));
    assert_eq!(
        records,
        vec![
            "sdp-evse:Retry",
            "sdp-evse:Retry",
            "sdp-evse:Checked",
            "app-proto:Done",
            "session-setup:Checked",
            "[50, 200, 200, 1000, 50]",
        ]
    );
    assert_eq!(
        injector.get_result(),
        vec![
            "1..3 # scenario:0",
            "ok 0000 - iso2:sdp_evse_req(sdp-evse) # Checked",
            "ok 0001 - iso2:app_proto(app-proto) # Done",
            "ok 0002 - iso2:session_setup_req(session-setup) # Checked",
        ]
    );
}

#[test]
fn timeout_path_aborts_the_run() {
    let mut injector = three_entries();
    let outcomes = vec![ok_response(), CallOutcome::TimedOut, ok_response()];
    let (records, next) = run(&mut injector, outcomes);
    match next {
        RunNext::Aborted(RunError::Timeout { uid }) => assert_eq!(uid, "app-proto"),
        _ => panic!("an aborted run was expected"),
    }
    assert_eq!(records, vec!["sdp-evse:Checked", "app-proto:Timeout", "[50, 1000]"]);
    assert_eq!(
        injector.get_result(),
        vec![
            "1..3 # scenario:0",
            "ok 0000 - iso2:sdp_evse_req(sdp-evse) # Checked",
            "fx 0001 - iso2:app_proto(app-proto) # Timeout",
            "fx 0002 - iso2:session_setup_req(session-setup) # Skip",
        ]
    );
}

#[test]
fn failed_entry_is_reported_and_the_run_goes_on() {
    let mut injector = three_entries();
    let wrong = CallOutcome::Response(vec![object(vec![("rcode", text("ko"))])]);
    let session = CallOutcome::Response(vec![object(vec![("id", Json::Int(7))])]);
    let (_, next) = run(&mut injector, vec![wrong, CallOutcome::Response(vec![]), session]);
    assert!(matches!(next, RunNext::Finished));
    let lines = injector.get_result();
    assert_eq!(
        lines[1],
        "fx 0000 - iso2:sdp_evse_req(sdp-evse) # Fail sdp-evse: mismatch at key rcode: expected \"ok\", received \"ko\""
    );
    assert_eq!(lines[2], "ok 0001 - iso2:app_proto(app-proto) # Done");
}

#[test]
fn exhausted_retries_are_reported() {
    let mut injector = three_entries();
    let (_, next) = run(&mut injector, vec![failure(), failure(), failure(), ok_response()]);
    assert!(matches!(next, RunNext::Aborted(RunError::Transport { .. })));
    let lines = injector.get_result();
    assert_eq!(
        lines[1],
        "fx 0000 - iso2:sdp_evse_req(sdp-evse) # Fail transport failure: unreachable"
    );
    assert_eq!(lines[2], "fx 0001 - iso2:app_proto(app-proto) # Skip");
}

#[test]
fn report_pads_the_index_to_four_digits() {
    let mut items = Vec::new();
    for i in 0..12 {
        items.push(object(vec![("uid", text(&format!("t{}", i)))]));
    }
    let injector = Injector::new(
        "many",
        Some("t"),
        "p",
        0,
        &Json::Array(items),
        InjectorDelayConf::default(),
        InjectorRetryConf::default(),
    )
    .unwrap();
    let lines = injector.get_result();
    assert_eq!(lines.len(), 13);
    assert_eq!(lines[0], "1..12 # many");
    assert_eq!(lines[12], "fx 0011 - p:t11_req(t11) # Skip");
}

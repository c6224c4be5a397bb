use simu_engine::actions::{
    injector_async_request, job_scenario_cb, scenario_action_cb, ActionPlan, ScenarioAction,
    ScenarioReqCtx,
};
use simu_engine::binding::{
    autostart_index, binding_init, mode_of, pick_autostart, read_autostart, read_config,
    read_simulation, Environment, SimulationMode, Surface,
};
use simu_engine::config::{
    default_bool, default_str, default_u64, get_member, get_str, optional_str, optional_u64,
    ConfigError,
};
use simu_engine::injector::{Injector, RunNext};
use simu_engine::json::{find_member, Json, Member};
use simu_engine::policy::{InjectorDelayConf, InjectorRetryConf};
use simu_engine::register::{
    build_surface, read_injector_head, read_responder_head, register_injector,
    register_responder, responder_reset_cb,
};
use simu_engine::responder::{responder_req_cb, Responder};
use simu_engine::scenario::{build_entry, scale_watchdog, transaction_get_verb};
use simu_engine::status::SimulationStatus;
use simu_engine::text::{
    dashes_to_underscores, decimal_len, push_decimal, push_padded, rank, same_text, Rank,
};
use simu_engine::verbs::{
    create_transaction_group, create_transaction_verb, read_transac, TransactionVerbCtx,
    VerbEntry,
};

fn object(members: Vec<(&str, Json)>) -> Json {
    let mut out = Vec::new();
    for (key, value) in members {
        out.push(Member { key: key.to_string(), value });
    }
    Json::Object(out)
}

fn text(s: &str) -> Json {
    Json::Str(s.to_string())
}

fn transac(uid: &str, verb: Option<&str>, step: i64) -> Json {
    let mut members = vec![("uid", text(uid)), ("query", object(vec![("step", Json::Int(step))]))];
    if let Some(name) = verb {
        members.push(("verb", text(name)));
    }
    members.push(("expect", object(vec![("done", Json::Int(step))])));
    object(members)
}

fn no_env() -> Environment {
    Environment { simulation_mode: None, autorun: None, scenario_uid: None }
}

fn number(n: u64) -> String {
    let mut out = String::new();
    push_decimal(&mut out, n);
    out
}

#[test]
fn decimal_text_of_numbers() {
    assert_eq!(number(0), "0");
    assert_eq!(number(7), "7");
    assert_eq!(number(10), "10");
    assert_eq!(number(9081726354), "9081726354");
    assert_eq!(number(u64::MAX), "18446744073709551615");
    assert_eq!(decimal_len(0), 1);
    assert_eq!(decimal_len(9), 1);
    assert_eq!(decimal_len(10), 2);
    assert_eq!(decimal_len(u64::MAX), 20);
}

#[test]
fn padded_text_of_numbers() {
    let mut out = "n=".to_string();
    push_padded(&mut out, 42, 4);
    assert_eq!(out, "n=0042");
    let mut wide = String::new();
    push_padded(&mut wide, 123456, 4);
    assert_eq!(wide, "123456");
    let mut exact = String::new();
    push_padded(&mut exact, 1234, 4);
    assert_eq!(exact, "1234");
}

#[test]
fn dashes_become_underscores() {
    assert_eq!(dashes_to_underscores("sdp-evse-req"), "sdp_evse_req");
    assert_eq!(dashes_to_underscores("plain"), "plain");
    assert_eq!(dashes_to_underscores(""), "");
    assert_eq!(dashes_to_underscores("é-ü"), "é_ü");
}

#[test]
fn dictionary_order_of_texts() {
    assert_eq!(rank("abc", "abd"), Rank::Before);
    assert_eq!(rank("abd", "abc"), Rank::After);
    assert_eq!(rank("ab", "abc"), Rank::Before);
    assert_eq!(rank("abc", "ab"), Rank::After);
    assert_eq!(rank("abc", "abc"), Rank::Same);
    assert_eq!(rank("", ""), Rank::Same);
    assert_eq!(rank("", "a"), Rank::Before);
    assert_eq!(rank("Z", "a"), Rank::Before);
    assert!(same_text("reset", "reset"));
    assert!(!same_text("reset", "Reset"));
}

#[test]
fn members_are_found_by_their_first_occurrence() {
    let members = vec![
        Member { key: "a".to_string(), value: Json::Int(1) },
        Member { key: "b".to_string(), value: Json::Int(2) },
        Member { key: "a".to_string(), value: Json::Int(3) },
    ];
    assert_eq!(find_member(&members, &"a".to_string()), Some(0));
    assert_eq!(find_member(&members, &"b".to_string()), Some(1));
    assert_eq!(find_member(&members, &"c".to_string()), None);
    let value = Json::Object(members);
    assert!(matches!(get_member(&value, "a"), Some(Json::Int(1))));
    assert!(get_member(&value, "zz").is_none());
    assert!(get_member(&Json::Int(1), "a").is_none());
}

#[test]
fn typed_reads_of_members() {
    let value = object(vec![
        ("n", Json::Int(5)),
        ("s", text("five")),
        ("b", Json::Bool(false)),
        ("neg", Json::Int(-5)),
    ]);
    assert_eq!(optional_u64(&value, "n").unwrap(), Some(5));
    assert_eq!(optional_u64(&value, "none").unwrap(), None);
    assert!(matches!(optional_u64(&value, "s"), Err(ConfigError::WrongType(_))));
    assert!(matches!(optional_u64(&value, "neg"), Err(ConfigError::WrongType(_))));
    assert_eq!(default_u64(&value, "none", 9).unwrap(), 9);
    assert_eq!(default_u64(&value, "n", 9).unwrap(), 5);
    assert_eq!(optional_str(&value, "s").unwrap(), Some("five".to_string()));
    assert_eq!(optional_str(&value, "none").unwrap(), None);
    assert!(matches!(optional_str(&value, "n"), Err(ConfigError::WrongType(_))));
    assert_eq!(get_str(&value, "s").unwrap(), "five");
    match get_str(&value, "none") {
        Err(ConfigError::MissingKey(key)) => assert_eq!(key, "none"),
        _ => panic!("a missing key was expected"),
    }
    assert_eq!(default_str(&value, "none", "dflt").unwrap(), "dflt");
    assert_eq!(default_str(&value, "s", "dflt").unwrap(), "five");
    assert!(!default_bool(&value, "b", true).unwrap());
    assert!(default_bool(&value, "none", true).unwrap());
    assert!(matches!(default_bool(&value, "n", true), Err(ConfigError::WrongType(_))));
}

#[test]
fn verb_defaults_to_the_uid_with_underscores() {
    assert_eq!(transaction_get_verb(&object(vec![("uid", text("sdp-evse"))])).unwrap(), "sdp_evse_req");
    let named = object(vec![("uid", text("sdp-evse")), ("verb", text("discover"))]);
    assert_eq!(transaction_get_verb(&named).unwrap(), "discover");
    assert!(matches!(
        transaction_get_verb(&object(vec![("verb", text("v"))])),
        Err(ConfigError::MissingKey(_))
    ));
}

#[test]
fn entry_is_built_from_a_transaction() {
    let delay_conf = InjectorDelayConf { percent: 50, min: 10, max: 1000 };
    let retry_conf = InjectorRetryConf { delay: 7, timeout: 8, count: 9 };
    let item = object(vec![("uid", text("a-b")), ("delay", Json::Int(400))]);
    let entry = build_entry(&item, "tgt", "pre", &delay_conf, &retry_conf).unwrap();
    assert_eq!(entry.uid, "a-b");
    assert_eq!(entry.verb, "pre:a_b_req");
    assert_eq!(entry.target, "tgt");
    assert_eq!(entry.delay, 200);
    assert_eq!((entry.retry.delay, entry.retry.timeout, entry.retry.count), (7, 8, 9));
    assert_eq!(entry.sequence, 0);
    assert!(matches!(entry.status, SimulationStatus::Skip));
    let bad = object(vec![("uid", text("a")), ("retry", object(vec![("count", Json::Int(0))]))]);
    assert!(matches!(
        build_entry(&bad, "tgt", "pre", &delay_conf, &retry_conf),
        Err(ConfigError::InvalidValue(_))
    ));
}

#[test]
fn watchdog_scaling() {
    let delay_conf = InjectorDelayConf { percent: 200, min: 0, max: 0 };
    assert_eq!(scale_watchdog(30, &delay_conf), 60);
    assert_eq!(scale_watchdog(1, &delay_conf), 10);
    assert_eq!(scale_watchdog(u64::MAX, &delay_conf), u64::MAX);
}

#[test]
fn transactions_are_read_for_the_verb_surface() {
    let read = read_transac(&object(vec![("uid", text("x-y")), ("injector_only", Json::Bool(true))]))
        .unwrap();
    assert_eq!(read.uid, "x-y");
    assert_eq!(read.verb, "x_y_req");
    assert!(read.injector_only);
    assert!(matches!(&read.query, Json::Object(members) if members.is_empty()));
    assert!(matches!(&read.expect, Json::Object(members) if members.is_empty()));
    assert!(matches!(
        read_transac(&object(vec![("uid", text("x")), ("injector_only", Json::Int(1))])),
        Err(ConfigError::WrongType(_))
    ));
}

#[test]
fn transactions_are_grouped_by_verb_in_order() {
    let transactions = Json::Array(vec![
        transac("t1", Some("zeta"), 1),
        transac("t2", Some("alpha"), 2),
        transac("t3", Some("zeta"), 3),
        object(vec![("uid", text("t4")), ("verb", text("hidden")), ("injector_only", Json::Bool(true))]),
        transac("t5", Some("midway"), 5),
        transac("t6", Some("alpha"), 6),
    ]);
    let groups = create_transaction_group(&transactions).unwrap();
    let verbs: Vec<&str> = groups.iter().map(|g| g.verb.as_str()).collect();
    assert_eq!(verbs, vec!["alpha", "midway", "zeta"]);
    let uids: Vec<Vec<&str>> =
        groups.iter().map(|g| g.steps.iter().map(|s| s.uid.as_str()).collect()).collect();
    assert_eq!(uids, vec![vec!["t2", "t6"], vec!["t5"], vec!["t1", "t3"]]);
}

#[test]
fn grouping_needs_readable_transactions() {
    assert!(matches!(
        create_transaction_group(&object(vec![])),
        Err(ConfigError::WrongType(_))
    ));
    let transactions = Json::Array(vec![transac("t1", None, 1), object(vec![("verb", text("v"))])]);
    assert!(matches!(create_transaction_group(&transactions), Err(ConfigError::MissingKey(_))));
    assert!(create_transaction_group(&Json::Array(vec![])).unwrap().is_empty());
}

#[test]
fn responder_verb_answers_from_its_script() {
    let transactions = Json::Array(vec![transac("one", Some("hello"), 1), transac("two", Some("hello"), 2)]);
    let groups = create_transaction_group(&transactions).unwrap();
    let verb = create_transaction_verb(&groups[0], TransactionVerbCtx::Responder, None).unwrap();
    assert_eq!(verb.verb, "hello");
    assert_eq!(verb.infos, vec!["one", "two"]);
    let mut entry = match verb.entry {
        VerbEntry::Responder(entry) => entry,
        _ => panic!("a responder entry was expected"),
    };
    assert_eq!(entry.uid, "hello");
    assert_eq!((entry.sequence, entry.nonce), (0, 0));
    let responder = Responder::new(false);
    let first = responder_req_cb(&mut entry, &responder, &object(vec![("step", Json::Int(1))]));
    assert!(matches!(first, Ok(Some(_))));
    let second = responder_req_cb(&mut entry, &responder, &object(vec![("step", Json::Int(2))]));
    assert!(matches!(second, Ok(Some(_))));
    assert!(responder_req_cb(&mut entry, &responder, &object(vec![("step", Json::Int(1))])).is_err());
}

#[test]
fn injector_verb_needs_a_target() {
    let groups =
        create_transaction_group(&Json::Array(vec![transac("one", Some("hello"), 1)])).unwrap();
    assert!(matches!(
        create_transaction_verb(&groups[0], TransactionVerbCtx::Injector, None),
        Err(ConfigError::MissingTarget)
    ));
    let verb =
        create_transaction_verb(&groups[0], TransactionVerbCtx::Injector, Some("tgt")).unwrap();
    match verb.entry {
        VerbEntry::Injector(entry) => {
            assert_eq!(entry.uid, "hello");
            assert_eq!(entry.verb, "hello");
            assert_eq!(entry.target, "tgt");
            assert_eq!(entry.delay, 0);
            assert_eq!((entry.retry.delay, entry.retry.timeout, entry.retry.count), (100, 1000, 1));
            assert!(matches!(entry.status, SimulationStatus::InvalidSequence));
            assert_eq!(entry.queries.len(), 1);
        }
        _ => panic!("an injector entry was expected"),
    }
}

#[test]
fn surface_has_one_verb_per_script() {
    let transactions = Json::Array(vec![
        transac("b", None, 1),
        transac("a", None, 2),
        transac("b", None, 3),
    ]);
    let verbs = build_surface(&transactions, TransactionVerbCtx::Responder, None).unwrap();
    let names: Vec<&str> = verbs.iter().map(|v| v.verb.as_str()).collect();
    assert_eq!(names, vec!["a_req", "b_req"]);
    assert!(matches!(
        build_surface(&transactions, TransactionVerbCtx::Injector, None),
        Err(ConfigError::MissingTarget)
    ));
    assert!(build_surface(&Json::Array(vec![]), TransactionVerbCtx::Injector, None)
        .unwrap()
        .is_empty());
}

fn scenario(uid: &str, transactions: Vec<Json>) -> Json {
    object(vec![("uid", text(uid)), ("transactions", Json::Array(transactions))])
}

#[test]
fn scenario_heads() {
    let jscenario = object(vec![
        ("uid", text("dc-charge")),
        ("info", text("a run")),
        ("transactions", Json::Array(vec![transac("a", None, 1), transac("b", None, 2)])),
    ]);
    let head = read_injector_head(&jscenario, 3, None).unwrap();
    assert_eq!(head.uid, "dc-charge:3");
    assert_eq!(head.name, "dc-charge:3");
    assert_eq!(head.prefix, "dc-charge:3");
    assert_eq!(head.info, "a run");
    assert_eq!(head.timeout, 2);
    let forced = read_injector_head(&jscenario, 3, Some("forced")).unwrap();
    assert_eq!(forced.uid, "forced");
    let responder = read_responder_head(&jscenario, 12, None).unwrap();
    assert_eq!(responder.uid, "dc-charge:12");
    assert_eq!(responder.info, "");
    match read_injector_head(&object(vec![("uid", text("u"))]), 0, None) {
        Err(ConfigError::MissingKey(key)) => assert_eq!(key, "transactions"),
        _ => panic!("a missing key was expected"),
    }
    let bad = object(vec![("uid", text("u")), ("transactions", Json::Int(1))]);
    assert!(matches!(read_responder_head(&bad, 0, None), Err(ConfigError::WrongType(_))));
}

fn injector_conf() -> Json {
    object(vec![
        ("uid", text("simu")),
        ("target", text("iso15118")),
        ("delay", object(vec![("percent", Json::Int(50)), ("min", Json::Int(10)), ("max", Json::Int(1000))])),
        ("retry", object(vec![("count", Json::Int(2))])),
        ("autorun", Json::Int(2)),
        ("verbosity", Json::Int(3)),
        ("permission", text("acl:simu")),
        (
            "scenarios",
            Json::Array(vec![
                scenario("first", vec![transac("a-1", None, 1)]),
                scenario("second", vec![transac("b-1", None, 1), transac("b-2", None, 2)]),
            ]),
        ),
    ])
}

#[test]
fn injector_binding_is_set_up() {
    let binding = binding_init(&injector_conf(), &no_env()).unwrap();
    assert_eq!(binding.uid, "simu");
    assert_eq!(binding.api, "simu");
    assert_eq!(binding.info, "");
    assert_eq!(binding.config.simulation, SimulationMode::Injector);
    assert!(binding.config.loop_reset);
    assert_eq!(binding.config.target.as_deref(), Some("iso15118"));
    assert_eq!(binding.config.delay_conf.percent, 50);
    assert_eq!(binding.config.retry_conf.count, 2);
    assert_eq!(binding.config.retry_conf.delay, 500);
    assert_eq!(binding.autorun, Some(1));
    assert_eq!(binding.permission.as_deref(), Some("acl:simu"));
    assert_eq!(binding.verbosity, Some(3));
    match binding.surface {
        Surface::Injector(list) => {
            assert_eq!(list.len(), 2);
            assert_eq!(list[0].name, "first:0");
            assert_eq!(list[1].injector.get_uid(), "second:1");
            assert_eq!(list[1].injector.count(), 2);
            assert_eq!(list[1].injector.lock_state().entries[1].verb, "second:1:b_2_req");
            assert_eq!(list[1].injector.post_scenario().watchdog, 10);
            assert_eq!(list[1].verbs.len(), 2);
            assert_eq!(list[1].verbs[0].verb, "b_1_req");
        }
        _ => panic!("an injector surface was expected"),
    }
}

#[test]
fn environment_overrides_the_configuration() {
    let env = Environment {
        simulation_mode: Some("RESPONDER".to_string()),
        autorun: Some("1".to_string()),
        scenario_uid: Some("forced".to_string()),
    };
    let binding = binding_init(&injector_conf(), &env).unwrap();
    assert_eq!(binding.config.simulation, SimulationMode::Responder);
    assert_eq!(binding.autorun, None);
    match binding.surface {
        Surface::Responder(mut api) => {
            assert_eq!(api.reset.verb, "reset");
            assert_eq!(api.reset.info, "scenario sequence counter");
            assert_eq!(api.scenarios.len(), 2);
            assert_eq!(api.scenarios[0].uid, "forced");
            assert_eq!(api.scenarios[1].verbs.len(), 2);
            assert!(api.responder.get_loop());
            responder_reset_cb(&mut api.responder);
            assert_eq!(api.responder.get_nonce(), 1);
        }
        _ => panic!("a responder surface was expected"),
    }
}

#[test]
fn mode_names_count_without_case() {
    assert_eq!(mode_of("injector").unwrap(), SimulationMode::Injector);
    assert_eq!(mode_of("responder").unwrap(), SimulationMode::Responder);
    match mode_of("Injector") {
        Err(ConfigError::InvalidMode(name)) => assert_eq!(name, "Injector"),
        _ => panic!("an invalid mode was expected"),
    }
    let conf = object(vec![("simulation", text("Responder"))]);
    assert_eq!(read_simulation(&conf, None).unwrap(), SimulationMode::Responder);
    assert_eq!(read_simulation(&conf, Some("INJECTOR")).unwrap(), SimulationMode::Injector);
    assert_eq!(read_simulation(&object(vec![]), None).unwrap(), SimulationMode::Injector);
    match read_simulation(&object(vec![]), Some("Neither")) {
        Err(ConfigError::InvalidMode(name)) => assert_eq!(name, "neither"),
        _ => panic!("an invalid mode was expected"),
    }
}

#[test]
fn autostart_is_read_and_checked() {
    let conf = object(vec![("autorun", Json::Int(3))]);
    assert_eq!(read_autostart(&conf, None).unwrap(), 3);
    assert_eq!(read_autostart(&conf, Some("2")).unwrap(), 2);
    assert_eq!(read_autostart(&conf, Some("two")).unwrap(), 0);
    assert_eq!(read_autostart(&conf, Some("-1")).unwrap(), 0);
    assert_eq!(read_autostart(&object(vec![]), None).unwrap(), 0);
    assert_eq!(pick_autostart(&conf, Some(None)).unwrap(), 0);
    assert_eq!(pick_autostart(&conf, Some(Some(8))).unwrap(), 8);
    let huge = object(vec![("autorun", Json::Int(4_294_967_296))]);
    assert!(matches!(read_autostart(&huge, None), Err(ConfigError::InvalidValue(_))));
    assert_eq!(autostart_index(0, 2).unwrap(), None);
    assert_eq!(autostart_index(1, 2).unwrap(), Some(0));
    assert_eq!(autostart_index(2, 2).unwrap(), Some(1));
    match autostart_index(3, 2) {
        Err(ConfigError::InvalidAutostart { asked, scenarios }) => {
            assert_eq!((asked, scenarios), (3, 2));
        }
        _ => panic!("an invalid autostart was expected"),
    }
}

#[test]
fn binding_refuses_a_bad_autostart() {
    let env = Environment { simulation_mode: None, autorun: Some("3".to_string()), scenario_uid: None };
    assert!(matches!(
        binding_init(&injector_conf(), &env),
        Err(ConfigError::InvalidAutostart { asked: 3, scenarios: 2 })
    ));
}

#[test]
fn configuration_errors_are_reported() {
    assert!(matches!(read_config(&object(vec![]), None), Err(ConfigError::MissingKey(_))));
    let no_array = object(vec![("scenarios", Json::Int(1))]);
    assert!(matches!(read_config(&no_array, None), Err(ConfigError::WrongType(_))));
    let no_target = object(vec![("scenarios", Json::Array(vec![]))]);
    let config = read_config(&no_target, None).unwrap();
    assert!(matches!(register_injector(&config, None), Err(ConfigError::MissingTarget)));
    assert!(register_responder(&config, None).unwrap().scenarios.is_empty());
    let bad_mode = object(vec![("simulation", text("both")), ("scenarios", Json::Array(vec![]))]);
    assert!(matches!(read_config(&bad_mode, None), Err(ConfigError::InvalidMode(_))));
    let bad_scenario = object(vec![
        ("target", text("t")),
        ("scenarios", Json::Array(vec![scenario("ok", vec![]), object(vec![("uid", text("u"))])])),
    ]);
    let config = read_config(&bad_scenario, None).unwrap();
    assert!(matches!(register_injector(&config, None), Err(ConfigError::MissingKey(_))));
    assert!(matches!(register_responder(&config, None), Err(ConfigError::MissingKey(_))));
}

fn small_injector() -> Injector {
    Injector::new(
        "s:0",
        Some("t"),
        "p",
        500,
        &Json::Array(vec![transac("a", None, 1)]),
        InjectorDelayConf { percent: 10, min: 50, max: 100 },
        InjectorRetryConf::default(),
    )
    .unwrap()
}

#[test]
fn actions_are_read_from_requests() {
    let read = |name: &str| ScenarioAction::from_jsonc(&object(vec![("action", text(name))]));
    assert_eq!(read("start").unwrap(), ScenarioAction::START);
    assert_eq!(read("stop").unwrap(), ScenarioAction::STOP);
    assert_eq!(read("exec").unwrap(), ScenarioAction::EXEC);
    assert_eq!(read("result").unwrap(), ScenarioAction::RESULT);
    assert!(matches!(read("START"), Err(ConfigError::InvalidValue(_))));
    assert!(matches!(
        ScenarioAction::from_jsonc(&object(vec![])),
        Err(ConfigError::MissingKey(_))
    ));
    assert_eq!(ScenarioAction::default(), ScenarioAction::START);
}

#[test]
fn actions_are_planned() {
    let injector = small_injector();
    let mut ctx = ScenarioReqCtx { uid: "s:0".to_string(), job_id: 0 };
    match scenario_action_cb(&mut ctx, &injector, ScenarioAction::START) {
        ActionPlan::Start(job) => {
            assert_eq!(job.start_delay, 100);
            assert_eq!(job.watchdog, 50);
        }
        _ => panic!("a start was expected"),
    }
    ctx.started(17);
    assert_eq!(ctx.job_id, 17);
    assert_eq!(scenario_action_cb(&mut ctx, &injector, ScenarioAction::RESULT), ActionPlan::Result);
    assert_eq!(scenario_action_cb(&mut ctx, &injector, ScenarioAction::EXEC), ActionPlan::Exec);
    assert_eq!(ctx.job_id, 17);
    assert_eq!(
        scenario_action_cb(&mut ctx, &injector, ScenarioAction::STOP),
        ActionPlan::Stop { job_id: 17 }
    );
    assert_eq!(ctx.job_id, 0);
}

#[test]
fn cancelled_job_does_not_run() {
    let injector = small_injector();
    assert!(matches!(job_scenario_cb(&injector, 9), RunNext::Finished));
    match job_scenario_cb(&injector, 0) {
        RunNext::Call { position, wait } => {
            assert_eq!((position.index, position.attempt), (0, 1));
            assert_eq!(wait, 50);
        }
        _ => panic!("a call was expected"),
    }
}

#[test]
fn call_request_carries_the_entry() {
    let injector = small_injector();
    let request = injector_async_request(&injector.lock_state().entries[0]);
    assert_eq!(request.target, "t");
    assert_eq!(request.verb, "p:a_req");
    assert_eq!(request.timeout, 1000);
    assert_eq!(request.queries.len(), 1);
    assert!(request.queries[0].same_as(&object(vec![("step", Json::Int(1))])));
}

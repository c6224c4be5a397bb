use simu_engine::json::{Json, Member};
use simu_engine::matching::VerifyError;
use simu_engine::responder::{responder_req_cb, Responder, ResponderEntry, ResponderError};

fn object(members: Vec<(&str, Json)>) -> Json {
    let mut out = Vec::new();
    for (key, value) in members {
        out.push(Member { key: key.to_string(), value });
    }
    Json::Object(out)
}

fn two_step_entry() -> ResponderEntry {
    ResponderEntry {
        uid: "hello".to_string(),
        queries: vec![object(vec![("step", Json::Int(1))]), object(vec![("step", Json::Int(2))])],
        expects: vec![object(vec![("reply", Json::Int(10))]), object(vec![])],
        sequence: 0,
        nonce: 0,
    }
}

fn reply_number(answer: Result<Option<Json>, ResponderError>) -> i64 {
    match answer {
        Ok(Some(Json::Object(members))) => match &members[0].value {
            Json::Int(n) => *n,
            _ => panic!("a number was expected"),
        },
        _ => panic!("a reply was expected"),
    }
}

#[test]
fn responder_starts_at_generation_zero() {
    let responder = Responder::new(true);
    assert_eq!(responder.get_nonce(), 0);
    assert!(responder.get_loop());
    assert!(!Responder::new(false).get_loop());
}

#[test]
fn responder_reset_bumps_the_nonce() {
    let mut responder = Responder::new(false);
    responder.reset();
    assert_eq!(responder.get_nonce(), 1);
    responder.reset();
    assert_eq!(responder.get_nonce(), 2);
    assert!(!responder.get_loop());
}

#[test]
fn third_call_without_loop_is_out_of_sequence() {
    let responder = Responder::new(false);
    let mut entry = two_step_entry();
    let first = responder_req_cb(&mut entry, &responder, &object(vec![("step", Json::Int(1))]));
    assert_eq!(reply_number(first), 10);
    assert_eq!(entry.sequence, 1);
    let second = responder_req_cb(&mut entry, &responder, &object(vec![("step", Json::Int(2))]));
    assert!(matches!(second, Ok(None)));
    assert_eq!(entry.sequence, 2);
    let third = responder_req_cb(&mut entry, &responder, &object(vec![("step", Json::Int(1))]));
    match third {
        Err(ResponderError::InvalidSequence { sequence, count }) => {
            assert_eq!(sequence, 2);
            assert_eq!(count, 2);
        }
        _ => panic!("a sequence error was expected"),
    }
    assert_eq!(entry.sequence, 2);
}

#[test]
fn third_call_with_loop_matches_first_query() {
    let responder = Responder::new(true);
    let mut entry = two_step_entry();
    assert!(responder_req_cb(&mut entry, &responder, &object(vec![("step", Json::Int(1))])).is_ok());
    assert!(responder_req_cb(&mut entry, &responder, &object(vec![("step", Json::Int(2))])).is_ok());
    let third = responder_req_cb(&mut entry, &responder, &object(vec![("step", Json::Int(1))]));
    assert_eq!(reply_number(third), 10);
    assert_eq!(entry.sequence, 1);
}

#[test]
fn third_call_with_loop_rejects_second_query() {
    let responder = Responder::new(true);
    let mut entry = two_step_entry();
    assert!(responder_req_cb(&mut entry, &responder, &object(vec![("step", Json::Int(1))])).is_ok());
    assert!(responder_req_cb(&mut entry, &responder, &object(vec![("step", Json::Int(2))])).is_ok());
    let third = responder_req_cb(&mut entry, &responder, &object(vec![("step", Json::Int(2))]));
    assert!(matches!(third, Err(ResponderError::Mismatch(VerifyError::Mismatch { .. }))));
    assert_eq!(entry.sequence, 0);
}

#[test]
fn reset_restarts_the_cursor() {
    let mut responder = Responder::new(false);
    let mut entry = two_step_entry();
    assert!(responder_req_cb(&mut entry, &responder, &object(vec![("step", Json::Int(1))])).is_ok());
    assert_eq!(entry.sequence, 1);
    responder.reset();
    let again = responder_req_cb(&mut entry, &responder, &object(vec![("step", Json::Int(1))]));
    assert_eq!(reply_number(again), 10);
    assert_eq!(entry.sequence, 1);
    assert_eq!(entry.nonce, 1);
}

#[test]
fn reset_revives_an_exhausted_script() {
    let mut responder = Responder::new(false);
    let mut entry = two_step_entry();
    entry.sequence = 2;
    assert!(responder_req_cb(&mut entry, &responder, &object(vec![("step", Json::Int(1))])).is_err());
    responder.reset();
    assert!(responder_req_cb(&mut entry, &responder, &object(vec![("step", Json::Int(1))])).is_ok());
}

#[test]
fn mismatch_does_not_advance_the_cursor() {
    let responder = Responder::new(false);
    let mut entry = two_step_entry();
    let answer = responder_req_cb(&mut entry, &responder, &object(vec![("step", Json::Int(7))]));
    match answer {
        Err(ResponderError::Mismatch(VerifyError::Mismatch { marker, key, .. })) => {
            assert_eq!(marker, "hello");
            assert_eq!(key, "step");
        }
        _ => panic!("a mismatch was expected"),
    }
    assert_eq!(entry.sequence, 0);
}

#[test]
fn extra_members_of_a_call_are_ignored() {
    let responder = Responder::new(false);
    let mut entry = two_step_entry();
    let call = object(vec![("extra", Json::Bool(true)), ("step", Json::Int(1))]);
    assert_eq!(reply_number(responder_req_cb(&mut entry, &responder, &call)), 10);
}

#[test]
fn empty_script_is_always_out_of_sequence() {
    let mut entry = ResponderEntry {
        uid: "none".to_string(),
        queries: vec![],
        expects: vec![],
        sequence: 0,
        nonce: 0,
    };
    for looping in [false, true] {
        let responder = Responder::new(looping);
        assert!(matches!(
            responder_req_cb(&mut entry, &responder, &Json::Null),
            Err(ResponderError::InvalidSequence { sequence: 0, count: 0 })
        ));
    }
}

#[test]
fn nonce_wraps_after_the_largest_generation() {
    let mut responder = Responder::new(false);
    let mut entry = two_step_entry();
    entry.nonce = 5;
    entry.sequence = 1;
    // a stale generation restarts the script
    let answer = responder_req_cb(&mut entry, &responder, &object(vec![("step", Json::Int(1))]));
    assert!(answer.is_ok());
    assert_eq!(entry.nonce, 0);
    responder.reset();
    assert_ne!(responder.get_nonce(), entry.nonce);
}

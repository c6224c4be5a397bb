use simu_engine::json::{Json, Member};
use simu_engine::matching::{check, Verdict, VerifyError};

fn text(s: &str) -> String {
    s.to_string()
}

fn object(members: Vec<(&str, Json)>) -> Json {
    let mut out = Vec::new();
    for (key, value) in members {
        out.push(Member { key: text(key), value });
    }
    Json::Object(out)
}

#[test]
fn partial_match_ignores_extra_key() {
    let expected = object(vec![("a", Json::Int(1)), ("b", object(vec![("c", Json::Int(2))]))]);
    let received = object(vec![
        ("a", Json::Int(1)),
        ("b", object(vec![("c", Json::Int(2))])),
        ("d", Json::Int(9)),
    ]);
    assert!(matches!(check(&text("step"), &received, &expected), Verdict::Check));
}

#[test]
fn partial_match_names_nested_key() {
    let expected = object(vec![("a", Json::Int(1)), ("b", object(vec![("c", Json::Int(2))]))]);
    let received = object(vec![("a", Json::Int(1)), ("b", object(vec![("c", Json::Int(3))]))]);
    match check(&text("step"), &received, &expected) {
        Verdict::Fail(VerifyError::Mismatch { marker, key, expected, received }) => {
            assert_eq!(marker, "step");
            assert_eq!(key, "b.c");
            assert!(matches!(expected, Json::Int(2)));
            assert!(matches!(received, Json::Int(3)));
        }
        _ => panic!("a mismatch at b.c was expected"),
    }
}

#[test]
fn empty_expectation_is_ignored() {
    let expected = object(vec![]);
    let received = object(vec![("a", Json::Int(1))]);
    assert!(matches!(check(&text("step"), &received, &expected), Verdict::Ignored));
    assert!(matches!(check(&text("step"), &Json::Null, &expected), Verdict::Ignored));
    assert!(matches!(check(&text("step"), &Json::Int(4), &expected), Verdict::Ignored));
}

#[test]
fn missing_key_is_named() {
    let expected = object(vec![("a", Json::Int(1)), ("z", Json::Bool(true))]);
    let received = object(vec![("a", Json::Int(1))]);
    match check(&text("m1"), &received, &expected) {
        Verdict::Fail(VerifyError::MissingKey { marker, key }) => {
            assert_eq!(marker, "m1");
            assert_eq!(key, "z");
        }
        _ => panic!("a missing key was expected"),
    }
}

#[test]
fn missing_nested_key_is_named_with_its_path() {
    let expected = object(vec![("b", object(vec![("c", Json::Int(2))]))]);
    let received = object(vec![("b", object(vec![("x", Json::Int(2))]))]);
    match check(&text("m1"), &received, &expected) {
        Verdict::Fail(VerifyError::MissingKey { key, .. }) => assert_eq!(key, "b.c"),
        _ => panic!("a missing key was expected"),
    }
}

#[test]
fn first_failure_in_expected_order_is_reported() {
    let expected = object(vec![("a", Json::Int(1)), ("b", Json::Int(2))]);
    let received = object(vec![("b", Json::Int(0)), ("a", Json::Int(0))]);
    match check(&text("m"), &received, &expected) {
        Verdict::Fail(VerifyError::Mismatch { key, .. }) => assert_eq!(key, "a"),
        _ => panic!("a mismatch was expected"),
    }
}

#[test]
fn key_order_does_not_count() {
    let expected = object(vec![("a", Json::Int(1)), ("b", Json::Str(text("x")))]);
    let received = object(vec![("b", Json::Str(text("x"))), ("a", Json::Int(1))]);
    assert!(matches!(check(&text("m"), &received, &expected), Verdict::Check));
}

#[test]
fn object_against_scalar_is_a_mismatch() {
    let expected = object(vec![("b", object(vec![]))]);
    let received = object(vec![("b", Json::Int(5))]);
    assert!(matches!(
        check(&text("m"), &received, &expected),
        Verdict::Fail(VerifyError::Mismatch { .. })
    ));
}

#[test]
fn received_scalar_misses_every_key() {
    let expected = object(vec![("a", Json::Int(1))]);
    assert!(matches!(
        check(&text("m"), &Json::Int(1), &expected),
        Verdict::Fail(VerifyError::MissingKey { .. })
    ));
}

#[test]
fn scalars_are_compared_by_value() {
    assert!(matches!(check(&text("m"), &Json::Int(3), &Json::Int(3)), Verdict::Check));
    match check(&text("m"), &Json::Int(4), &Json::Int(3)) {
        Verdict::Fail(VerifyError::Mismatch { key, .. }) => assert_eq!(key, ""),
        _ => panic!("a mismatch was expected"),
    }
}

#[test]
fn arrays_of_objects_compare_without_member_order() {
    let one = Json::Array(vec![object(vec![("a", Json::Int(1)), ("b", Json::Int(2))])]);
    let two = Json::Array(vec![object(vec![("b", Json::Int(2)), ("a", Json::Int(1))])]);
    let three = Json::Array(vec![object(vec![("b", Json::Int(2))])]);
    assert!(one.same_as(&two));
    assert!(two.same_as(&one));
    assert!(!one.same_as(&three));
    assert!(!three.same_as(&one));
    let expected = object(vec![("list", one)]);
    let received = object(vec![("list", two)]);
    assert!(matches!(check(&text("m"), &received, &expected), Verdict::Check));
}

#[test]
fn arrays_compare_in_order() {
    let one = Json::Array(vec![Json::Int(1), Json::Int(2)]);
    let two = Json::Array(vec![Json::Int(2), Json::Int(1)]);
    let short = Json::Array(vec![Json::Int(1)]);
    assert!(!one.same_as(&two));
    assert!(!one.same_as(&short));
    assert!(one.same_as(&one.clone()));
}

#[test]
fn values_are_rendered_as_text() {
    let value = object(vec![
        ("n", Json::Int(-5)),
        ("list", Json::Array(vec![Json::Null, Json::Bool(true), Json::Bool(false), Json::Int(0)])),
        ("s", Json::Str(text("hi"))),
        ("o", object(vec![])),
        ("e", Json::Array(vec![])),
    ]);
    assert_eq!(
        value.render(),
        "{\"n\":-5,\"list\":[null,true,false,0],\"s\":\"hi\",\"o\":{},\"e\":[]}"
    );
    assert_eq!(Json::Int(i64::MIN).render(), "-9223372036854775808");
    assert_eq!(Json::Int(i64::MAX).render(), "9223372036854775807");
    let mut out = text("v=");
    Json::Array(vec![Json::Int(1), Json::Int(22)]).push_rendered(&mut out);
    assert_eq!(out, "v=[1,22]");
}

#[test]
fn failures_are_described() {
    let expected = object(vec![("a", Json::Int(1)), ("b", object(vec![("c", Json::Int(2))]))]);
    let received = object(vec![("a", Json::Int(1)), ("b", object(vec![("c", Json::Int(3))]))]);
    match check(&text("step"), &received, &expected) {
        Verdict::Fail(error) => {
            assert_eq!(error.describe(), "step: mismatch at key b.c: expected 2, received 3");
            assert_eq!(error.clone().describe(), error.describe());
        }
        _ => panic!("a failure was expected"),
    }
    let missing = object(vec![("a", Json::Int(1))]);
    match check(&text("step"), &missing, &expected) {
        Verdict::Fail(error) => assert_eq!(error.describe(), "step: missing key b"),
        _ => panic!("a failure was expected"),
    }
}

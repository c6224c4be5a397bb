use crate::json::{
    find_member, first_index, first_index_from, has_key, lemma_first_index_from,
    lemma_object_view, member_views, same_value, Json, JsonValue, Member, MemberValue,
};
use vstd::prelude::*;

verus! {

/// Why a received value does not satisfy an expected one.
#[derive(Debug)]
pub enum VerifyError {
    /// The expected key is absent from the received object.
    MissingKey { marker: String, key: String },
    /// The value received under the key differs from the expected one.
    Mismatch { marker: String, key: String, expected: Json, received: Json },
}

/// Mathematical model of a `VerifyError`.
pub ghost enum Failure {
    MissingKey { marker: Seq<char>, key: Seq<char> },
    Mismatch { marker: Seq<char>, key: Seq<char>, expected: JsonValue, received: JsonValue },
}

impl View for VerifyError {
    type V = Failure;

    open spec fn view(&self) -> Failure {
        match self {
            VerifyError::MissingKey { marker, key } => Failure::MissingKey {
                marker: marker@,
                key: key@,
            },
            VerifyError::Mismatch { marker, key, expected, received } => Failure::Mismatch {
                marker: marker@,
                key: key@,
                expected: expected@,
                received: received@,
            },
        }
    }
}

/// Outcome of verifying a received value against an expected one.
#[derive(Debug)]
pub enum Verdict {
    /// Every expected key was found with the expected value.
    Check,
    /// Nothing was expected.
    Ignored,
    /// The first expectation that was not met.
    Fail(VerifyError),
}

/// Mathematical model of a `Verdict`.
pub ghost enum VerdictValue {
    Check,
    Ignored,
    Fail(Failure),
}

impl View for Verdict {
    type V = VerdictValue;

    open spec fn view(&self) -> VerdictValue {
        match self {
            Verdict::Check => VerdictValue::Check,
            Verdict::Ignored => VerdictValue::Ignored,
            Verdict::Fail(error) => VerdictValue::Fail(error@),
        }
    }
}

/// The name of a key below `prefix`: the key itself at the top, otherwise
/// the prefix, a dot and the key.
pub open spec fn dotted(prefix: Seq<char>, key: Seq<char>) -> Seq<char> {
    if prefix.len() == 0 {
        key
    } else {
        prefix + seq!['.'] + key
    }
}

/// Whether `received` satisfies `expected` as a partial match.
///
/// Where both are objects, every member of `expected` must be found in
/// `received` under the same key with a value that satisfies it in turn;
/// members of `received` that `expected` does not name are not looked at.
/// Otherwise the two must be the same value.
pub open spec fn field_matches(received: JsonValue, expected: JsonValue) -> bool
    decreases expected,
{
    if expected is Object && received is Object {
        let es = expected->Object_0;
        let rs = received->Object_0;
        forall|i: int|
            0 <= i < es.len() ==> {
                &&& has_key(rs, (#[trigger] es[i]).key)
                &&& field_matches(rs[first_index(rs, es[i].key)].value, es[i].value)
            }
    } else {
        same_value(received, expected)
    }
}

/// Whether every member of `es` is found in `rs` with a satisfying value.
pub open spec fn members_match(rs: Seq<MemberValue>, es: Seq<MemberValue>) -> bool {
    forall|i: int|
        0 <= i < es.len() ==> {
            &&& has_key(rs, (#[trigger] es[i]).key)
            &&& field_matches(rs[first_index(rs, es[i].key)].value, es[i].value)
        }
}

/// The failure, if any, that the expected member `e` meets in `rs`.
pub open spec fn member_failure(
    marker: Seq<char>,
    prefix: Seq<char>,
    rs: Seq<MemberValue>,
    e: MemberValue,
) -> Option<Failure>
    decreases e, 0nat,
{
    let path = dotted(prefix, e.key);
    if !has_key(rs, e.key) {
        Some(Failure::MissingKey { marker, key: path })
    } else {
        let r = rs[first_index(rs, e.key)].value;
        if e.value is Object && r is Object {
            first_failure_from(marker, path, r->Object_0, e.value->Object_0, 0)
        } else if same_value(r, e.value) {
            None
        } else {
            Some(Failure::Mismatch { marker, key: path, expected: e.value, received: r })
        }
    }
}

/// The failure of the first member of `es`, at or after `from`, that `rs`
/// does not satisfy; `None` when all of them are satisfied.
pub open spec fn first_failure_from(
    marker: Seq<char>,
    prefix: Seq<char>,
    rs: Seq<MemberValue>,
    es: Seq<MemberValue>,
    from: int,
) -> Option<Failure>
    decreases es, es.len() - from,
{
    if from < 0 || from >= es.len() {
        None
    } else {
        let here = member_failure(marker, prefix, rs, es[from]);
        if here is Some {
            here
        } else {
            first_failure_from(marker, prefix, rs, es, from + 1)
        }
    }
}

/// The verdict on `received` against `expected`.
///
/// An expected object without members asks for nothing. An expected object
/// with members is searched for in the members of `received` (none, when
/// `received` is no object). Any other expected value must be the same
/// value as `received`.
pub open spec fn verdict_of(marker: Seq<char>, received: JsonValue, expected: JsonValue)
    -> VerdictValue {
    if expected is Object {
        if expected->Object_0.len() == 0 {
            VerdictValue::Ignored
        } else {
            let rs = if received is Object {
                received->Object_0
            } else {
                Seq::empty()
            };
            match first_failure_from(marker, Seq::empty(), rs, expected->Object_0, 0) {
                None => VerdictValue::Check,
                Some(failure) => VerdictValue::Fail(failure),
            }
        }
    } else if same_value(received, expected) {
        VerdictValue::Check
    } else {
        VerdictValue::Fail(
            Failure::Mismatch { marker, key: Seq::empty(), expected, received },
        )
    }
}

/// No failure is found from `from` on exactly when every expected member
/// from there on is found in `rs` with a satisfying value.
pub proof fn lemma_first_failure_from(
    marker: Seq<char>,
    prefix: Seq<char>,
    rs: Seq<MemberValue>,
    es: Seq<MemberValue>,
    from: int,
)
    requires
        0 <= from <= es.len(),
    ensures
        first_failure_from(marker, prefix, rs, es, from) is None <==> forall|i: int|
            from <= i < es.len() ==> {
                &&& has_key(rs, (#[trigger] es[i]).key)
                &&& field_matches(rs[first_index(rs, es[i].key)].value, es[i].value)
            },
    decreases es, es.len() - from,
{
    if from < es.len() {
        let e = es[from];
        let here = member_failure(marker, prefix, rs, e);
        let met = has_key(rs, e.key) && field_matches(
            rs[first_index(rs, e.key)].value,
            e.value,
        );
        assert(here is None <==> met) by {
            if has_key(rs, e.key) {
                let r = rs[first_index(rs, e.key)].value;
                if e.value is Object && r is Object {
                    lemma_first_failure_from(
                        marker,
                        dotted(prefix, e.key),
                        r->Object_0,
                        e.value->Object_0,
                        0,
                    );
                }
            }
        }
        lemma_first_failure_from(marker, prefix, rs, es, from + 1);
        let rest = first_failure_from(marker, prefix, rs, es, from + 1);
        assert(first_failure_from(marker, prefix, rs, es, from) is None <==> (here is None
            && rest is None));
        if here is None && rest is None {
            assert forall|i: int| from <= i < es.len() implies {
                &&& has_key(rs, (#[trigger] es[i]).key)
                &&& field_matches(rs[first_index(rs, es[i].key)].value, es[i].value)
            } by {
                if i == from {
                    assert(met);
                } else {
                    assert(from + 1 <= i);
                }
            }
        } else if here is Some {
            assert(!met);
            assert(es[from] == e);
        } else {
            let i = choose|i: int|
                from + 1 <= i < es.len() && !{
                    &&& has_key(rs, (#[trigger] es[i]).key)
                    &&& field_matches(rs[first_index(rs, es[i].key)].value, es[i].value)
                };
            assert(from <= i < es.len());
        }
    }
}

/// A partial match succeeds exactly when no failure is found: the verdict
/// on two objects is a failure if and only if some expected member is
/// missing from the received object or holds a value that does not satisfy
/// the expected one.
pub proof fn lemma_verdict_of_objects(
    marker: Seq<char>,
    rs: Seq<MemberValue>,
    es: Seq<MemberValue>,
)
    ensures
        es.len() == 0 ==> verdict_of(marker, JsonValue::Object(rs), JsonValue::Object(es))
            == VerdictValue::Ignored,
        es.len() > 0 && members_match(rs, es) ==> verdict_of(
            marker,
            JsonValue::Object(rs),
            JsonValue::Object(es),
        ) == VerdictValue::Check,
        es.len() > 0 && !members_match(rs, es) ==> verdict_of(
            marker,
            JsonValue::Object(rs),
            JsonValue::Object(es),
        ) is Fail,
{
    lemma_first_failure_from(marker, Seq::empty(), rs, es, 0);
}

/// The model of an optional error.
pub open spec fn failure_view(found: Option<VerifyError>) -> Option<Failure> {
    match found {
        None => None,
        Some(error) => Some(error@),
    }
}

/// The name of `key` below `prefix`.
fn join_key(prefix: &String, key: &String) -> (path: String)
    ensures
        path@ == dotted(prefix@, key@),
{
    if prefix.as_str().is_empty() {
        key.clone()
    } else {
        let mut path = prefix.clone();
        proof {
            reveal_strlit(".");
        }
        path.append(".");
        path.append(key.as_str());
        assert("."@ =~= seq!['.']);
        path
    }
}

/// The failure of the first member of `es` that `rs` does not satisfy.
#[verifier::loop_isolation(false)]
fn first_failure(marker: &String, prefix: &String, rs: &Vec<Member>, es: &Vec<Member>) -> (found:
    Option<VerifyError>)
    ensures
        failure_view(found) == first_failure_from(
            marker@,
            prefix@,
            member_views(rs@),
            member_views(es@),
            0,
        ),
    decreases es,
{
    let ghost rv = member_views(rs@);
    let ghost ev = member_views(es@);
    let mut i: usize = 0;
    while i < es.len()
        invariant
            i <= es.len(),
            first_failure_from(marker@, prefix@, rv, ev, 0) == first_failure_from(
                marker@,
                prefix@,
                rv,
                ev,
                i as int,
            ),
        decreases es.len() - i,
    {
        let expected = &es[i];
        let path = join_key(prefix, &expected.key);
        assert(ev[i as int] == expected@);
        let here: Option<VerifyError> = match find_member(rs, &expected.key) {
            None => Some(VerifyError::MissingKey { marker: marker.clone(), key: path }),
            Some(j) => {
                let received = &rs[j];
                assert(rv[j as int] == received@);
                match (&expected.value, &received.value) {
                    (Json::Object(sub_es), Json::Object(sub_rs)) => {
                        proof {
                            lemma_object_view(*sub_es);
                            lemma_object_view(*sub_rs);
                        }
                        assert(decreases_to!(*es => es@[i as int]));
                        first_failure(marker, &path, sub_rs, sub_es)
                    },
                    _ => {
                        if received.value.same_as(&expected.value) {
                            None
                        } else {
                            Some(
                                VerifyError::Mismatch {
                                    marker: marker.clone(),
                                    key: path,
                                    expected: expected.value.clone(),
                                    received: received.value.clone(),
                                },
                            )
                        }
                    },
                }
            },
        };
        assert(failure_view(here) == member_failure(marker@, prefix@, rv, ev[i as int]));
        if here.is_some() {
            return here;
        }
        i += 1;
    }
    None
}

/// Verifies `received` against `expected` as a partial match.
///
/// `marker` names the place in the scenario and is carried into the error.
pub fn check(marker: &String, received: &Json, expected: &Json) -> (verdict: Verdict)
    ensures
        verdict@ == verdict_of(marker@, received@, expected@),
{
    match expected {
        Json::Object(es) => {
            proof {
                lemma_object_view(*es);
            }
            if es.len() == 0 {
                return Verdict::Ignored;
            }
            let found = match received {
                Json::Object(rs) => {
                    proof {
                        lemma_object_view(*rs);
                    }
                    first_failure(marker, &String::new(), rs, es)
                },
                _ => {
                    let none: Vec<Member> = Vec::new();
                    assert(member_views(none@) =~= Seq::<MemberValue>::empty());
                    first_failure(marker, &String::new(), &none, es)
                },
            };
            match found {
                None => Verdict::Check,
                Some(error) => Verdict::Fail(error),
            }
        },
        _ => {
            if received.same_as(expected) {
                Verdict::Check
            } else {
                Verdict::Fail(
                    VerifyError::Mismatch {
                        marker: marker.clone(),
                        key: String::new(),
                        expected: expected.clone(),
                        received: received.clone(),
                    },
                )
            }
        },
    }
}

/// An expectation without members is met by whatever is received.
pub proof fn lemma_empty_expectation(marker: Seq<char>, received: JsonValue)
    ensures
        verdict_of(marker, received, JsonValue::Object(Seq::empty())) == VerdictValue::Ignored,
{
}

/// A member added at the end of an object does not change what is found
/// under any other key.
pub proof fn lemma_lookup_ignores_other_key(
    rs: Seq<MemberValue>,
    extra: MemberValue,
    key: Seq<char>,
    from: int,
)
    requires
        extra.key != key,
        0 <= from <= rs.len(),
    ensures
        first_index_from(rs, key, from) < rs.len() ==> first_index_from(rs.push(extra), key, from)
            == first_index_from(rs, key, from),
        first_index_from(rs, key, from) >= rs.len() ==> first_index_from(
            rs.push(extra),
            key,
            from,
        ) >= rs.push(extra).len(),
    decreases rs.len() - from,
{
    let more = rs.push(extra);
    if from < rs.len() {
        assert(more[from] == rs[from]);
        if rs[from].key != key {
            lemma_lookup_ignores_other_key(rs, extra, key, from + 1);
        }
    } else {
        assert(more[from] == extra);
        assert(first_index_from(more, key, from + 1) == more.len());
    }
}

/// A received member that the expectation does not name is not looked at:
/// adding it changes no failure.
pub proof fn lemma_extra_member_changes_no_failure(
    marker: Seq<char>,
    prefix: Seq<char>,
    rs: Seq<MemberValue>,
    extra: MemberValue,
    es: Seq<MemberValue>,
    from: int,
)
    requires
        0 <= from <= es.len(),
        forall|i: int| 0 <= i < es.len() ==> (#[trigger] es[i]).key != extra.key,
    ensures
        first_failure_from(marker, prefix, rs.push(extra), es, from) == first_failure_from(
            marker,
            prefix,
            rs,
            es,
            from,
        ),
    decreases es.len() - from,
{
    if from < es.len() {
        let e = es[from];
        lemma_lookup_ignores_other_key(rs, extra, e.key, 0);
        lemma_first_index_from(rs, e.key, 0);
        if has_key(rs, e.key) {
            assert(rs.push(extra)[first_index(rs, e.key)] == rs[first_index(rs, e.key)]);
        }
        assert(member_failure(marker, prefix, rs.push(extra), e) == member_failure(
            marker,
            prefix,
            rs,
            e,
        ));
        lemma_extra_member_changes_no_failure(marker, prefix, rs, extra, es, from + 1);
    }
}

/// The verdict on a received object does not change when the object gains
/// a member that the expected object does not name.
pub proof fn lemma_extra_member_ignored(
    marker: Seq<char>,
    rs: Seq<MemberValue>,
    extra: MemberValue,
    es: Seq<MemberValue>,
)
    requires
        forall|i: int| 0 <= i < es.len() ==> (#[trigger] es[i]).key != extra.key,
    ensures
        verdict_of(marker, JsonValue::Object(rs.push(extra)), JsonValue::Object(es)) == verdict_of(
            marker,
            JsonValue::Object(rs),
            JsonValue::Object(es),
        ),
{
    lemma_extra_member_changes_no_failure(marker, Seq::empty(), rs, extra, es, 0);
}

} // verus!

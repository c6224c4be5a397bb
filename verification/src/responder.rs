use crate::json::{item_views, lemma_array_view, lemma_object_view, Json, JsonValue};
use crate::matching::{check, verdict_of, Failure, Verdict, VerdictValue, VerifyError};
use vstd::prelude::*;

verus! {

/// The session shared by every verb of a responder: a generation counter
/// that a reset bumps, and whether an exhausted script starts over.
#[derive(Debug)]
pub struct Responder {
    nonce: u32,
    loop_reset: bool,
}

/// The counter after `nonce`; the largest counter is followed by zero.
pub open spec fn next_nonce(nonce: u32) -> u32 {
    if nonce == u32::MAX {
        0
    } else {
        (nonce + 1) as u32
    }
}

impl Responder {
    /// The session's generation counter.
    pub closed spec fn nonce(&self) -> u32 {
        self.nonce
    }

    /// Whether an exhausted script starts over.
    pub closed spec fn looping(&self) -> bool {
        self.loop_reset
    }

    /// A fresh session, at generation zero.
    pub fn new(loop_reset: bool) -> (responder: Self)
        ensures
            responder.nonce() == 0,
            responder.looping() == loop_reset,
    {
        Responder { nonce: 0, loop_reset }
    }

    /// Starts a new session: the generation changes, so that every verb
    /// starts its script over at its next call.
    pub fn reset(&mut self)
        ensures
            final(self).nonce() == next_nonce(old(self).nonce()),
            final(self).nonce() != old(self).nonce(),
            final(self).looping() == old(self).looping(),
    {
        self.nonce = self.nonce.wrapping_add(1);
    }

    /// The session's generation counter.
    pub fn get_nonce(&self) -> (nonce: u32)
        ensures
            nonce == self.nonce(),
    {
        self.nonce
    }

    /// Whether an exhausted script starts over.
    pub fn get_loop(&self) -> (looping: bool)
        ensures
            looping == self.looping(),
    {
        self.loop_reset
    }
}

/// The script of one verb: the queries it accepts, in order, with the
/// reply to each, and how far the current session has come.
#[derive(Debug)]
pub struct ResponderEntry {
    pub uid: String,
    pub queries: Vec<Json>,
    pub expects: Vec<Json>,
    /// The cursor: the index of the query that the next call must match.
    pub sequence: usize,
    /// The generation of the session that the cursor belongs to.
    pub nonce: u32,
}

/// Why a call was refused.
#[derive(Debug)]
pub enum ResponderError {
    /// The script is exhausted: the call found the cursor at `sequence`
    /// with `count` queries scripted.
    InvalidSequence { sequence: usize, count: usize },
    /// The call's payload does not match the scripted query.
    Mismatch(VerifyError),
}

/// Mathematical model of a `ResponderError`.
pub ghost enum ResponderFailure {
    InvalidSequence { sequence: int, count: int },
    Mismatch(Failure),
}

impl View for ResponderError {
    type V = ResponderFailure;

    open spec fn view(&self) -> ResponderFailure {
        match self {
            ResponderError::InvalidSequence { sequence, count } => {
                ResponderFailure::InvalidSequence {
                    sequence: *sequence as int,
                    count: *count as int,
                }
            },
            ResponderError::Mismatch(error) => ResponderFailure::Mismatch(error@),
        }
    }
}

/// Whether a payload says nothing: null, or an object or array without
/// content.
pub open spec fn payload_is_empty(payload: JsonValue) -> bool {
    match payload {
        JsonValue::Null => true,
        JsonValue::Array(items) => items.len() == 0,
        JsonValue::Object(members) => members.len() == 0,
        _ => false,
    }
}

/// The cursor that a call works with.
///
/// A cursor of an older session counts as zero. A cursor that stands
/// exactly at the end of the script goes back to zero when the session
/// loops.
pub open spec fn effective_cursor(
    sequence: int,
    cached: u32,
    nonce: u32,
    looping: bool,
    count: int,
) -> int {
    let synced = if cached != nonce {
        0
    } else {
        sequence
    };
    if synced == count && looping {
        0
    } else {
        synced
    }
}

/// The reply scripted at `cursor`: the expected payload there, or nothing
/// where none is scripted or the scripted one is empty.
pub open spec fn scripted_reply(expects: Seq<JsonValue>, cursor: int) -> Option<JsonValue> {
    if 0 <= cursor < expects.len() && !payload_is_empty(expects[cursor]) {
        Some(expects[cursor])
    } else {
        None
    }
}

/// What a call with payload `received` is answered, for a script of
/// `queries` and `expects` with the working cursor at `cursor`.
///
/// Past the end of the script the call is out of sequence. Otherwise the
/// payload is verified against the query at the cursor as a partial match,
/// and the scripted reply is given unless the verification fails.
pub open spec fn call_result(
    uid: Seq<char>,
    queries: Seq<JsonValue>,
    expects: Seq<JsonValue>,
    cursor: int,
    received: JsonValue,
) -> Result<Option<JsonValue>, ResponderFailure> {
    if cursor < 0 || cursor >= queries.len() {
        Err(ResponderFailure::InvalidSequence { sequence: cursor, count: queries.len() as int })
    } else {
        match verdict_of(uid, received, queries[cursor]) {
            VerdictValue::Fail(failure) => Err(ResponderFailure::Mismatch(failure)),
            _ => Ok(scripted_reply(expects, cursor)),
        }
    }
}

/// The model of an answer.
pub open spec fn answer_view(answer: Result<Option<Json>, ResponderError>) -> Result<
    Option<JsonValue>,
    ResponderFailure,
> {
    match answer {
        Ok(Some(reply)) => Ok(Some(reply@)),
        Ok(None) => Ok(None),
        Err(error) => Err(error@),
    }
}

impl ResponderEntry {
    /// The working cursor of a call in the session of `responder`.
    pub open spec fn cursor_for(&self, responder: &Responder) -> int {
        effective_cursor(
            self.sequence as int,
            self.nonce,
            responder.nonce(),
            responder.looping(),
            self.queries@.len() as int,
        )
    }

    /// What a call with payload `received` is answered in the session of
    /// `responder`.
    pub open spec fn answer_for(&self, responder: &Responder, received: &Json) -> Result<
        Option<JsonValue>,
        ResponderFailure,
    > {
        call_result(
            self.uid@,
            item_views(self.queries@),
            item_views(self.expects@),
            self.cursor_for(responder),
            received@,
        )
    }
}

/// Whether a payload says nothing.
fn is_empty_payload(payload: &Json) -> (empty: bool)
    ensures
        empty == payload_is_empty(payload@),
{
    match payload {
        Json::Null => true,
        Json::Array(items) => {
            proof {
                lemma_array_view(*items);
            }
            items.len() == 0
        },
        Json::Object(members) => {
            proof {
                lemma_object_view(*members);
            }
            members.len() == 0
        },
        _ => false,
    }
}

/// Answers one incoming call on the verb of `transac`.
///
/// The entry adopts the session of `responder`. A call that is answered
/// moves the cursor one past the query it matched; a call that is refused
/// leaves the cursor on the query it was held against. The script itself
/// never changes.
pub fn responder_req_cb(transac: &mut ResponderEntry, responder: &Responder, received: &Json)
    -> (answer: Result<Option<Json>, ResponderError>)
    ensures
        answer_view(answer) == old(transac).answer_for(responder, received),
        final(transac).nonce == responder.nonce(),
        final(transac).sequence == old(transac).cursor_for(responder) + (if answer is Ok {
            1int
        } else {
            0int
        }),
        final(transac).uid == old(transac).uid,
        final(transac).queries == old(transac).queries,
        final(transac).expects == old(transac).expects,
{
    if transac.nonce != responder.get_nonce() {
        transac.nonce = responder.get_nonce();
        transac.sequence = 0;
    }
    if transac.queries.len() == transac.sequence && responder.get_loop() {
        transac.sequence = 0;
    }
    let cursor = transac.sequence;
    if cursor >= transac.queries.len() {
        return Err(
            ResponderError::InvalidSequence { sequence: cursor, count: transac.queries.len() },
        );
    }
    match check(&transac.uid, received, &transac.queries[cursor]) {
        Verdict::Fail(error) => Err(ResponderError::Mismatch(error)),
        _ => {
            let reply = if cursor < transac.expects.len() && !is_empty_payload(
                &transac.expects[cursor],
            ) {
                Some(transac.expects[cursor].clone())
            } else {
                None
            };
            transac.sequence = cursor + 1;
            Ok(reply)
        },
    }
}

/// A call that finds the script exhausted in its own session is out of
/// sequence when the session does not loop, and is held against the first
/// scripted query when it does.
pub proof fn lemma_exhausted_script(entry: ResponderEntry, responder: Responder, received: Json)
    requires
        entry.nonce == responder.nonce(),
        entry.sequence == entry.queries@.len(),
    ensures
        !responder.looping() ==> entry.answer_for(&responder, &received) == Err::<
            Option<JsonValue>,
            ResponderFailure,
        >(
            ResponderFailure::InvalidSequence {
                sequence: entry.queries@.len() as int,
                count: entry.queries@.len() as int,
            },
        ),
        responder.looping() ==> entry.cursor_for(&responder) == 0,
        responder.looping() && entry.queries@.len() > 0 ==> entry.answer_for(&responder, &received)
            == call_result(
            entry.uid@,
            item_views(entry.queries@),
            item_views(entry.expects@),
            0,
            received@,
        ),
{
}

/// After a reset the next call on any verb starts that verb's script over,
/// however far the verb had come before. The one verb left out is a verb
/// that last answered in the very generation that the reset arrives at,
/// which takes as many resets as there are generations.
pub proof fn lemma_reset_restarts(
    entry: ResponderEntry,
    before: Responder,
    after: Responder,
    received: Json,
)
    requires
        after.nonce() == next_nonce(before.nonce()),
        entry.nonce != after.nonce(),
    ensures
        entry.cursor_for(&after) == 0,
        entry.answer_for(&after, &received) == call_result(
            entry.uid@,
            item_views(entry.queries@),
            item_views(entry.expects@),
            0,
            received@,
        ),
{
}

/// A verb that answered in the session before a reset is not in the
/// session after it.
pub proof fn lemma_reset_leaves_session(entry: ResponderEntry, before: Responder, after: Responder)
    requires
        entry.nonce == before.nonce(),
        after.nonce() == next_nonce(before.nonce()),
    ensures
        entry.nonce != after.nonce(),
{
}

/// Within one session a call that is answered is held against the query at
/// the cursor, while the cursor stands inside the script.
pub proof fn lemma_in_sequence(entry: ResponderEntry, responder: Responder, received: Json)
    requires
        entry.nonce == responder.nonce(),
        entry.sequence < entry.queries@.len(),
    ensures
        entry.cursor_for(&responder) == entry.sequence,
        entry.answer_for(&responder, &received) is Err ==> entry.answer_for(
            &responder,
            &received,
        ) matches Err(ResponderFailure::Mismatch(_)),
{
}

} // verus!

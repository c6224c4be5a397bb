use crate::json::{item_views, Json, JsonValue};
use crate::matching::{check, verdict_of, Verdict, VerdictValue};
use crate::policy::InjectorRetryConf;
use crate::status::{
    entry_failure_text, is_success, EntryError, EntryFailure, SimulationStatus, StatusValue,
};
use vstd::prelude::*;

verus! {

/// One scripted call of an injector scenario.
#[derive(Debug)]
pub struct InjectorEntry {
    pub uid: String,
    pub target: String,
    pub verb: String,
    pub queries: Vec<Json>,
    pub expects: Vec<Json>,
    pub status: SimulationStatus,
    pub retry: InjectorRetryConf,
    /// Pause before the call is issued, in milliseconds.
    pub delay: u64,
    pub sequence: usize,
}

/// How the wait for one call attempt ended.
#[derive(Debug)]
pub enum CallOutcome {
    /// The call could not be dispatched.
    TransportFailure(String),
    /// No response arrived before the attempt's deadline.
    TimedOut,
    /// A response arrived, with these payloads.
    Response(Vec<Json>),
}

/// Why a response could not be judged.
#[derive(Clone, Copy, Debug, PartialEq, Eq, Structural)]
pub enum ResponseError {
    /// A payload was expected and the response carries none.
    NoPayload,
    /// The entry expects more than one payload.
    MultipleExpect,
}

/// The status that a response with payloads `args` earns an entry with
/// uid `uid` that expects `expects`.
///
/// With nothing expected the entry is done. With one payload expected, the
/// first payload of the response is verified against it as a partial
/// match: a met or empty expectation checks the entry, an unmet one fails
/// it. A response without payload where one is expected, and an entry with
/// several expectations, cannot be judged.
pub open spec fn response_status(uid: Seq<char>, expects: Seq<JsonValue>, args: Seq<JsonValue>)
    -> Result<StatusValue, ResponseError> {
    if expects.len() == 0 {
        Ok(StatusValue::Done)
    } else if expects.len() == 1 {
        if args.len() < 1 {
            Err(ResponseError::NoPayload)
        } else {
            match verdict_of(uid, args[0], expects[0]) {
                VerdictValue::Check => Ok(StatusValue::Check),
                VerdictValue::Ignored => Ok(StatusValue::Check),
                VerdictValue::Fail(failure) => Ok(StatusValue::Fail(EntryFailure::Mismatch(failure))),
            }
        }
    } else {
        Err(ResponseError::MultipleExpect)
    }
}

/// The model of a judged response.
pub open spec fn judged_view(judged: Result<SimulationStatus, ResponseError>) -> Result<
    StatusValue,
    ResponseError,
> {
    match judged {
        Ok(status) => Ok(status@),
        Err(error) => Err(error),
    }
}

/// Judges the response to the call of `transac`.
pub fn injector_async_response(transac: &InjectorEntry, args: &Vec<Json>) -> (judged: Result<
    SimulationStatus,
    ResponseError,
>)
    ensures
        judged_view(judged) == response_status(
            transac.uid@,
            item_views(transac.expects@),
            item_views(args@),
        ),
{
    if transac.expects.len() == 0 {
        Ok(SimulationStatus::Done)
    } else if transac.expects.len() == 1 {
        if args.len() < 1 {
            Err(ResponseError::NoPayload)
        } else {
            match check(&transac.uid, &args[0], &transac.expects[0]) {
                Verdict::Check => Ok(SimulationStatus::Check),
                Verdict::Ignored => Ok(SimulationStatus::Check),
                Verdict::Fail(error) => Ok(SimulationStatus::Fail(EntryError::Mismatch(error))),
            }
        }
    } else {
        Err(ResponseError::MultipleExpect)
    }
}

/// Mathematical model of a `CallOutcome`.
pub ghost enum OutcomeValue {
    TransportFailure(Seq<char>),
    TimedOut,
    Response(Seq<JsonValue>),
}

impl View for CallOutcome {
    type V = OutcomeValue;

    open spec fn view(&self) -> OutcomeValue {
        match self {
            CallOutcome::TransportFailure(reason) => OutcomeValue::TransportFailure(reason@),
            CallOutcome::TimedOut => OutcomeValue::TimedOut,
            CallOutcome::Response(args) => OutcomeValue::Response(item_views(args@)),
        }
    }
}

/// What one call attempt yields: the reason of a dispatch failure, or the
/// status that the wait ended with.
///
/// A response that cannot be judged never ends the wait, which then times
/// out.
pub open spec fn launch_status(uid: Seq<char>, expects: Seq<JsonValue>, outcome: OutcomeValue)
    -> Result<StatusValue, Seq<char>> {
    match outcome {
        OutcomeValue::TransportFailure(reason) => Err(reason),
        OutcomeValue::TimedOut => Ok(StatusValue::Timeout),
        OutcomeValue::Response(args) => match response_status(uid, expects, args) {
            Ok(status) => Ok(status),
            Err(_) => Ok(StatusValue::Timeout),
        },
    }
}

/// The model of a launched attempt.
pub open spec fn launched_view(launched: Result<SimulationStatus, String>) -> Result<
    StatusValue,
    Seq<char>,
> {
    match launched {
        Ok(status) => Ok(status@),
        Err(reason) => Err(reason@),
    }
}

/// Turns the way the wait for one attempt of `transac` ended into the
/// status of that attempt.
pub fn injector_launch_transac(transac: &InjectorEntry, outcome: &CallOutcome) -> (launched:
    Result<SimulationStatus, String>)
    ensures
        launched_view(launched) == launch_status(
            transac.uid@,
            item_views(transac.expects@),
            outcome@,
        ),
{
    match outcome {
        CallOutcome::TransportFailure(reason) => Err(reason.clone()),
        CallOutcome::TimedOut => Ok(SimulationStatus::Timeout),
        CallOutcome::Response(args) => match injector_async_response(transac, args) {
            Ok(status) => Ok(status),
            Err(_) => Ok(SimulationStatus::Timeout),
        },
    }
}

/// Why a scenario run was aborted.
#[derive(Debug)]
pub enum RunError {
    /// No response arrived in time for the entry.
    Timeout { uid: String },
    /// The call of the entry could not be dispatched on any attempt.
    Transport { uid: String, reason: String },
    /// An attempt of the entry ended with a status that no attempt can have.
    Internal { uid: String, attempt: u32 },
}

/// Mathematical model of a `RunError`.
pub ghost enum RunFailure {
    Timeout { uid: Seq<char> },
    Transport { uid: Seq<char>, reason: Seq<char> },
    Internal { uid: Seq<char>, attempt: int },
}

impl View for RunError {
    type V = RunFailure;

    open spec fn view(&self) -> RunFailure {
        match self {
            RunError::Timeout { uid } => RunFailure::Timeout { uid: uid@ },
            RunError::Transport { uid, reason } => RunFailure::Transport {
                uid: uid@,
                reason: reason@,
            },
            RunError::Internal { uid, attempt } => RunFailure::Internal {
                uid: uid@,
                attempt: *attempt as int,
            },
        }
    }
}

/// A progress record for the event sink.
#[derive(Debug)]
pub struct Notification {
    pub uid: String,
    pub verb: String,
    pub status: SimulationStatus,
    /// The text of the failure, for a failed entry.
    pub error: Option<String>,
}

/// Mathematical model of a `Notification`.
pub ghost struct NotificationValue {
    pub uid: Seq<char>,
    pub verb: Seq<char>,
    pub status: StatusValue,
    pub error: Option<Seq<char>>,
}

impl View for Notification {
    type V = NotificationValue;

    open spec fn view(&self) -> NotificationValue {
        NotificationValue {
            uid: self.uid@,
            verb: self.verb@,
            status: self.status@,
            error: match self.error {
                Some(text) => Some(text@),
                None => None,
            },
        }
    }
}

/// The record of an entry reaching `status`.
pub open spec fn notification_of(uid: Seq<char>, verb: Seq<char>, status: StatusValue)
    -> NotificationValue {
    NotificationValue {
        uid,
        verb,
        status,
        error: match status {
            StatusValue::Fail(failure) => Some(entry_failure_text(failure)),
            _ => None,
        },
    }
}

/// What the run does after an attempt.
#[derive(Debug)]
pub enum NextAction {
    /// Pause for `delay` milliseconds, then attempt the call again.
    Retry { delay: u64 },
    /// The entry is finished; go on with the next one.
    Proceed,
    /// Stop the whole run.
    Abort(RunError),
}

/// Mathematical model of a `NextAction`.
pub ghost enum NextValue {
    Retry { delay: u64 },
    Proceed,
    Abort(RunFailure),
}

impl View for NextAction {
    type V = NextValue;

    open spec fn view(&self) -> NextValue {
        match self {
            NextAction::Retry { delay } => NextValue::Retry { delay: *delay },
            NextAction::Proceed => NextValue::Proceed,
            NextAction::Abort(error) => NextValue::Abort(error@),
        }
    }
}

/// The record to emit and the action to take after one attempt.
#[derive(Debug)]
pub struct TransactionStep {
    pub notification: Notification,
    pub next: NextAction,
}

/// The status of an entry after attempt number `attempt` (counted from one)
/// of `count` ended as `launched`.
///
/// A dispatch failure leaves the entry to be retried while attempts remain
/// and fails it on the last one; otherwise the entry takes the status that
/// the wait ended with.
pub open spec fn attempt_status(count: int, attempt: int, launched: Result<StatusValue, Seq<char>>)
    -> StatusValue {
    match launched {
        Err(reason) => if attempt < count {
            StatusValue::Retry
        } else {
            StatusValue::Fail(EntryFailure::Transport(reason))
        },
        Ok(status) => status,
    }
}

/// The action after attempt number `attempt` (counted from one) ended as
/// `launched`.
///
/// A dispatch failure is retried after the policy's pause while attempts
/// remain, and aborts the run on the last one. A timeout aborts the run.
/// Success and a failed verification finish the entry and let the run go
/// on. Any other status aborts the run as an internal error.
pub open spec fn attempt_action(
    uid: Seq<char>,
    retry: InjectorRetryConf,
    attempt: int,
    launched: Result<StatusValue, Seq<char>>,
) -> NextValue {
    match launched {
        Err(reason) => if attempt < retry.count {
            NextValue::Retry { delay: retry.delay }
        } else {
            NextValue::Abort(RunFailure::Transport { uid, reason })
        },
        Ok(StatusValue::Done) => NextValue::Proceed,
        Ok(StatusValue::Check) => NextValue::Proceed,
        Ok(StatusValue::Fail(_)) => NextValue::Proceed,
        Ok(StatusValue::Timeout) => NextValue::Abort(RunFailure::Timeout { uid }),
        Ok(_) => NextValue::Abort(RunFailure::Internal { uid, attempt }),
    }
}

impl InjectorEntry {
    /// Whether `other` is this entry apart from its status.
    pub open spec fn same_script(&self, other: &InjectorEntry) -> bool {
        &&& self.uid == other.uid
        &&& self.target == other.target
        &&& self.verb == other.verb
        &&& self.queries == other.queries
        &&& self.expects == other.expects
        &&& self.retry == other.retry
        &&& self.delay == other.delay
        &&& self.sequence == other.sequence
    }

    /// Marks the entry as under way, at the start of an attempt.
    pub fn begin_attempt(&mut self)
        ensures
            final(self).status == SimulationStatus::Pending,
            final(self).same_script(old(self)),
    {
        self.status = SimulationStatus::Pending;
    }

    /// The record of this entry reaching `status`.
    pub fn notify(&self, status: &SimulationStatus) -> (record: Notification)
        ensures
            record@ == notification_of(self.uid@, self.verb@, status@),
    {
        let error = match status {
            SimulationStatus::Fail(failure) => Some(failure.describe()),
            _ => None,
        };
        Notification {
            uid: self.uid.clone(),
            verb: self.verb.clone(),
            status: status.clone(),
            error,
        }
    }
}

/// Takes in how attempt number `attempt` (counted from one) of `transac`
/// ended: records the entry's new status and says what to emit and what to
/// do next.
pub fn spawn_one_transaction(transac: &mut InjectorEntry, attempt: u32, outcome: &CallOutcome)
    -> (step: TransactionStep)
    ensures
        final(transac).same_script(old(transac)),
        final(transac).status@ == attempt_status(
            old(transac).retry.count as int,
            attempt as int,
            launch_status(old(transac).uid@, item_views(old(transac).expects@), outcome@),
        ),
        step.notification@ == notification_of(
            old(transac).uid@,
            old(transac).verb@,
            final(transac).status@,
        ),
        step.next@ == attempt_action(
            old(transac).uid@,
            old(transac).retry,
            attempt as int,
            launch_status(old(transac).uid@, item_views(old(transac).expects@), outcome@),
        ),
{
    let launched = injector_launch_transac(transac, outcome);
    let (status, next) = match launched {
        Err(reason) => {
            if attempt < transac.retry.count {
                (SimulationStatus::Retry, NextAction::Retry { delay: transac.retry.delay })
            } else {
                (
                    SimulationStatus::Fail(EntryError::Transport(reason.clone())),
                    NextAction::Abort(RunError::Transport { uid: transac.uid.clone(), reason }),
                )
            }
        },
        Ok(status) => {
            let next = match &status {
                SimulationStatus::Done => NextAction::Proceed,
                SimulationStatus::Check => NextAction::Proceed,
                SimulationStatus::Fail(_) => NextAction::Proceed,
                SimulationStatus::Timeout => NextAction::Abort(
                    RunError::Timeout { uid: transac.uid.clone() },
                ),
                _ => NextAction::Abort(RunError::Internal { uid: transac.uid.clone(), attempt }),
            };
            (status, next)
        },
    };
    let notification = transac.notify(&status);
    transac.status = status;
    TransactionStep { notification, next }
}

/// The records that an entry emits when its attempts, from attempt number
/// `attempt` on, end as `outcomes` say, one outcome per attempt: one record
/// per attempt, up to the first attempt that is not retried.
pub open spec fn run_records(
    uid: Seq<char>,
    verb: Seq<char>,
    expects: Seq<JsonValue>,
    retry: InjectorRetryConf,
    attempt: int,
    outcomes: Seq<OutcomeValue>,
) -> Seq<NotificationValue>
    decreases outcomes.len(),
{
    if outcomes.len() == 0 {
        Seq::empty()
    } else {
        let launched = launch_status(uid, expects, outcomes[0]);
        let record = notification_of(
            uid,
            verb,
            attempt_status(retry.count as int, attempt, launched),
        );
        if attempt_action(uid, retry, attempt, launched) is Retry {
            seq![record] + run_records(
                uid,
                verb,
                expects,
                retry,
                attempt + 1,
                outcomes.subrange(1, outcomes.len() as int),
            )
        } else {
            seq![record]
        }
    }
}

/// A dispatch failure is retried after the policy's pause while attempts
/// remain; on the last attempt it fails the entry and aborts the run.
pub proof fn lemma_dispatch_failure(
    uid: Seq<char>,
    retry: InjectorRetryConf,
    attempt: int,
    reason: Seq<char>,
)
    ensures
        attempt < retry.count ==> {
            &&& attempt_status(retry.count as int, attempt, Err(reason)) == StatusValue::Retry
            &&& attempt_action(uid, retry, attempt, Err(reason)) == NextValue::Retry {
                delay: retry.delay,
            }
        },
        attempt >= retry.count ==> {
            &&& attempt_status(retry.count as int, attempt, Err(reason)) == StatusValue::Fail(
                EntryFailure::Transport(reason),
            )
            &&& attempt_action(uid, retry, attempt, Err(reason)) == NextValue::Abort(
                RunFailure::Transport { uid, reason },
            )
        },
{
}

/// When no response arrives in time, the entry times out and the run is
/// aborted, whatever the number of the attempt: a timeout is never retried.
pub proof fn lemma_timeout_aborts(
    uid: Seq<char>,
    expects: Seq<JsonValue>,
    retry: InjectorRetryConf,
    attempt: int,
)
    ensures
        attempt_status(
            retry.count as int,
            attempt,
            launch_status(uid, expects, OutcomeValue::TimedOut),
        ) == StatusValue::Timeout,
        attempt_action(uid, retry, attempt, launch_status(uid, expects, OutcomeValue::TimedOut))
            == NextValue::Abort(RunFailure::Timeout { uid }),
{
}

/// A response that can be judged ends the entry without aborting the run:
/// the entry is done, checked or failed, and the run goes on.
pub proof fn lemma_response_proceeds(
    uid: Seq<char>,
    expects: Seq<JsonValue>,
    retry: InjectorRetryConf,
    attempt: int,
    args: Seq<JsonValue>,
)
    requires
        response_status(uid, expects, args) is Ok,
    ensures
        attempt_action(
            uid,
            retry,
            attempt,
            launch_status(uid, expects, OutcomeValue::Response(args)),
        ) == NextValue::Proceed,
        attempt_status(
            retry.count as int,
            attempt,
            launch_status(uid, expects, OutcomeValue::Response(args)),
        ) == response_status(uid, expects, args)->Ok_0,
{
}

/// When the first `failures` attempts of an entry cannot be dispatched and
/// the next one is answered with a success, with attempts to spare, the
/// entry emits one retry record per failed attempt and then one record of
/// the success.
pub proof fn lemma_retry_then_success(
    uid: Seq<char>,
    verb: Seq<char>,
    expects: Seq<JsonValue>,
    retry: InjectorRetryConf,
    attempt: int,
    outcomes: Seq<OutcomeValue>,
    failures: int,
)
    requires
        0 <= failures,
        outcomes.len() == failures + 1,
        attempt + failures <= retry.count,
        forall|i: int| 0 <= i < failures ==> (#[trigger] outcomes[i]) is TransportFailure,
        outcomes[failures] is Response,
        response_status(uid, expects, outcomes[failures]->Response_0) matches Ok(status)
            && is_success(status),
    ensures
        run_records(uid, verb, expects, retry, attempt, outcomes).len() == failures + 1,
        forall|i: int|
            0 <= i < failures ==> (#[trigger] run_records(
                uid,
                verb,
                expects,
                retry,
                attempt,
                outcomes,
            )[i]) == notification_of(uid, verb, StatusValue::Retry),
        run_records(uid, verb, expects, retry, attempt, outcomes)[failures] == notification_of(
            uid,
            verb,
            response_status(uid, expects, outcomes[failures]->Response_0)->Ok_0,
        ),
    decreases failures,
{
    if failures > 0 {
        let rest = outcomes.subrange(1, outcomes.len() as int);
        assert(outcomes[0] is TransportFailure);
        assert forall|i: int| 0 <= i < failures - 1 implies (#[trigger] rest[i])
            is TransportFailure by {
            assert(rest[i] == outcomes[i + 1]);
        }
        assert(rest[failures - 1] == outcomes[failures]);
        lemma_retry_then_success(uid, verb, expects, retry, attempt + 1, rest, failures - 1);
        let all = run_records(uid, verb, expects, retry, attempt, outcomes);
        let tail = run_records(uid, verb, expects, retry, attempt + 1, rest);
        assert(all == seq![notification_of(uid, verb, StatusValue::Retry)] + tail);
        assert forall|i: int| 0 <= i < failures implies (#[trigger] all[i]) == notification_of(
            uid,
            verb,
            StatusValue::Retry,
        ) by {
            if i > 0 {
                assert(all[i] == tail[i - 1]);
            }
        }
        assert(all[failures] == tail[failures - 1]);
    }
}

/// However the wait for an attempt ends, the run is never aborted as an
/// internal error: the status of an attempt is always one that an attempt
/// can have.
pub proof fn lemma_no_internal_error(
    uid: Seq<char>,
    expects: Seq<JsonValue>,
    retry: InjectorRetryConf,
    attempt: int,
    outcome: OutcomeValue,
)
    ensures
        !(attempt_action(uid, retry, attempt, launch_status(uid, expects, outcome)) matches NextValue::Abort(
            RunFailure::Internal { .. },
        )),
{
}

} // verus!

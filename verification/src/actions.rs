use crate::config::{required_text, get_str, ConfigError, ConfigFailure};
use crate::executor::InjectorEntry;
use crate::injector::{first_call, Injector, JobScenarioParam, RunNext, RunNextValue, START_DELAY};
use crate::json::{item_views, Json, JsonValue};
use crate::text::same_text;
use vstd::prelude::*;
use vstd::string::StringExecFns;

verus! {

/// What a caller asks of a scenario.
#[derive(Clone, Copy, Debug, PartialEq, Eq, Structural)]
pub enum ScenarioAction {
    START,
    STOP,
    EXEC,
    RESULT,
}

/// The action that a name stands for.
pub open spec fn action_named(name: Seq<char>) -> Result<ScenarioAction, ConfigFailure> {
    if name == "start"@ {
        Ok(ScenarioAction::START)
    } else if name == "stop"@ {
        Ok(ScenarioAction::STOP)
    } else if name == "exec"@ {
        Ok(ScenarioAction::EXEC)
    } else if name == "result"@ {
        Ok(ScenarioAction::RESULT)
    } else {
        Err(ConfigFailure::InvalidValue("action"@))
    }
}

/// The action that a request names under `action`.
pub open spec fn action_of(request: JsonValue) -> Result<ScenarioAction, ConfigFailure> {
    match required_text(request, "action"@) {
        Err(failure) => Err(failure),
        Ok(name) => action_named(name),
    }
}

/// The model of a read action.
pub open spec fn action_view(read: Result<ScenarioAction, ConfigError>) -> Result<
    ScenarioAction,
    ConfigFailure,
> {
    match read {
        Ok(action) => Ok(action),
        Err(error) => Err(error@),
    }
}

impl ScenarioAction {
    /// The action asked for when a request names none.
    pub fn default() -> (action: Self)
        ensures
            action == ScenarioAction::START,
    {
        ScenarioAction::START
    }

    /// Reads the action that a request names under `action`.
    pub fn from_jsonc(request: &Json) -> (read: Result<Self, ConfigError>)
        ensures
            action_view(read) == action_of(request@),
    {
        let name = match get_str(request, "action") {
            Ok(name) => name,
            Err(error) => return Err(error),
        };
        if same_text(name.as_str(), "start") {
            Ok(ScenarioAction::START)
        } else if same_text(name.as_str(), "stop") {
            Ok(ScenarioAction::STOP)
        } else if same_text(name.as_str(), "exec") {
            Ok(ScenarioAction::EXEC)
        } else if same_text(name.as_str(), "result") {
            Ok(ScenarioAction::RESULT)
        } else {
            Err(ConfigError::InvalidValue(String::from_str("action")))
        }
    }
}

/// What the control verb of a scenario remembers between requests.
#[derive(Debug)]
pub struct ScenarioReqCtx {
    pub uid: String,
    /// The identifier of the run posted last; zero when none is known.
    pub job_id: i32,
}

/// What the host does to serve a request on a scenario.
#[derive(Clone, Copy, Debug, PartialEq, Eq, Structural)]
pub enum ActionPlan {
    /// Subscribe the caller, post a run with these parameters, remember
    /// its identifier and reply with it.
    Start(JobScenarioParam),
    /// Unsubscribe the caller, cancel the run of this identifier and reply
    /// with the report.
    Stop { job_id: i32 },
    /// Subscribe the caller, run the scenario to its end in the caller's
    /// context and reply with the report.
    Exec,
    /// Reply with the report.
    Result,
}

/// What serving `action` takes, for a scenario with the given watchdog
/// whose control verb remembers the run `job_id`.
pub open spec fn plan_of(action: ScenarioAction, job_id: i32, watchdog: u64) -> ActionPlan {
    match action {
        ScenarioAction::START => ActionPlan::Start(
            JobScenarioParam { start_delay: START_DELAY, watchdog },
        ),
        ScenarioAction::STOP => ActionPlan::Stop { job_id },
        ScenarioAction::EXEC => ActionPlan::Exec,
        ScenarioAction::RESULT => ActionPlan::Result,
    }
}

/// Decides how a request on a scenario is served. A stop forgets the run
/// that the control verb remembered; nothing else changes.
pub fn scenario_action_cb(ctx: &mut ScenarioReqCtx, injector: &Injector, action: ScenarioAction)
    -> (plan: ActionPlan)
    ensures
        plan == plan_of(action, old(ctx).job_id, injector.watchdog()),
        final(ctx).uid == old(ctx).uid,
        final(ctx).job_id == (if action == ScenarioAction::STOP {
            0
        } else {
            old(ctx).job_id
        }),
{
    match action {
        ScenarioAction::START => ActionPlan::Start(injector.post_scenario()),
        ScenarioAction::STOP => {
            let job_id = ctx.job_id;
            ctx.job_id = 0;
            ActionPlan::Stop { job_id }
        },
        ScenarioAction::EXEC => ActionPlan::Exec,
        ScenarioAction::RESULT => ActionPlan::Result,
    }
}

impl ScenarioReqCtx {
    /// Remembers the identifier of the run that was posted.
    pub fn started(&mut self, job_id: i32)
        ensures
            final(self).uid == old(self).uid,
            final(self).job_id == job_id,
    {
        self.job_id = job_id;
    }
}

/// How a posted run begins once the scheduler starts it: not at all when
/// the scheduler signals that the run was cancelled, otherwise with the
/// first attempt of the first entry.
pub open spec fn job_start(entries: Seq<InjectorEntry>, signal: i32) -> RunNextValue {
    if signal != 0 {
        RunNextValue::Finished
    } else {
        first_call(entries, 0)
    }
}

/// Begins a posted run when the scheduler starts it with `signal`.
pub fn job_scenario_cb(injector: &Injector, signal: i32) -> (next: RunNext)
    ensures
        next@ == job_start(injector.entries(), signal),
{
    if signal != 0 {
        RunNext::Finished
    } else {
        injector.first_step()
    }
}

/// What is sent to issue the call of an entry.
#[derive(Debug)]
pub struct CallRequest {
    pub target: String,
    pub verb: String,
    pub queries: Vec<Json>,
    /// Time allowed to the attempt, in milliseconds.
    pub timeout: u64,
}

/// Prepares the call of `transac`: its target and verb, its queries in
/// order, and the time allowed to the attempt.
pub fn injector_async_request(transac: &InjectorEntry) -> (request: CallRequest)
    ensures
        request.target@ == transac.target@,
        request.verb@ == transac.verb@,
        item_views(request.queries@) == item_views(transac.queries@),
        request.timeout == transac.retry.timeout,
{
    let mut queries: Vec<Json> = Vec::new();
    let mut index: usize = 0;
    while index < transac.queries.len()
        invariant
            index <= transac.queries.len(),
            queries.len() == index,
            forall|i: int| 0 <= i < index ==> (#[trigger] queries@[i])@ == transac.queries@[i]@,
        decreases transac.queries.len() - index,
    {
        queries.push(transac.queries[index].clone());
        index += 1;
    }
    assert(item_views(queries@) =~= item_views(transac.queries@));
    CallRequest {
        target: transac.target.clone(),
        verb: transac.verb.clone(),
        queries,
        timeout: transac.retry.timeout,
    }
}

} // verus!

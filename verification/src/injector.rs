use crate::executor::{
    attempt_action, attempt_status, launch_status, notification_of,
    spawn_one_transaction, CallOutcome, InjectorEntry, NextAction, NextValue, Notification,
    RunError, RunFailure,
};
use crate::config::{ConfigError, ConfigFailure};
use crate::json::{lemma_array_view, item_views, Json, JsonValue};
use crate::policy::{InjectorDelayConf, InjectorRetryConf};
use crate::scenario::{build_entry, entry_of, scale_watchdog, watchdog_of, EntryValue};
use crate::status::{is_success, status_name, SimulationStatus, StatusValue};
use crate::text::{decimal, padded, push_decimal, push_padded, text_views};
use vstd::prelude::*;
use vstd::string::StringExecFns;

verus! {

/// The entries of a scenario, in the order in which they run.
#[derive(Debug)]
pub struct ScenarioState {
    pub entries: Vec<InjectorEntry>,
}

/// Where a run stands: the entry under way and the number of its current
/// attempt, counted from one.
#[derive(Clone, Copy, Debug, PartialEq, Eq, Structural)]
pub struct RunPosition {
    pub index: usize,
    pub attempt: u32,
}

/// What a run does next.
#[derive(Debug)]
pub enum RunNext {
    /// Pause for `wait` milliseconds, then make the given attempt of the
    /// given entry.
    Call { position: RunPosition, wait: u64 },
    /// Every entry has been run.
    Finished,
    /// The run stops here.
    Aborted(RunError),
}

/// Mathematical model of a `RunNext`.
pub ghost enum RunNextValue {
    Call { position: RunPosition, wait: u64 },
    Finished,
    Aborted(RunFailure),
}

impl View for RunNext {
    type V = RunNextValue;

    open spec fn view(&self) -> RunNextValue {
        match self {
            RunNext::Call { position, wait } => RunNextValue::Call {
                position: *position,
                wait: *wait,
            },
            RunNext::Finished => RunNextValue::Finished,
            RunNext::Aborted(error) => RunNextValue::Aborted(error@),
        }
    }
}

/// The record to emit and what the run does next.
#[derive(Debug)]
pub struct RunStep {
    pub notification: Notification,
    pub next: RunNext,
}

/// The first attempt of the entry at `index`, after that entry's own
/// pause; the end of the run when there is no such entry.
pub open spec fn first_call(entries: Seq<InjectorEntry>, index: int) -> RunNextValue {
    if 0 <= index < entries.len() {
        RunNextValue::Call {
            position: RunPosition { index: index as usize, attempt: 1 },
            wait: entries[index].delay,
        }
    } else {
        RunNextValue::Finished
    }
}

/// What a run at `position` does after its entry's attempt led to `action`.
///
/// A retry makes the next attempt of the same entry after the retry pause.
/// A finished entry hands over to the first attempt of the entry after it,
/// or ends the run after the last entry. An abort stops the run: no later
/// entry is called.
pub open spec fn run_next(entries: Seq<InjectorEntry>, position: RunPosition, action: NextValue)
    -> RunNextValue {
    match action {
        NextValue::Retry { delay } => RunNextValue::Call {
            position: RunPosition {
                index: position.index,
                attempt: (position.attempt + 1) as u32,
            },
            wait: delay,
        },
        NextValue::Proceed => first_call(entries, position.index + 1),
        NextValue::Abort(failure) => RunNextValue::Aborted(failure),
    }
}

impl ScenarioState {
    /// How a run begins: with the first attempt of the first entry, or
    /// finished at once when there is no entry.
    pub fn first_step(&self) -> (next: RunNext)
        ensures
            next@ == first_call(self.entries@, 0),
    {
        if self.entries.len() > 0 {
            RunNext::Call {
                position: RunPosition { index: 0, attempt: 1 },
                wait: self.entries[0].delay,
            }
        } else {
            RunNext::Finished
        }
    }

    /// Marks the entry at `index` as under way, at the start of an attempt.
    pub fn begin_attempt(&mut self, index: usize)
        requires
            index < old(self).entries.len(),
        ensures
            final(self).entries.len() == old(self).entries.len(),
            final(self).entries[index as int].status == SimulationStatus::Pending,
            final(self).entries[index as int].same_script(&old(self).entries[index as int]),
            forall|i: int|
                0 <= i < old(self).entries.len() && i != index ==> final(self).entries[i]
                    == old(self).entries[i],
    {
        let entry = &mut self.entries[index];
        entry.begin_attempt();
    }
}

/// The status of `entry` after its attempt number `attempt` ended as
/// `outcome`.
pub open spec fn status_after(entry: InjectorEntry, attempt: u32, outcome: &CallOutcome)
    -> StatusValue {
    attempt_status(
        entry.retry.count as int,
        attempt as int,
        launch_status(entry.uid@, item_views(entry.expects@), outcome@),
    )
}

/// The action after attempt number `attempt` of `entry` ended as `outcome`.
pub open spec fn action_after(entry: InjectorEntry, attempt: u32, outcome: &CallOutcome)
    -> NextValue {
    attempt_action(
        entry.uid@,
        entry.retry,
        attempt as int,
        launch_status(entry.uid@, item_views(entry.expects@), outcome@),
    )
}

impl ScenarioState {
    /// Takes in how the attempt at `position` ended: records the new status
    /// of that entry, leaves every other entry as it is, and says what to
    /// emit and what the run does next.
    pub fn advance(&mut self, position: RunPosition, outcome: &CallOutcome) -> (step: RunStep)
        requires
            position.index < old(self).entries.len(),
        ensures
            final(self).entries.len() == old(self).entries.len(),
            forall|i: int|
                0 <= i < old(self).entries.len() && i != position.index ==> final(self).entries[i]
                    == old(self).entries[i],
            final(self).entries[position.index as int].same_script(
                &old(self).entries[position.index as int],
            ),
            final(self).entries[position.index as int].status@ == status_after(
                old(self).entries[position.index as int],
                position.attempt,
                outcome,
            ),
            step.notification@ == notification_of(
                old(self).entries[position.index as int].uid@,
                old(self).entries[position.index as int].verb@,
                status_after(old(self).entries[position.index as int], position.attempt, outcome),
            ),
            step.next@ == run_next(
                old(self).entries@,
                position,
                action_after(old(self).entries[position.index as int], position.attempt, outcome),
            ),
    {
        let entry = &mut self.entries[position.index];
        let step = spawn_one_transaction(entry, position.attempt, outcome);
        let next = match step.next {
            NextAction::Retry { delay } => RunNext::Call {
                position: RunPosition { index: position.index, attempt: position.attempt + 1 },
                wait: delay,
            },
            NextAction::Proceed => {
                if position.index + 1 < self.entries.len() {
                    RunNext::Call {
                        position: RunPosition { index: position.index + 1, attempt: 1 },
                        wait: self.entries[position.index + 1].delay,
                    }
                } else {
                    RunNext::Finished
                }
            },
            NextAction::Abort(error) => RunNext::Aborted(error),
        };
        RunStep { notification: step.notification, next }
    }
}

/// Pause, in milliseconds, between asking for a run and its start.
pub const START_DELAY: u64 = 100;

/// What the scheduler is asked for when a run is posted.
#[derive(Clone, Copy, Debug, PartialEq, Eq, Structural)]
pub struct JobScenarioParam {
    /// Pause before the run starts, in milliseconds.
    pub start_delay: u64,
    /// Longest time allowed to the whole run, in seconds.
    pub watchdog: u64,
}

/// A scenario: its uid, the watchdog of its runs and its entries.
#[derive(Debug)]
pub struct Injector {
    uid: String,
    watchdog: u64,
    data_set: ScenarioState,
}

/// The first line of a report: the range of entry numbers and the
/// scenario's uid.
pub open spec fn header_line(count: nat, uid: Seq<char>) -> Seq<char> {
    "1.."@ + decimal(count) + " # "@ + uid
}

/// The report line of the entry at `index`: `ok` for a success and `fx`
/// for anything else, the index on four digits, the verb with the uid in
/// brackets, and the status by its name.
pub open spec fn entry_line(index: nat, verb: Seq<char>, uid: Seq<char>, status: StatusValue)
    -> Seq<char> {
    (if is_success(status) {
        "ok "@
    } else {
        "fx "@
    }) + padded(index, 4) + " - "@ + verb + "("@ + uid + ") # "@ + status_name(status)
}

/// The report of a scenario: the header, then one line per entry in order.
pub open spec fn report_lines(uid: Seq<char>, entries: Seq<InjectorEntry>) -> Seq<Seq<char>> {
    Seq::new(
        entries.len() + 1,
        |i: int|
            if i == 0 {
                header_line(entries.len(), uid)
            } else {
                entry_line(
                    (i - 1) as nat,
                    entries[i - 1].verb@,
                    entries[i - 1].uid@,
                    entries[i - 1].status@,
                )
            },
    )
}

/// The report line of `entry` at `index`.
fn render_entry(index: usize, entry: &InjectorEntry) -> (line: String)
    ensures
        line@ == entry_line(index as nat, entry.verb@, entry.uid@, entry.status@),
{
    let success = match &entry.status {
        SimulationStatus::Done => true,
        SimulationStatus::Check => true,
        _ => false,
    };
    let mut line = if success {
        String::from_str("ok ")
    } else {
        String::from_str("fx ")
    };
    push_padded(&mut line, index as u64, 4);
    line.append(" - ");
    line.append(entry.verb.as_str());
    line.append("(");
    line.append(entry.uid.as_str());
    line.append(") # ");
    let name = entry.status.name();
    line.append(name.as_str());
    line
}

impl Injector {
    /// The scenario's uid.
    pub closed spec fn uid(&self) -> Seq<char> {
        self.uid@
    }

    /// The scenario's entries.
    pub closed spec fn entries(&self) -> Seq<InjectorEntry> {
        self.data_set.entries@
    }

    /// The watchdog of the scenario's runs, in seconds.
    pub closed spec fn watchdog(&self) -> u64 {
        self.watchdog
    }

    /// The report of the scenario as it stands.
    pub open spec fn report(&self) -> Seq<Seq<char>> {
        report_lines(self.uid(), self.entries())
    }

    /// The scenario's uid.
    pub fn get_uid(&self) -> (uid: &str)
        ensures
            uid@ == self.uid(),
    {
        self.uid.as_str()
    }

    /// The number of entries.
    pub fn count(&self) -> (count: usize)
        ensures
            count == self.entries().len(),
    {
        self.data_set.entries.len()
    }

    /// The scenario's state, for reading.
    pub fn lock_state(&self) -> (state: &ScenarioState)
        ensures
            state.entries@ == self.entries(),
    {
        &self.data_set
    }

    /// What to ask of the scheduler to run the scenario in the background:
    /// a start after the fixed start delay, under the scenario's watchdog.
    pub fn post_scenario(&self) -> (job: JobScenarioParam)
        ensures
            job.start_delay == START_DELAY,
            job.watchdog == self.watchdog(),
    {
        JobScenarioParam { start_delay: START_DELAY, watchdog: self.watchdog }
    }

    /// The report of the scenario as it stands: the header and one line per
    /// entry, whatever has been run so far.
    pub fn get_result(&self) -> (lines: Vec<String>)
        ensures
            text_views(lines@) == self.report(),
            lines@.len() == self.entries().len() + 1,
    {
        let count = self.data_set.entries.len();
        let mut header = String::from_str("1..");
        push_decimal(&mut header, count as u64);
        header.append(" # ");
        header.append(self.uid.as_str());
        let mut lines: Vec<String> = Vec::new();
        lines.push(header);
        let mut index: usize = 0;
        while index < count
            invariant
                index <= count,
                count == self.data_set.entries.len(),
                lines@.len() == index + 1,
                forall|i: int| 0 <= i <= index ==> (#[trigger] lines@[i])@ == self.report()[i],
            decreases count - index,
        {
            let line = render_entry(index, &self.data_set.entries[index]);
            lines.push(line);
            index += 1;
        }
        assert(text_views(lines@) =~= self.report());
        lines
    }

    /// The report after a run was cancelled: what had been recorded stays
    /// recorded.
    pub fn kill_scenario(&self) -> (lines: Vec<String>)
        ensures
            text_views(lines@) == self.report(),
            lines@.len() == self.entries().len() + 1,
    {
        self.get_result()
    }
}

impl Injector {
    /// How a run begins: with the first attempt of the first entry, or
    /// finished at once when there is no entry.
    pub fn first_step(&self) -> (next: RunNext)
        ensures
            next@ == first_call(self.entries(), 0),
    {
        self.data_set.first_step()
    }

    /// Marks the entry at `index` as under way, at the start of an attempt.
    pub fn begin_attempt(&mut self, index: usize)
        requires
            index < old(self).entries().len(),
        ensures
            final(self).uid() == old(self).uid(),
            final(self).watchdog() == old(self).watchdog(),
            final(self).entries().len() == old(self).entries().len(),
            final(self).entries()[index as int].status == SimulationStatus::Pending,
            final(self).entries()[index as int].same_script(&old(self).entries()[index as int]),
            forall|i: int|
                0 <= i < old(self).entries().len() && i != index ==> final(self).entries()[i]
                    == old(self).entries()[i],
    {
        self.data_set.begin_attempt(index);
    }
}

/// Takes in how the attempt at `position` of a run of `injector` ended:
/// records the new status of that entry, leaves every other entry as it is,
/// and says what to emit and what the run does next.
///
/// Entries run strictly one after the other: the next call is another
/// attempt of the same entry, or the first attempt of the entry after it.
pub fn job_scenario_exec(injector: &mut Injector, position: RunPosition, outcome: &CallOutcome)
    -> (step: RunStep)
    requires
        position.index < old(injector).entries().len(),
    ensures
        final(injector).uid() == old(injector).uid(),
        final(injector).watchdog() == old(injector).watchdog(),
        final(injector).entries().len() == old(injector).entries().len(),
        forall|i: int|
            0 <= i < old(injector).entries().len() && i != position.index ==> final(
                injector
            ).entries()[i] == old(injector).entries()[i],
        final(injector).entries()[position.index as int].same_script(
            &old(injector).entries()[position.index as int],
        ),
        final(injector).entries()[position.index as int].status@ == status_after(
            old(injector).entries()[position.index as int],
            position.attempt,
            outcome,
        ),
        step.notification@ == notification_of(
            old(injector).entries()[position.index as int].uid@,
            old(injector).entries()[position.index as int].verb@,
            status_after(old(injector).entries()[position.index as int], position.attempt, outcome),
        ),
        step.next@ == run_next(
            old(injector).entries(),
            position,
            action_after(old(injector).entries()[position.index as int], position.attempt, outcome),
        ),
{
    injector.data_set.advance(position, outcome)
}

/// Whether `made` is what building a scenario from these values yields.
///
/// Without a target nothing is built. The transactions must be an array.
/// Every transaction becomes one entry, in order; the first transaction
/// that cannot be read gives the error.
pub open spec fn is_scenario_of(
    made: Result<Injector, ConfigError>,
    uid: Seq<char>,
    target: Option<Seq<char>>,
    prefix: Seq<char>,
    scenario_timeout: u64,
    transactions: JsonValue,
    delay_conf: InjectorDelayConf,
    retry_conf: InjectorRetryConf,
) -> bool {
    match target {
        None => made matches Err(error) && error@ == ConfigFailure::MissingTarget,
        Some(target) => if !(transactions is Array) {
            made matches Err(error) && error@ == ConfigFailure::WrongType("transactions"@)
        } else {
            let items = transactions->Array_0;
            match made {
                Ok(injector) => {
                    &&& injector.uid() == uid
                    &&& injector.watchdog() == watchdog_of(
                        scenario_timeout as int,
                        delay_conf.percent as int,
                    )
                    &&& injector.entries().len() == items.len()
                    &&& forall|i: int|
                        0 <= i < items.len() ==> entry_of(
                            #[trigger] items[i],
                            target,
                            prefix,
                            delay_conf,
                            retry_conf,
                        ) == Ok::<EntryValue, ConfigFailure>(injector.entries()[i]@)
                },
                Err(error) => exists|i: int|
                    {
                        &&& 0 <= i < items.len()
                        &&& entry_of(#[trigger] items[i], target, prefix, delay_conf, retry_conf)
                            == Err::<EntryValue, ConfigFailure>(error@)
                        &&& forall|j: int|
                            0 <= j < i ==> entry_of(
                                #[trigger] items[j],
                                target,
                                prefix,
                                delay_conf,
                                retry_conf,
                            ) is Ok
                    },
            }
        },
    }
}

impl Injector {
    /// Builds a scenario from its configuration.
    #[verifier::loop_isolation(false)]
    pub fn new(
        uid: &str,
        target: Option<&str>,
        prefix: &str,
        scenario_timeout: u64,
        transactions: &Json,
        delay_conf: InjectorDelayConf,
        retry_conf: InjectorRetryConf,
    ) -> (made: Result<Injector, ConfigError>)
        ensures
            is_scenario_of(
                made,
                uid@,
                match target {
                    Some(name) => Some(name@),
                    None => None,
                },
                prefix@,
                scenario_timeout,
                transactions@,
                delay_conf,
                retry_conf,
            ),
    {
        let target_api = match target {
            Some(name) => name,
            None => return Err(ConfigError::MissingTarget),
        };
        let watchdog = scale_watchdog(scenario_timeout, &delay_conf);
        let items = match transactions {
            Json::Array(items) => items,
            _ => return Err(ConfigError::WrongType(String::from_str("transactions"))),
        };
        proof {
            lemma_array_view(*items);
        }
        let ghost models = item_views(items@);
        let mut entries: Vec<InjectorEntry> = Vec::new();
        let mut index: usize = 0;
        while index < items.len()
            invariant
                index <= items.len(),
                entries.len() == index,
                models == item_views(items@),
                forall|i: int|
                    0 <= i < index ==> entry_of(
                        #[trigger] models[i],
                        target_api@,
                        prefix@,
                        delay_conf,
                        retry_conf,
                    ) == Ok::<EntryValue, ConfigFailure>(entries@[i]@),
            decreases items.len() - index,
        {
            match build_entry(&items[index], target_api, prefix, &delay_conf, &retry_conf) {
                Ok(entry) => {
                    entries.push(entry);
                },
                Err(error) => {
                    assert(entry_of(models[index as int], target_api@, prefix@, delay_conf, retry_conf)
                        == Err::<EntryValue, ConfigFailure>(error@));
                    return Err(error);
                },
            }
            index += 1;
        }
        Ok(Injector { uid: String::from_str(uid), watchdog, data_set: ScenarioState { entries } })
    }
}

/// A report has one line per entry and one header line, whatever the
/// entries' statuses.
pub proof fn lemma_report_length(uid: Seq<char>, entries: Seq<InjectorEntry>)
    ensures
        report_lines(uid, entries).len() == entries.len() + 1,
{
}

/// The report is a function of the uid and the entries alone: read twice
/// with nothing run in between, it is the same text.
pub proof fn lemma_report_idempotent(first: Injector, second: Injector)
    requires
        first.uid() == second.uid(),
        first.entries() == second.entries(),
    ensures
        first.report() == second.report(),
{
}

/// An aborted attempt stops the run where it stands: no later entry is
/// called.
pub proof fn lemma_abort_stops_run(
    entries: Seq<InjectorEntry>,
    position: RunPosition,
    failure: RunFailure,
)
    ensures
        run_next(entries, position, NextValue::Abort(failure)) == RunNextValue::Aborted(failure),
{
}

/// A finished entry hands over to the entry after it, and to no other; the
/// last entry ends the run.
pub proof fn lemma_proceed_is_sequential(entries: Seq<InjectorEntry>, position: RunPosition)
    requires
        position.index < entries.len(),
    ensures
        position.index + 1 < entries.len() ==> run_next(entries, position, NextValue::Proceed)
            == (RunNextValue::Call {
            position: RunPosition { index: (position.index + 1) as usize, attempt: 1 },
            wait: entries[position.index + 1].delay,
        }),
        position.index + 1 == entries.len() ==> run_next(entries, position, NextValue::Proceed)
            == RunNextValue::Finished,
{
}

} // verus!

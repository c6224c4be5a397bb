use crate::binding::{BindingConfig, ConfigValue};
use crate::config::{
    text_view, default_str, default_u64, get_member, get_str, member_of, required_text, text_or,
    unsigned_or, ConfigError, ConfigFailure,
};
use crate::injector::{is_scenario_of, Injector};
use crate::responder::{next_nonce, Responder};
use crate::scenario::entry_of;
use crate::json::{lemma_array_view, Json, JsonValue};
use crate::policy::{InjectorDelayConf, InjectorRetryConf};
use crate::text::{decimal, push_decimal};
use crate::verbs::{
    create_transaction_group, create_transaction_verb, grouped, is_verb_of,
    read_all, script_views, transac_of, ScriptValue, TransacValue, TransactionVerb,
    TransactionVerbCtx,
};
use vstd::prelude::*;
use vstd::string::StringExecFns;

verus! {

/// What a scenario of the configuration says of itself.
#[derive(Debug)]
pub struct ScenarioHead {
    pub uid: String,
    pub name: String,
    pub info: String,
    pub prefix: String,
    /// Nominal timeout of a run, in seconds.
    pub timeout: u64,
    pub transactions: Json,
}

/// Mathematical model of a `ScenarioHead`.
pub ghost struct HeadValue {
    pub uid: Seq<char>,
    pub name: Seq<char>,
    pub info: Seq<char>,
    pub prefix: Seq<char>,
    pub timeout: u64,
    pub transactions: JsonValue,
}

impl View for ScenarioHead {
    type V = HeadValue;

    open spec fn view(&self) -> HeadValue {
        HeadValue {
            uid: self.uid@,
            name: self.name@,
            info: self.info@,
            prefix: self.prefix@,
            timeout: self.timeout,
            transactions: self.transactions@,
        }
    }
}

/// The uid of the scenario at position `index`: the forced one, or else
/// its own uid, a colon and the position.
pub open spec fn scenario_uid_of(jscenario: JsonValue, index: nat, forced: Option<Seq<char>>)
    -> Result<Seq<char>, ConfigFailure> {
    match forced {
        Some(uid) => Ok(uid),
        None => match required_text(jscenario, "uid"@) {
            Err(failure) => Err(failure),
            Ok(uid) => Ok(uid + ":"@ + decimal(index)),
        },
    }
}

/// The transactions of a scenario: mandatory, and an array.
pub open spec fn transactions_of(jscenario: JsonValue) -> Result<JsonValue, ConfigFailure> {
    match member_of(jscenario, "transactions"@) {
        None => Err(ConfigFailure::MissingKey("transactions"@)),
        Some(transactions) => if transactions is Array {
            Ok(transactions)
        } else {
            Err(ConfigFailure::WrongType("transactions"@))
        },
    }
}

/// What the scenario at position `index` says of itself to an injector.
///
/// Name and prefix default to the uid, the info to nothing, the timeout to
/// one second per transaction. The error is that of the first of uid, name,
/// info, prefix, transactions and timeout, in that order, that cannot be
/// read.
pub open spec fn injector_head_of(jscenario: JsonValue, index: nat, forced: Option<Seq<char>>)
    -> Result<HeadValue, ConfigFailure> {
    match scenario_uid_of(jscenario, index, forced) {
        Err(failure) => Err(failure),
        Ok(uid) => match text_or(jscenario, "name"@, uid) {
            Err(failure) => Err(failure),
            Ok(name) => match text_or(jscenario, "info"@, ""@) {
                Err(failure) => Err(failure),
                Ok(info) => match text_or(jscenario, "prefix"@, uid) {
                    Err(failure) => Err(failure),
                    Ok(prefix) => match transactions_of(jscenario) {
                        Err(failure) => Err(failure),
                        Ok(transactions) => match unsigned_or(
                            jscenario,
                            "timeout"@,
                            transactions->Array_0.len() as int,
                        ) {
                            Err(failure) => Err(failure),
                            Ok(timeout) => Ok(
                                HeadValue {
                                    uid,
                                    name,
                                    info,
                                    prefix,
                                    timeout: timeout as u64,
                                    transactions,
                                },
                            ),
                        },
                    },
                },
            },
        },
    }
}

/// What the scenario at position `index` says of itself to a responder:
/// its uid, its name, which defaults to the uid, and its transactions.
pub open spec fn responder_head_of(jscenario: JsonValue, index: nat, forced: Option<Seq<char>>)
    -> Result<HeadValue, ConfigFailure> {
    match scenario_uid_of(jscenario, index, forced) {
        Err(failure) => Err(failure),
        Ok(uid) => match text_or(jscenario, "name"@, uid) {
            Err(failure) => Err(failure),
            Ok(name) => match transactions_of(jscenario) {
                Err(failure) => Err(failure),
                Ok(transactions) => Ok(
                    HeadValue {
                        uid,
                        name,
                        info: Seq::empty(),
                        prefix: uid,
                        timeout: 0,
                        transactions,
                    },
                ),
            },
        },
    }
}

/// The model of a read head.
pub open spec fn head_view(read: Result<ScenarioHead, ConfigError>) -> Result<
    HeadValue,
    ConfigFailure,
> {
    match read {
        Ok(head) => Ok(head@),
        Err(error) => Err(error@),
    }
}

/// The model of a forced uid.
pub open spec fn forced_view(forced: Option<&str>) -> Option<Seq<char>> {
    match forced {
        Some(uid) => Some(uid@),
        None => None,
    }
}

/// Reads the uid of the scenario at position `index`.
fn read_scenario_uid(jscenario: &Json, index: usize, forced: Option<&str>) -> (read: Result<
    String,
    ConfigError,
>)
    ensures
        text_view(read) == scenario_uid_of(
            jscenario@,
            index as nat,
            forced_view(forced),
        ),
{
    match forced {
        Some(uid) => Ok(String::from_str(uid)),
        None => match get_str(jscenario, "uid") {
            Err(error) => Err(error),
            Ok(mut uid) => {
                uid.append(":");
                push_decimal(&mut uid, index as u64);
                Ok(uid)
            },
        },
    }
}

/// Reads the transactions of a scenario.
fn read_transactions(jscenario: &Json) -> (read: Result<Json, ConfigError>)
    ensures
        match read {
            Ok(transactions) => transactions_of(jscenario@) == Ok::<JsonValue, ConfigFailure>(
                transactions@,
            ),
            Err(error) => transactions_of(jscenario@) == Err::<JsonValue, ConfigFailure>(error@),
        },
{
    match get_member(jscenario, "transactions") {
        None => Err(ConfigError::MissingKey(String::from_str("transactions"))),
        Some(transactions) => match transactions {
            Json::Array(_) => Ok(transactions.clone()),
            _ => Err(ConfigError::WrongType(String::from_str("transactions"))),
        },
    }
}

/// Reads what the scenario at position `index` says of itself to an
/// injector.
pub fn read_injector_head(jscenario: &Json, index: usize, forced: Option<&str>) -> (read: Result<
    ScenarioHead,
    ConfigError,
>)
    ensures
        head_view(read) == injector_head_of(jscenario@, index as nat, forced_view(forced)),
{
    let uid = match read_scenario_uid(jscenario, index, forced) {
        Ok(uid) => uid,
        Err(error) => return Err(error),
    };
    let name = match default_str(jscenario, "name", uid.as_str()) {
        Ok(name) => name,
        Err(error) => return Err(error),
    };
    let info = match default_str(jscenario, "info", "") {
        Ok(info) => info,
        Err(error) => return Err(error),
    };
    let prefix = match default_str(jscenario, "prefix", uid.as_str()) {
        Ok(prefix) => prefix,
        Err(error) => return Err(error),
    };
    let transactions = match read_transactions(jscenario) {
        Ok(transactions) => transactions,
        Err(error) => return Err(error),
    };
    let count: usize = match &transactions {
        Json::Array(items) => {
            proof {
                lemma_array_view(*items);
            }
            items.len()
        },
        _ => 0,
    };
    let timeout = match default_u64(jscenario, "timeout", count as u64) {
        Ok(timeout) => timeout,
        Err(error) => return Err(error),
    };
    Ok(ScenarioHead { uid, name, info, prefix, timeout, transactions })
}

/// Reads what the scenario at position `index` says of itself to a
/// responder.
pub fn read_responder_head(jscenario: &Json, index: usize, forced: Option<&str>) -> (read: Result<
    ScenarioHead,
    ConfigError,
>)
    ensures
        head_view(read) == responder_head_of(jscenario@, index as nat, forced_view(forced)),
{
    let uid = match read_scenario_uid(jscenario, index, forced) {
        Ok(uid) => uid,
        Err(error) => return Err(error),
    };
    let name = match default_str(jscenario, "name", uid.as_str()) {
        Ok(name) => name,
        Err(error) => return Err(error),
    };
    let transactions = match read_transactions(jscenario) {
        Ok(transactions) => transactions,
        Err(error) => return Err(error),
    };
    let prefix = uid.clone();
    Ok(ScenarioHead { uid, name, info: String::new(), prefix, timeout: 0, transactions })
}

/// Whether every one of `items` can be read as a transaction of the verb
/// surface.
pub open spec fn all_read(items: Seq<JsonValue>) -> bool {
    forall|i: int| 0 <= i < items.len() ==> transac_of(#[trigger] items[i]) is Ok
}

/// Whether `failure` is that of the first of `items` that cannot be read as
/// a transaction of the verb surface.
pub open spec fn first_unread(items: Seq<JsonValue>, failure: ConfigFailure) -> bool {
    exists|i: int|
        {
            &&& 0 <= i < items.len()
            &&& transac_of(#[trigger] items[i]) == Err::<TransacValue, ConfigFailure>(failure)
            &&& forall|j: int| 0 <= j < i ==> transac_of(#[trigger] items[j]) is Ok
        }
}

/// Whether `verbs` are the verbs of `scripts`, one each, in order.
pub open spec fn verbs_of_scripts(
    verbs: Seq<TransactionVerb>,
    scripts: Seq<ScriptValue>,
    context: TransactionVerbCtx,
    target: Option<Seq<char>>,
) -> bool {
    &&& verbs.len() == scripts.len()
    &&& forall|k: int|
        0 <= k < scripts.len() ==> is_verb_of(
            Ok::<TransactionVerb, ConfigError>(#[trigger] verbs[k]),
            scripts[k],
            context,
            target,
        )
}

/// Whether `made` is the verb surface of `transactions` for the given side.
///
/// The transactions must be an array, and each of them readable. They are
/// grouped by verb, and every script becomes one verb. An injector's verbs
/// need a target.
pub open spec fn is_surface_of(
    made: Result<Vec<TransactionVerb>, ConfigError>,
    transactions: JsonValue,
    context: TransactionVerbCtx,
    target: Option<Seq<char>>,
) -> bool {
    if !(transactions is Array) {
        made matches Err(error) && error@ == ConfigFailure::WrongType("transactions"@)
    } else {
        let items = transactions->Array_0;
        match made {
            Ok(verbs) => {
                &&& all_read(items)
                &&& exists|scripts: Seq<ScriptValue>|
                    {
                        &&& #[trigger] grouped(scripts, read_all(items), items.len() as int)
                        &&& verbs_of_scripts(verbs@, scripts, context, target)
                    }
            },
            Err(error) => {
                ||| first_unread(items, error@)
                ||| {
                    &&& all_read(items)
                    &&& error@ == ConfigFailure::MissingTarget
                    &&& context == TransactionVerbCtx::Injector
                    &&& target is None
                    &&& exists|scripts: Seq<ScriptValue>|
                        {
                            &&& #[trigger] grouped(scripts, read_all(items), items.len() as int)
                            &&& scripts.len() > 0
                        }
                }
            },
        }
    }
}

/// Builds the verb surface of `transactions` for the given side.
#[verifier::loop_isolation(false)]
pub fn build_surface(transactions: &Json, context: TransactionVerbCtx, target: Option<&str>)
    -> (made: Result<Vec<TransactionVerb>, ConfigError>)
    ensures
        is_surface_of(made, transactions@, context, forced_view(target)),
{
    let groups = match create_transaction_group(transactions) {
        Ok(groups) => groups,
        Err(error) => return Err(error),
    };
    let ghost items = transactions@->Array_0;
    let ghost scripts = script_views(groups@);
    let mut verbs: Vec<TransactionVerb> = Vec::new();
    let mut index: usize = 0;
    while index < groups.len()
        invariant
            index <= groups.len(),
            verbs.len() == index,
            forall|k: int|
                0 <= k < index ==> is_verb_of(
                    Ok::<TransactionVerb, ConfigError>(#[trigger] verbs@[k]),
                    scripts[k],
                    context,
                    forced_view(target),
                ),
        decreases groups.len() - index,
    {
        match create_transaction_verb(&groups[index], context, target) {
            Ok(verb) => verbs.push(verb),
            Err(error) => {
                assert(grouped(scripts, read_all(items), items.len() as int));
                return Err(error);
            },
        }
        index += 1;
    }
    assert(grouped(scripts, read_all(items), items.len() as int));
    Ok(verbs)
}

/// A scenario as an injector registers it: its name and info, the scenario
/// itself, and its verbs for invocation by hand.
#[derive(Debug)]
pub struct InjectorScenario {
    pub name: String,
    pub info: String,
    pub injector: Injector,
    pub verbs: Vec<TransactionVerb>,
}

/// Whether every one of `items` describes an entry.
pub open spec fn all_entries(
    items: Seq<JsonValue>,
    target: Seq<char>,
    prefix: Seq<char>,
    delay_conf: InjectorDelayConf,
    retry_conf: InjectorRetryConf,
) -> bool {
    forall|i: int|
        0 <= i < items.len() ==> entry_of(
            #[trigger] items[i],
            target,
            prefix,
            delay_conf,
            retry_conf,
        ) is Ok
}

/// Whether `made` is what registering the scenario at position `index`
/// with an injector yields.
///
/// The scenario is read, then built, then given its verbs; the first of
/// these steps that fails gives the error.
pub open spec fn is_injector_scenario_of(
    made: Result<InjectorScenario, ConfigError>,
    jscenario: JsonValue,
    index: nat,
    forced: Option<Seq<char>>,
    target: Seq<char>,
    delay_conf: InjectorDelayConf,
    retry_conf: InjectorRetryConf,
) -> bool {
    match injector_head_of(jscenario, index, forced) {
        Err(failure) => made matches Err(error) && error@ == failure,
        Ok(head) => match made {
            Ok(scenario) => {
                &&& scenario.name@ == head.name
                &&& scenario.info@ == head.info
                &&& is_scenario_of(
                    Ok::<Injector, ConfigError>(scenario.injector),
                    head.uid,
                    Some(target),
                    head.prefix,
                    head.timeout,
                    head.transactions,
                    delay_conf,
                    retry_conf,
                )
                &&& is_surface_of(
                    Ok::<Vec<TransactionVerb>, ConfigError>(scenario.verbs),
                    head.transactions,
                    TransactionVerbCtx::Injector,
                    Some(target),
                )
            },
            Err(error) => {
                ||| is_scenario_of(
                    Err::<Injector, ConfigError>(error),
                    head.uid,
                    Some(target),
                    head.prefix,
                    head.timeout,
                    head.transactions,
                    delay_conf,
                    retry_conf,
                )
                ||| {
                    &&& all_entries(
                        head.transactions->Array_0,
                        target,
                        head.prefix,
                        delay_conf,
                        retry_conf,
                    )
                    &&& is_surface_of(
                        Err::<Vec<TransactionVerb>, ConfigError>(error),
                        head.transactions,
                        TransactionVerbCtx::Injector,
                        Some(target),
                    )
                }
            },
        },
    }
}

/// Registers the scenario at position `index` with an injector.
pub fn register_injector_scenario(
    jscenario: &Json,
    index: usize,
    forced: Option<&str>,
    target: &str,
    delay_conf: InjectorDelayConf,
    retry_conf: InjectorRetryConf,
) -> (made: Result<InjectorScenario, ConfigError>)
    ensures
        is_injector_scenario_of(
            made,
            jscenario@,
            index as nat,
            forced_view(forced),
            target@,
            delay_conf,
            retry_conf,
        ),
{
    let head = match read_injector_head(jscenario, index, forced) {
        Ok(head) => head,
        Err(error) => return Err(error),
    };
    let injector = match Injector::new(
        head.uid.as_str(),
        Some(target),
        head.prefix.as_str(),
        head.timeout,
        &head.transactions,
        delay_conf,
        retry_conf,
    ) {
        Ok(injector) => injector,
        Err(error) => return Err(error),
    };
    let verbs = match build_surface(
        &head.transactions,
        TransactionVerbCtx::Injector,
        Some(target),
    ) {
        Ok(verbs) => verbs,
        Err(error) => return Err(error),
    };
    Ok(InjectorScenario { name: head.name, info: head.info, injector, verbs })
}

/// Whether the scenario at position `index` can be registered with an
/// injector: it can be read, and so can each of its transactions, as an
/// entry and for the verb surface.
pub open spec fn injector_scenario_accepted(
    jscenario: JsonValue,
    index: nat,
    forced: Option<Seq<char>>,
    target: Seq<char>,
    delay_conf: InjectorDelayConf,
    retry_conf: InjectorRetryConf,
) -> bool {
    &&& injector_head_of(jscenario, index, forced) matches Ok(head)
    &&& all_entries(head.transactions->Array_0, target, head.prefix, delay_conf, retry_conf)
    &&& all_read(head.transactions->Array_0)
}

/// Whether `made` is what registering the scenarios of `config` with an
/// injector yields.
///
/// A target is needed. The scenarios are registered in order, and the
/// first that cannot be gives the error.
pub open spec fn is_injector_registration(
    made: Result<Vec<InjectorScenario>, ConfigError>,
    config: ConfigValue,
    forced: Option<Seq<char>>,
) -> bool {
    match config.target {
        None => made matches Err(error) && error@ == ConfigFailure::MissingTarget,
        Some(target) => if !(config.scenarios is Array) {
            made matches Err(error) && error@ == ConfigFailure::WrongType("scenarios"@)
        } else {
            let items = config.scenarios->Array_0;
            match made {
                Ok(list) => {
                    &&& list@.len() == items.len()
                    &&& forall|i: int|
                        0 <= i < items.len() ==> is_injector_scenario_of(
                            Ok::<InjectorScenario, ConfigError>(list@[i]),
                            #[trigger] items[i],
                            i as nat,
                            forced,
                            target,
                            config.delay_conf,
                            config.retry_conf,
                        )
                },
                Err(error) => exists|i: int|
                    {
                        &&& 0 <= i < items.len()
                        &&& is_injector_scenario_of(
                            Err::<InjectorScenario, ConfigError>(error),
                            #[trigger] items[i],
                            i as nat,
                            forced,
                            target,
                            config.delay_conf,
                            config.retry_conf,
                        )
                        &&& forall|j: int|
                            0 <= j < i ==> injector_scenario_accepted(
                                #[trigger] items[j],
                                j as nat,
                                forced,
                                target,
                                config.delay_conf,
                                config.retry_conf,
                            )
                    },
            }
        },
    }
}

/// Registers the scenarios of `config` with an injector. A forced uid
/// replaces the uid of every scenario.
#[verifier::loop_isolation(false)]
pub fn register_injector(config: &BindingConfig, forced: Option<&str>) -> (made: Result<
    Vec<InjectorScenario>,
    ConfigError,
>)
    ensures
        is_injector_registration(made, config@, forced_view(forced)),
{
    let target = match &config.target {
        Some(name) => name.as_str(),
        None => return Err(ConfigError::MissingTarget),
    };
    let items = match &config.scenarios {
        Json::Array(items) => items,
        _ => return Err(ConfigError::WrongType(String::from_str("scenarios"))),
    };
    proof {
        lemma_array_view(*items);
    }
    let ghost models = config@.scenarios->Array_0;
    let mut list: Vec<InjectorScenario> = Vec::new();
    let mut index: usize = 0;
    while index < items.len()
        invariant
            index <= items.len(),
            list.len() == index,
            forall|i: int|
                0 <= i < index ==> is_injector_scenario_of(
                    Ok::<InjectorScenario, ConfigError>(list@[i]),
                    #[trigger] models[i],
                    i as nat,
                    forced_view(forced),
                    target@,
                    config.delay_conf,
                    config.retry_conf,
                ),
        decreases items.len() - index,
    {
        match register_injector_scenario(
            &items[index],
            index,
            forced,
            target,
            config.delay_conf,
            config.retry_conf,
        ) {
            Ok(scenario) => list.push(scenario),
            Err(error) => {
                assert(is_injector_scenario_of(
                    Err::<InjectorScenario, ConfigError>(error),
                    models[index as int],
                    index as nat,
                    forced_view(forced),
                    target@,
                    config.delay_conf,
                    config.retry_conf,
                ));
                assert forall|j: int| 0 <= j < index implies injector_scenario_accepted(
                    #[trigger] models[j],
                    j as nat,
                    forced_view(forced),
                    target@,
                    config.delay_conf,
                    config.retry_conf,
                ) by {
                    assert(is_injector_scenario_of(
                        Ok::<InjectorScenario, ConfigError>(list@[j]),
                        models[j],
                        j as nat,
                        forced_view(forced),
                        target@,
                        config.delay_conf,
                        config.retry_conf,
                    ));
                }
                return Err(error);
            },
        }
        index += 1;
    }
    Ok(list)
}

/// A scenario as a responder registers it: its uid, its name and its verbs.
#[derive(Debug)]
pub struct ResponderScenario {
    pub uid: String,
    pub name: String,
    pub verbs: Vec<TransactionVerb>,
}

/// Whether `made` is what registering the scenario at position `index`
/// with a responder yields.
pub open spec fn is_responder_scenario_of(
    made: Result<ResponderScenario, ConfigError>,
    jscenario: JsonValue,
    index: nat,
    forced: Option<Seq<char>>,
) -> bool {
    match responder_head_of(jscenario, index, forced) {
        Err(failure) => made matches Err(error) && error@ == failure,
        Ok(head) => match made {
            Ok(scenario) => {
                &&& scenario.uid@ == head.uid
                &&& scenario.name@ == head.name
                &&& is_surface_of(
                    Ok::<Vec<TransactionVerb>, ConfigError>(scenario.verbs),
                    head.transactions,
                    TransactionVerbCtx::Responder,
                    None,
                )
            },
            Err(error) => is_surface_of(
                Err::<Vec<TransactionVerb>, ConfigError>(error),
                head.transactions,
                TransactionVerbCtx::Responder,
                None,
            ),
        },
    }
}

/// Registers the scenario at position `index` with a responder.
pub fn register_responder_scenario(jscenario: &Json, index: usize, forced: Option<&str>) -> (made:
    Result<ResponderScenario, ConfigError>)
    ensures
        is_responder_scenario_of(made, jscenario@, index as nat, forced_view(forced)),
{
    let head = match read_responder_head(jscenario, index, forced) {
        Ok(head) => head,
        Err(error) => return Err(error),
    };
    let verbs = match build_surface(&head.transactions, TransactionVerbCtx::Responder, None) {
        Ok(verbs) => verbs,
        Err(error) => return Err(error),
    };
    Ok(ResponderScenario { uid: head.uid, name: head.name, verbs })
}

/// The verb that starts a new session of a responder.
#[derive(Debug)]
pub struct ResponderReset {
    pub verb: String,
    pub info: String,
}

/// What a responder registers: its session, its reset verb and its
/// scenarios.
#[derive(Debug)]
pub struct ResponderApi {
    pub responder: Responder,
    pub reset: ResponderReset,
    pub scenarios: Vec<ResponderScenario>,
}

/// Whether the scenario at position `index` can be registered with a
/// responder: it can be read, and so can each of its transactions.
pub open spec fn responder_scenario_accepted(
    jscenario: JsonValue,
    index: nat,
    forced: Option<Seq<char>>,
) -> bool {
    &&& responder_head_of(jscenario, index, forced) matches Ok(head)
    &&& all_read(head.transactions->Array_0)
}

/// Whether `made` is what registering the scenarios of `config` with a
/// responder yields.
///
/// The session is fresh and loops as configured. The scenarios are
/// registered in order, and the first that cannot be gives the error.
pub open spec fn is_responder_registration(
    made: Result<ResponderApi, ConfigError>,
    config: ConfigValue,
    forced: Option<Seq<char>>,
) -> bool {
    if !(config.scenarios is Array) {
        made matches Err(error) && error@ == ConfigFailure::WrongType("scenarios"@)
    } else {
        let items = config.scenarios->Array_0;
        match made {
            Ok(api) => {
                &&& api.responder.nonce() == 0
                &&& api.responder.looping() == config.loop_reset
                &&& api.reset.verb@ == "reset"@
                &&& api.reset.info@ == "scenario sequence counter"@
                &&& api.scenarios@.len() == items.len()
                &&& forall|i: int|
                    0 <= i < items.len() ==> is_responder_scenario_of(
                        Ok::<ResponderScenario, ConfigError>(api.scenarios@[i]),
                        #[trigger] items[i],
                        i as nat,
                        forced,
                    )
            },
            Err(error) => exists|i: int|
                {
                    &&& 0 <= i < items.len()
                    &&& is_responder_scenario_of(
                        Err::<ResponderScenario, ConfigError>(error),
                        #[trigger] items[i],
                        i as nat,
                        forced,
                    )
                    &&& forall|j: int|
                        0 <= j < i ==> responder_scenario_accepted(
                            #[trigger] items[j],
                            j as nat,
                            forced,
                        )
                },
        }
    }
}

/// Registers the scenarios of `config` with a responder. A forced uid
/// replaces the uid of every scenario.
#[verifier::loop_isolation(false)]
pub fn register_responder(config: &BindingConfig, forced: Option<&str>) -> (made: Result<
    ResponderApi,
    ConfigError,
>)
    ensures
        is_responder_registration(made, config@, forced_view(forced)),
{
    let responder = Responder::new(config.loop_reset);
    let reset = ResponderReset {
        verb: String::from_str("reset"),
        info: String::from_str("scenario sequence counter"),
    };
    let items = match &config.scenarios {
        Json::Array(items) => items,
        _ => return Err(ConfigError::WrongType(String::from_str("scenarios"))),
    };
    proof {
        lemma_array_view(*items);
    }
    let ghost models = config@.scenarios->Array_0;
    let mut scenarios: Vec<ResponderScenario> = Vec::new();
    let mut index: usize = 0;
    while index < items.len()
        invariant
            index <= items.len(),
            scenarios.len() == index,
            forall|i: int|
                0 <= i < index ==> is_responder_scenario_of(
                    Ok::<ResponderScenario, ConfigError>(scenarios@[i]),
                    #[trigger] models[i],
                    i as nat,
                    forced_view(forced),
                ),
        decreases items.len() - index,
    {
        match register_responder_scenario(&items[index], index, forced) {
            Ok(scenario) => scenarios.push(scenario),
            Err(error) => {
                assert(is_responder_scenario_of(
                    Err::<ResponderScenario, ConfigError>(error),
                    models[index as int],
                    index as nat,
                    forced_view(forced),
                ));
                assert forall|j: int| 0 <= j < index implies responder_scenario_accepted(
                    #[trigger] models[j],
                    j as nat,
                    forced_view(forced),
                ) by {
                    assert(is_responder_scenario_of(
                        Ok::<ResponderScenario, ConfigError>(scenarios@[j]),
                        models[j],
                        j as nat,
                        forced_view(forced),
                    ));
                }
                return Err(error);
            },
        }
        index += 1;
    }
    Ok(ResponderApi { responder, reset, scenarios })
}

/// Serves a call of the reset verb: starts a new session.
pub fn responder_reset_cb(responder: &mut Responder)
    ensures
        final(responder).nonce() == next_nonce(old(responder).nonce()),
        final(responder).nonce() != old(responder).nonce(),
        final(responder).looping() == old(responder).looping(),
{
    responder.reset();
}

} // verus!

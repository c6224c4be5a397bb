use crate::config::{
    text_view, default_u64, get_member, get_str, member_of, optional_str, required_text, text_of,
    unsigned_or, ConfigError, ConfigFailure,
};
use crate::executor::InjectorEntry;
use crate::json::{item_views, Json, JsonValue};
use crate::policy::{
    retry_conf_of, InjectorDelayConf, InjectorRetryConf, DEFAULT_CALL_DELAY,
    DEFAULT_MIN_TIMEOUT,
};
use crate::status::{SimulationStatus, StatusValue};
use crate::text::{dashes_to_underscores, underscored};
use vstd::prelude::*;
use vstd::string::StringExecFns;

verus! {

/// Mathematical model of an `InjectorEntry`.
pub ghost struct EntryValue {
    pub uid: Seq<char>,
    pub target: Seq<char>,
    pub verb: Seq<char>,
    pub queries: Seq<JsonValue>,
    pub expects: Seq<JsonValue>,
    pub status: StatusValue,
    pub retry: InjectorRetryConf,
    pub delay: u64,
    pub sequence: usize,
}

impl View for InjectorEntry {
    type V = EntryValue;

    open spec fn view(&self) -> EntryValue {
        EntryValue {
            uid: self.uid@,
            target: self.target@,
            verb: self.verb@,
            queries: item_views(self.queries@),
            expects: item_views(self.expects@),
            status: self.status@,
            retry: self.retry,
            delay: self.delay,
            sequence: self.sequence,
        }
    }
}

/// The verb of a transaction that names none, inside its scenario's group:
/// the uid with dashes as underscores, then `_req`.
pub open spec fn default_verb(uid: Seq<char>) -> Seq<char> {
    underscored(uid) + "_req"@
}

/// The verb of a transaction that names none, as the injector calls it: the
/// prefix, a colon, the uid with dashes as underscores, then `_req`.
pub open spec fn prefixed_verb(prefix: Seq<char>, uid: Seq<char>) -> Seq<char> {
    prefix + ":"@ + underscored(uid) + "_req"@
}

/// The verb of a transaction inside its scenario's group: the one it names,
/// or the default one made of its uid.
pub open spec fn verb_of(transac: JsonValue) -> Result<Seq<char>, ConfigFailure> {
    match required_text(transac, "uid"@) {
        Err(failure) => Err(failure),
        Ok(uid) => match text_of(transac, "verb"@) {
            Err(failure) => Err(failure),
            Ok(Some(verb)) => Ok(verb),
            Ok(None) => Ok(default_verb(uid)),
        },
    }
}

/// The verb of a transaction inside its scenario's group.
pub fn transaction_get_verb(jsonc: &Json) -> (verb: Result<String, ConfigError>)
    ensures
        text_view(verb) == verb_of(jsonc@),
{
    let uid = match get_str(jsonc, "uid") {
        Ok(uid) => uid,
        Err(error) => return Err(error),
    };
    match optional_str(jsonc, "verb") {
        Err(error) => Err(error),
        Ok(Some(verb)) => Ok(verb),
        Ok(None) => {
            let mut name = dashes_to_underscores(uid.as_str());
            name.append("_req");
            Ok(name)
        },
    }
}

/// The payloads under `key`: the one value there, or none.
pub open spec fn optional_payload(transac: JsonValue, key: Seq<char>) -> Seq<JsonValue> {
    match member_of(transac, key) {
        Some(payload) => seq![payload],
        None => Seq::empty(),
    }
}

/// The retry policy of a transaction: its own under `retry`, read with the
/// scenario's delay policy, or the scenario's.
pub open spec fn retry_of(
    transac: JsonValue,
    delay_conf: InjectorDelayConf,
    retry_conf: InjectorRetryConf,
) -> Result<InjectorRetryConf, ConfigFailure> {
    match member_of(transac, "retry"@) {
        None => Ok(retry_conf),
        Some(own) => retry_conf_of(own, delay_conf),
    }
}

/// The entry that a transaction of the configuration describes.
///
/// The uid is mandatory. The nominal delay defaults to the call delay and
/// is scaled by the delay policy. The verb defaults to the prefixed one.
/// Query and expectation are optional, one payload each. The entry starts
/// out as not run. The error is that of the first of uid, delay, retry and
/// verb, in that order, that cannot be read.
pub open spec fn entry_of(
    transac: JsonValue,
    target: Seq<char>,
    prefix: Seq<char>,
    delay_conf: InjectorDelayConf,
    retry_conf: InjectorRetryConf,
) -> Result<EntryValue, ConfigFailure> {
    match required_text(transac, "uid"@) {
        Err(failure) => Err(failure),
        Ok(uid) => match unsigned_or(transac, "delay"@, DEFAULT_CALL_DELAY as int) {
            Err(failure) => Err(failure),
            Ok(delay) => match retry_of(transac, delay_conf, retry_conf) {
                Err(failure) => Err(failure),
                Ok(retry) => match text_of(transac, "verb"@) {
                    Err(failure) => Err(failure),
                    Ok(verb) => Ok(
                        EntryValue {
                            uid,
                            target,
                            verb: match verb {
                                Some(named) => named,
                                None => prefixed_verb(prefix, uid),
                            },
                            queries: optional_payload(transac, "query"@),
                            expects: optional_payload(transac, "expect"@),
                            status: StatusValue::Skip,
                            retry,
                            delay: delay_conf.duration_of(delay) as u64,
                            sequence: 0,
                        },
                    ),
                },
            },
        },
    }
}

/// The model of a built entry.
pub open spec fn built_view(built: Result<InjectorEntry, ConfigError>) -> Result<
    EntryValue,
    ConfigFailure,
> {
    match built {
        Ok(entry) => Ok(entry@),
        Err(error) => Err(error@),
    }
}

/// The payloads under `key` of a transaction.
fn read_payload(transac: &Json, key: &str) -> (payloads: Vec<Json>)
    ensures
        item_views(payloads@) == optional_payload(transac@, key@),
{
    let mut payloads: Vec<Json> = Vec::new();
    match get_member(transac, key) {
        Some(payload) => {
            payloads.push(payload.clone());
            assert(item_views(payloads@) =~= seq![payload@]);
        },
        None => {
            assert(item_views(payloads@) =~= Seq::<JsonValue>::empty());
        },
    }
    payloads
}

/// Builds the entry that a transaction of the configuration describes.
pub fn build_entry(
    transac: &Json,
    target: &str,
    prefix: &str,
    delay_conf: &InjectorDelayConf,
    retry_conf: &InjectorRetryConf,
) -> (built: Result<InjectorEntry, ConfigError>)
    ensures
        built_view(built) == entry_of(transac@, target@, prefix@, *delay_conf, *retry_conf),
{
    let uid = match get_str(transac, "uid") {
        Ok(uid) => uid,
        Err(error) => return Err(error),
    };
    let delay = match default_u64(transac, "delay", DEFAULT_CALL_DELAY) {
        Ok(delay) => delay,
        Err(error) => return Err(error),
    };
    let retry = match get_member(transac, "retry") {
        None => *retry_conf,
        Some(own) => match InjectorRetryConf::from_jsonc(own, delay_conf) {
            Ok(retry) => retry,
            Err(error) => return Err(error),
        },
    };
    let verb = match optional_str(transac, "verb") {
        Err(error) => return Err(error),
        Ok(Some(named)) => named,
        Ok(None) => {
            let mut name = String::from_str(prefix);
            name.append(":");
            let plain = dashes_to_underscores(uid.as_str());
            name.append(plain.as_str());
            name.append("_req");
            name
        },
    };
    let queries = read_payload(transac, "query");
    let expects = read_payload(transac, "expect");
    Ok(
        InjectorEntry {
            uid,
            target: String::from_str(target),
            verb,
            queries,
            expects,
            status: SimulationStatus::Skip,
            retry,
            delay: delay_conf.get_duration(delay),
            sequence: 0,
        },
    )
}

/// The watchdog, in seconds, of a scenario with a nominal timeout of
/// `timeout` seconds: scaled to `percent` hundredths, never below the
/// minimal timeout, and never above what 64 bits hold.
pub open spec fn watchdog_of(timeout: int, percent: int) -> int {
    let scaled = timeout * percent / 100;
    if scaled < DEFAULT_MIN_TIMEOUT {
        DEFAULT_MIN_TIMEOUT as int
    } else if scaled > u64::MAX {
        u64::MAX as int
    } else {
        scaled
    }
}

/// The watchdog, in seconds, of a scenario with a nominal timeout of
/// `timeout` seconds.
pub fn scale_watchdog(timeout: u64, delay_conf: &InjectorDelayConf) -> (watchdog: u64)
    ensures
        watchdog == watchdog_of(timeout as int, delay_conf.percent as int),
{
    assert(timeout * delay_conf.percent <= u64::MAX * u64::MAX) by (nonlinear_arith)
        requires
            timeout <= u64::MAX,
            delay_conf.percent <= u64::MAX,
    ;
    let product: u128 = (timeout as u128) * (delay_conf.percent as u128);
    let scaled: u128 = product / 100;
    if scaled < DEFAULT_MIN_TIMEOUT as u128 {
        DEFAULT_MIN_TIMEOUT
    } else if scaled > u64::MAX as u128 {
        u64::MAX
    } else {
        scaled as u64
    }
}

/// An entry built from a transaction holds at most one query and at most
/// one expectation, and allows at least one attempt when the scenario's own
/// policy does.
pub proof fn lemma_entry_is_well_formed(
    transac: JsonValue,
    target: Seq<char>,
    prefix: Seq<char>,
    delay_conf: InjectorDelayConf,
    retry_conf: InjectorRetryConf,
)
    requires
        retry_conf.wf(),
    ensures
        entry_of(transac, target, prefix, delay_conf, retry_conf) matches Ok(entry) ==> {
            &&& entry.queries.len() <= 1
            &&& entry.expects.len() <= 1
            &&& entry.retry.wf()
            &&& entry.status == StatusValue::Skip
        },
{
}

} // verus!

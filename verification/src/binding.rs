use crate::config::{
    default_bool, default_str, default_u64, flag_or, get_member, member_of, optional_str,
    text_of, text_or, unsigned_or, ConfigError, ConfigFailure,
};
use crate::json::{Json, JsonValue};
use crate::policy::{
    delay_conf_of, retry_conf_of, InjectorDelayConf, InjectorRetryConf, DEFAULT_CALL_DELAY,
    DEFAULT_CALL_TIMEOUT, DEFAULT_DELAY_MAX, DEFAULT_DELAY_MIN, DEFAULT_DELAY_PERCENT,
};
use crate::register::{
    forced_view, injector_scenario_accepted, is_injector_registration,
    is_injector_scenario_of, is_responder_registration, register_injector, register_responder,
    InjectorScenario, ResponderApi,
};
use crate::text::{lowercase_of, parse_u32, parsed_u32, same_text, to_lowercase};
use vstd::prelude::*;
use vstd::string::StringExecFns;

verus! {

/// The side that the engine plays.
#[derive(Clone, Copy, Debug, PartialEq, Eq, Structural)]
pub enum SimulationMode {
    Responder,
    Injector,
}

/// The mode that a lower-case name stands for.
pub open spec fn mode_named(lower: Seq<char>) -> Result<SimulationMode, ConfigFailure> {
    if lower == "injector"@ {
        Ok(SimulationMode::Injector)
    } else if lower == "responder"@ {
        Ok(SimulationMode::Responder)
    } else {
        Err(ConfigFailure::InvalidMode(lower))
    }
}

/// The model of a read mode.
pub open spec fn mode_view(read: Result<SimulationMode, ConfigError>) -> Result<
    SimulationMode,
    ConfigFailure,
> {
    match read {
        Ok(mode) => Ok(mode),
        Err(error) => Err(error@),
    }
}

/// The mode that the lower-case name `lower` stands for.
pub fn mode_of(lower: &str) -> (read: Result<SimulationMode, ConfigError>)
    ensures
        mode_view(read) == mode_named(lower@),
{
    if same_text(lower, "injector") {
        Ok(SimulationMode::Injector)
    } else if same_text(lower, "responder") {
        Ok(SimulationMode::Responder)
    } else {
        Err(ConfigError::InvalidMode(String::from_str(lower)))
    }
}

/// The mode of the engine: the one that the environment asks for, or else
/// the one under `simulation`, or else the injector; names count without
/// regard to case.
pub open spec fn simulation_of(jconf: JsonValue, asked: Option<Seq<char>>) -> Result<
    SimulationMode,
    ConfigFailure,
> {
    match asked {
        Some(name) => mode_named(lowercase_of(name)),
        None => match text_or(jconf, "simulation"@, "injector"@) {
            Err(failure) => Err(failure),
            Ok(name) => mode_named(lowercase_of(name)),
        },
    }
}

/// Reads the mode of the engine.
pub fn read_simulation(jconf: &Json, asked: Option<&str>) -> (read: Result<
    SimulationMode,
    ConfigError,
>)
    ensures
        mode_view(read) == simulation_of(
            jconf@,
            match asked {
                Some(name) => Some(name@),
                None => None,
            },
        ),
{
    let lower = match asked {
        Some(name) => to_lowercase(name),
        None => match default_str(jconf, "simulation", "injector") {
            Ok(name) => to_lowercase(name.as_str()),
            Err(error) => return Err(error),
        },
    };
    mode_of(lower.as_str())
}

/// The number of the scenario to run at startup, zero for none: what the
/// environment spells, zero where it spells no number, or else the number
/// under `autorun`.
pub open spec fn autostart_of(jconf: JsonValue, spelled: Option<Option<u32>>) -> Result<
    u32,
    ConfigFailure,
> {
    match spelled {
        Some(Some(number)) => Ok(number),
        Some(None) => Ok(0u32),
        None => match unsigned_or(jconf, "autorun"@, 0) {
            Err(failure) => Err(failure),
            Ok(number) => if number <= u32::MAX {
                Ok(number as u32)
            } else {
                Err(ConfigFailure::InvalidValue("autorun"@))
            },
        },
    }
}

/// The model of a read number.
pub open spec fn small_view(read: Result<u32, ConfigError>) -> Result<u32, ConfigFailure> {
    match read {
        Ok(number) => Ok(number),
        Err(error) => Err(error@),
    }
}

/// Picks the number of the scenario to run at startup from what the
/// environment spelled, if it was set, and the configuration.
pub fn pick_autostart(jconf: &Json, spelled: Option<Option<u32>>) -> (read: Result<
    u32,
    ConfigError,
>)
    ensures
        small_view(read) == autostart_of(jconf@, spelled),
{
    match spelled {
        Some(Some(number)) => Ok(number),
        Some(None) => Ok(0),
        None => match default_u64(jconf, "autorun", 0) {
            Err(error) => Err(error),
            Ok(number) => {
                if number <= 0xffff_ffff {
                    Ok(number as u32)
                } else {
                    Err(ConfigError::InvalidValue(String::from_str("autorun")))
                }
            },
        },
    }
}

/// Reads the number of the scenario to run at startup, zero for none.
pub fn read_autostart(jconf: &Json, autorun: Option<&str>) -> (read: Result<u32, ConfigError>)
    ensures
        small_view(read) == autostart_of(
            jconf@,
            match autorun {
                Some(text) => Some(parsed_u32(text@)),
                None => None,
            },
        ),
{
    let spelled = match autorun {
        Some(text) => Some(parse_u32(text)),
        None => None,
    };
    pick_autostart(jconf, spelled)
}

/// The index of the scenario to run at startup among `scenarios` of them:
/// none for zero, the one before the number otherwise, which must exist.
pub open spec fn autostart_index_of(autostart: u32, scenarios: usize) -> Result<
    Option<usize>,
    ConfigFailure,
> {
    if autostart == 0 {
        Ok(None)
    } else if autostart > scenarios {
        Err(ConfigFailure::InvalidAutostart { asked: autostart as int, scenarios: scenarios as int })
    } else {
        Ok(Some((autostart - 1) as usize))
    }
}

/// The model of a picked index.
pub open spec fn index_view(picked: Result<Option<usize>, ConfigError>) -> Result<
    Option<usize>,
    ConfigFailure,
> {
    match picked {
        Ok(index) => Ok(index),
        Err(error) => Err(error@),
    }
}

/// The index of the scenario to run at startup.
pub fn autostart_index(autostart: u32, scenarios: usize) -> (picked: Result<
    Option<usize>,
    ConfigError,
>)
    ensures
        index_view(picked) == autostart_index_of(autostart, scenarios),
        picked matches Ok(Some(index)) ==> index < scenarios,
{
    if autostart == 0 {
        Ok(None)
    } else if autostart as u64 > scenarios as u64 {
        Err(ConfigError::InvalidAutostart { asked: autostart, scenarios })
    } else {
        Ok(Some((autostart - 1) as usize))
    }
}

/// The configuration of the engine.
#[derive(Debug)]
pub struct BindingConfig {
    pub simulation: SimulationMode,
    pub scenarios: Json,
    pub target: Option<String>,
    pub loop_reset: bool,
    pub delay_conf: InjectorDelayConf,
    pub retry_conf: InjectorRetryConf,
}

/// Mathematical model of a `BindingConfig`.
pub ghost struct ConfigValue {
    pub simulation: SimulationMode,
    pub scenarios: JsonValue,
    pub target: Option<Seq<char>>,
    pub loop_reset: bool,
    pub delay_conf: InjectorDelayConf,
    pub retry_conf: InjectorRetryConf,
}

impl View for BindingConfig {
    type V = ConfigValue;

    open spec fn view(&self) -> ConfigValue {
        ConfigValue {
            simulation: self.simulation,
            scenarios: self.scenarios@,
            target: match self.target {
                Some(name) => Some(name@),
                None => None,
            },
            loop_reset: self.loop_reset,
            delay_conf: self.delay_conf,
            retry_conf: self.retry_conf,
        }
    }
}

/// The scenarios of a configuration: mandatory, and an array.
pub open spec fn scenarios_of(jconf: JsonValue) -> Result<JsonValue, ConfigFailure> {
    match member_of(jconf, "scenarios"@) {
        None => Err(ConfigFailure::MissingKey("scenarios"@)),
        Some(scenarios) => if scenarios is Array {
            Ok(scenarios)
        } else {
            Err(ConfigFailure::WrongType("scenarios"@))
        },
    }
}

/// The delay policy of a configuration: the one under `delay`, or the
/// default one.
pub open spec fn config_delay_of(jconf: JsonValue) -> Result<InjectorDelayConf, ConfigFailure> {
    match member_of(jconf, "delay"@) {
        None => Ok(
            InjectorDelayConf {
                percent: DEFAULT_DELAY_PERCENT,
                min: DEFAULT_DELAY_MIN,
                max: DEFAULT_DELAY_MAX,
            },
        ),
        Some(own) => delay_conf_of(own),
    }
}

/// The retry policy of a configuration: the one under `retry`, read with
/// the delay policy, or the default one.
pub open spec fn config_retry_of(jconf: JsonValue, delay_conf: InjectorDelayConf) -> Result<
    InjectorRetryConf,
    ConfigFailure,
> {
    match member_of(jconf, "retry"@) {
        None => Ok(
            InjectorRetryConf {
                delay: DEFAULT_CALL_DELAY,
                timeout: DEFAULT_CALL_TIMEOUT,
                count: 1,
            },
        ),
        Some(own) => retry_conf_of(own, delay_conf),
    }
}

/// The configuration that `jconf` describes, with the mode that the
/// environment asks for, if it asks for one.
///
/// A responder loops unless told otherwise. The error is that of the first
/// of mode, loop, target, scenarios, delay and retry, in that order, that
/// cannot be read.
pub open spec fn config_of(jconf: JsonValue, asked: Option<Seq<char>>) -> Result<
    ConfigValue,
    ConfigFailure,
> {
    match simulation_of(jconf, asked) {
        Err(failure) => Err(failure),
        Ok(simulation) => match flag_or(jconf, "loop"@, true) {
            Err(failure) => Err(failure),
            Ok(loop_reset) => match text_of(jconf, "target"@) {
                Err(failure) => Err(failure),
                Ok(target) => match scenarios_of(jconf) {
                    Err(failure) => Err(failure),
                    Ok(scenarios) => match config_delay_of(jconf) {
                        Err(failure) => Err(failure),
                        Ok(delay_conf) => match config_retry_of(jconf, delay_conf) {
                            Err(failure) => Err(failure),
                            Ok(retry_conf) => Ok(
                                ConfigValue {
                                    simulation,
                                    scenarios,
                                    target,
                                    loop_reset,
                                    delay_conf,
                                    retry_conf,
                                },
                            ),
                        },
                    },
                },
            },
        },
    }
}

/// The model of a read configuration.
pub open spec fn config_view(read: Result<BindingConfig, ConfigError>) -> Result<
    ConfigValue,
    ConfigFailure,
> {
    match read {
        Ok(config) => Ok(config@),
        Err(error) => Err(error@),
    }
}

/// Reads the scenarios of a configuration.
fn read_scenarios(jconf: &Json) -> (read: Result<Json, ConfigError>)
    ensures
        match read {
            Ok(scenarios) => scenarios_of(jconf@) == Ok::<JsonValue, ConfigFailure>(scenarios@),
            Err(error) => scenarios_of(jconf@) == Err::<JsonValue, ConfigFailure>(error@),
        },
{
    match get_member(jconf, "scenarios") {
        None => Err(ConfigError::MissingKey(String::from_str("scenarios"))),
        Some(scenarios) => match scenarios {
            Json::Array(_) => Ok(scenarios.clone()),
            _ => Err(ConfigError::WrongType(String::from_str("scenarios"))),
        },
    }
}

/// Reads the configuration of the engine.
pub fn read_config(jconf: &Json, asked: Option<&str>) -> (read: Result<BindingConfig, ConfigError>)
    ensures
        config_view(read) == config_of(
            jconf@,
            match asked {
                Some(name) => Some(name@),
                None => None,
            },
        ),
{
    let simulation = match read_simulation(jconf, asked) {
        Ok(mode) => mode,
        Err(error) => return Err(error),
    };
    let loop_reset = match default_bool(jconf, "loop", true) {
        Ok(flag) => flag,
        Err(error) => return Err(error),
    };
    let target = match optional_str(jconf, "target") {
        Ok(target) => target,
        Err(error) => return Err(error),
    };
    let scenarios = match read_scenarios(jconf) {
        Ok(scenarios) => scenarios,
        Err(error) => return Err(error),
    };
    let delay_conf = match get_member(jconf, "delay") {
        None => InjectorDelayConf::default(),
        Some(own) => match InjectorDelayConf::from_jsonc(own) {
            Ok(conf) => conf,
            Err(error) => return Err(error),
        },
    };
    let retry_conf = match get_member(jconf, "retry") {
        None => InjectorRetryConf::default(),
        Some(own) => match InjectorRetryConf::from_jsonc(own, &delay_conf) {
            Ok(conf) => conf,
            Err(error) => return Err(error),
        },
    };
    Ok(BindingConfig { simulation, scenarios, target, loop_reset, delay_conf, retry_conf })
}

/// What the host found in its environment.
#[derive(Debug)]
pub struct Environment {
    /// The mode asked for, which overrides the configuration.
    pub simulation_mode: Option<String>,
    /// The number of the scenario to run at startup, as spelled.
    pub autorun: Option<String>,
    /// A uid that replaces the uid of every scenario.
    pub scenario_uid: Option<String>,
}

/// What the engine registers, by side.
#[derive(Debug)]
pub enum Surface {
    Injector(Vec<InjectorScenario>),
    Responder(ResponderApi),
}

/// The engine as it is set up from its configuration.
#[derive(Debug)]
pub struct Binding {
    pub uid: String,
    pub api: String,
    pub info: String,
    pub config: BindingConfig,
    pub surface: Surface,
    /// The index of the scenario to run at startup, if any.
    pub autorun: Option<usize>,
    pub permission: Option<String>,
    pub verbosity: Option<i32>,
}

/// Name of the engine when the configuration gives none.
pub open spec fn default_uid() -> Seq<char> {
    "iso15118-simu"@
}

/// The uid of the engine.
pub open spec fn uid_of(jconf: JsonValue) -> Result<Seq<char>, ConfigFailure> {
    text_or(jconf, "uid"@, default_uid())
}

/// The permission that the configuration asks for: the text under
/// `permission`, if there is one.
pub open spec fn permission_of(jconf: JsonValue) -> Option<Seq<char>> {
    match text_of(jconf, "permission"@) {
        Ok(Some(permission)) => Some(permission),
        _ => None,
    }
}

/// The verbosity that the configuration asks for: the number under
/// `verbosity`, if there is one that 32 bits hold.
pub open spec fn verbosity_of(jconf: JsonValue) -> Option<i32> {
    match member_of(jconf, "verbosity"@) {
        Some(JsonValue::Int(level)) => if i32::MIN <= level <= i32::MAX {
            Some(level as i32)
        } else {
            None
        },
        _ => None,
    }
}

/// The model of what the environment spelled for the scenario to run at
/// startup.
pub open spec fn spelled_view(autorun: Option<String>) -> Option<Option<u32>> {
    match autorun {
        Some(text) => Some(parsed_u32(text@)),
        None => None,
    }
}

/// The model of an optional text.
pub open spec fn optional_view(text: Option<String>) -> Option<Seq<char>> {
    match text {
        Some(text) => Some(text@),
        None => None,
    }
}

/// Whether every scenario of `config` can be registered with an injector.
pub open spec fn injector_accepted(config: ConfigValue, forced: Option<Seq<char>>) -> bool {
    &&& config.target is Some
    &&& config.scenarios is Array
    &&& forall|i: int|
        0 <= i < config.scenarios->Array_0.len() ==> injector_scenario_accepted(
            #[trigger] config.scenarios->Array_0[i],
            i as nat,
            forced,
            config.target->Some_0,
            config.delay_conf,
            config.retry_conf,
        )
}

/// Whether `failure` is why no scenario can be picked to run at startup
/// among `scenarios` of them.
pub open spec fn autostart_refused(
    jconf: JsonValue,
    spelled: Option<Option<u32>>,
    scenarios: usize,
    failure: ConfigFailure,
) -> bool {
    match autostart_of(jconf, spelled) {
        Err(found) => found == failure,
        Ok(number) => autostart_index_of(number, scenarios) == Err::<Option<usize>, ConfigFailure>(
            failure,
        ),
    }
}

/// Whether `made` is the engine that `jconf` describes in the environment
/// `env`.
///
/// Uid, api name (the uid by default) and info are read first, then the
/// configuration. An injector registers its scenarios and picks the one to
/// run at startup; a responder registers its scenarios and runs none. The
/// first step that fails gives the error.
pub open spec fn is_binding_of(made: Result<Binding, ConfigError>, jconf: JsonValue, env: Environment)
    -> bool {
    let forced = optional_view(env.scenario_uid);
    let spelled = spelled_view(env.autorun);
    match uid_of(jconf) {
        Err(failure) => made matches Err(error) && error@ == failure,
        Ok(uid) => match text_or(jconf, "api"@, uid) {
            Err(failure) => made matches Err(error) && error@ == failure,
            Ok(api) => match text_or(jconf, "info"@, ""@) {
                Err(failure) => made matches Err(error) && error@ == failure,
                Ok(info) => match config_of(jconf, optional_view(env.simulation_mode)) {
                    Err(failure) => made matches Err(error) && error@ == failure,
                    Ok(config) => match made {
                        Ok(binding) => {
                            &&& binding.uid@ == uid
                            &&& binding.api@ == api
                            &&& binding.info@ == info
                            &&& binding.config@ == config
                            &&& optional_view(binding.permission) == permission_of(jconf)
                            &&& binding.verbosity == verbosity_of(jconf)
                            &&& match binding.surface {
                                Surface::Injector(list) => {
                                    &&& config.simulation == SimulationMode::Injector
                                    &&& is_injector_registration(
                                        Ok::<Vec<InjectorScenario>, ConfigError>(list),
                                        config,
                                        forced,
                                    )
                                    &&& autostart_of(jconf, spelled) matches Ok(number)
                                    &&& autostart_index_of(number, list.len()) == Ok::<
                                        Option<usize>,
                                        ConfigFailure,
                                    >(binding.autorun)
                                },
                                Surface::Responder(api_made) => {
                                    &&& config.simulation == SimulationMode::Responder
                                    &&& is_responder_registration(
                                        Ok::<ResponderApi, ConfigError>(api_made),
                                        config,
                                        forced,
                                    )
                                    &&& binding.autorun is None
                                },
                            }
                        },
                        Err(error) => match config.simulation {
                            SimulationMode::Injector => {
                                ||| is_injector_registration(
                                    Err::<Vec<InjectorScenario>, ConfigError>(error),
                                    config,
                                    forced,
                                )
                                ||| {
                                    &&& injector_accepted(config, forced)
                                    &&& autostart_refused(
                                        jconf,
                                        spelled,
                                        config.scenarios->Array_0.len() as usize,
                                        error@,
                                    )
                                }
                            },
                            SimulationMode::Responder => is_responder_registration(
                                Err::<ResponderApi, ConfigError>(error),
                                config,
                                forced,
                            ),
                        },
                    },
                },
            },
        },
    }
}

/// The text of an optional string.
fn as_text(text: &Option<String>) -> (out: Option<&str>)
    ensures
        forced_view(out) == optional_view(*text),
{
    match text {
        Some(text) => Some(text.as_str()),
        None => None,
    }
}

/// Reads the permission that the configuration asks for.
fn read_permission(jconf: &Json) -> (permission: Option<String>)
    ensures
        optional_view(permission) == permission_of(jconf@),
{
    match optional_str(jconf, "permission") {
        Ok(Some(permission)) => Some(permission),
        _ => None,
    }
}

/// Reads the verbosity that the configuration asks for.
fn read_verbosity(jconf: &Json) -> (verbosity: Option<i32>)
    ensures
        verbosity == verbosity_of(jconf@),
{
    match get_member(jconf, "verbosity") {
        Some(Json::Int(level)) => {
            if -0x8000_0000 <= *level && *level <= 0x7fff_ffff {
                Some(*level as i32)
            } else {
                None
            }
        },
        _ => None,
    }
}

/// Sets the engine up from its configuration and what the host found in
/// its environment.
pub fn binding_init(jconf: &Json, env: &Environment) -> (made: Result<Binding, ConfigError>)
    ensures
        is_binding_of(made, jconf@, *env),
{
    let uid = match default_str(jconf, "uid", "iso15118-simu") {
        Ok(uid) => uid,
        Err(error) => return Err(error),
    };
    let api = match default_str(jconf, "api", uid.as_str()) {
        Ok(api) => api,
        Err(error) => return Err(error),
    };
    let info = match default_str(jconf, "info", "") {
        Ok(info) => info,
        Err(error) => return Err(error),
    };
    let config = match read_config(jconf, as_text(&env.simulation_mode)) {
        Ok(config) => config,
        Err(error) => return Err(error),
    };
    let forced = as_text(&env.scenario_uid);
    let (surface, autorun) = match config.simulation {
        SimulationMode::Injector => {
            let list = match register_injector(&config, forced) {
                Ok(list) => list,
                Err(error) => return Err(error),
            };
            proof {
                let items = config@.scenarios->Array_0;
                assert forall|i: int| 0 <= i < items.len() implies injector_scenario_accepted(
                    #[trigger] items[i],
                    i as nat,
                    forced_view(forced),
                    config@.target->Some_0,
                    config.delay_conf,
                    config.retry_conf,
                ) by {
                    assert(is_injector_scenario_of(
                        Ok::<InjectorScenario, ConfigError>(list@[i]),
                        items[i],
                        i as nat,
                        forced_view(forced),
                        config@.target->Some_0,
                        config.delay_conf,
                        config.retry_conf,
                    ));
                }
            }
            let autostart = match read_autostart(jconf, as_text(&env.autorun)) {
                Ok(number) => number,
                Err(error) => return Err(error),
            };
            let autorun = match autostart_index(autostart, list.len()) {
                Ok(index) => index,
                Err(error) => return Err(error),
            };
            (Surface::Injector(list), autorun)
        },
        SimulationMode::Responder => {
            let api_made = match register_responder(&config, forced) {
                Ok(api_made) => api_made,
                Err(error) => return Err(error),
            };
            (Surface::Responder(api_made), None)
        },
    };
    let permission = read_permission(jconf);
    let verbosity = read_verbosity(jconf);
    Ok(Binding { uid, api, info, config, surface, autorun, permission, verbosity })
}

} // verus!

use crate::json::{
    find_member, first_index, has_key, lemma_object_view, member_views, Json, JsonValue,
    MemberValue,
};
use vstd::prelude::*;
use vstd::string::StringExecFns;

verus! {

/// Why a configuration value was refused.
#[derive(Debug)]
pub enum ConfigError {
    /// A mandatory key is absent.
    MissingKey(String),
    /// The value under the key has another type than the one asked for.
    WrongType(String),
    /// The value under the key has the right type but is not allowed.
    InvalidValue(String),
    /// The simulation mode is neither `injector` nor `responder`.
    InvalidMode(String),
    /// No target service is configured for an injector.
    MissingTarget,
    /// The scenario to run at startup does not exist.
    InvalidAutostart { asked: u32, scenarios: usize },
}

/// Mathematical model of a `ConfigError`.
pub ghost enum ConfigFailure {
    MissingKey(Seq<char>),
    WrongType(Seq<char>),
    InvalidValue(Seq<char>),
    InvalidMode(Seq<char>),
    MissingTarget,
    InvalidAutostart { asked: int, scenarios: int },
}

impl View for ConfigError {
    type V = ConfigFailure;

    open spec fn view(&self) -> ConfigFailure {
        match self {
            ConfigError::MissingKey(key) => ConfigFailure::MissingKey(key@),
            ConfigError::WrongType(key) => ConfigFailure::WrongType(key@),
            ConfigError::InvalidValue(key) => ConfigFailure::InvalidValue(key@),
            ConfigError::InvalidMode(mode) => ConfigFailure::InvalidMode(mode@),
            ConfigError::MissingTarget => ConfigFailure::MissingTarget,
            ConfigError::InvalidAutostart { asked, scenarios } => ConfigFailure::InvalidAutostart {
                asked: *asked as int,
                scenarios: *scenarios as int,
            },
        }
    }
}

/// The members of an object; none for any other value.
pub open spec fn members_of(value: JsonValue) -> Seq<MemberValue> {
    if value is Object {
        value->Object_0
    } else {
        Seq::empty()
    }
}

/// The value that `value` holds under `key`, if it is an object that names
/// the key.
pub open spec fn member_of(value: JsonValue, key: Seq<char>) -> Option<JsonValue> {
    let members = members_of(value);
    if has_key(members, key) {
        Some(members[first_index(members, key)].value)
    } else {
        None
    }
}

/// The value under `key`, if `value` is an object that names the key.
pub fn get_member<'a>(value: &'a Json, key: &str) -> (found: Option<&'a Json>)
    ensures
        match found {
            Some(member) => member_of(value@, key@) == Some(member@),
            None => member_of(value@, key@) is None,
        },
{
    match value {
        Json::Object(members) => {
            proof {
                lemma_object_view(*members);
            }
            let name = String::from_str(key);
            match find_member(members, &name) {
                Some(i) => {
                    assert(member_views(members@)[i as int] == members@[i as int]@);
                    Some(&members[i].value)
                },
                None => None,
            }
        },
        _ => None,
    }
}

/// How an optional unsigned number under `key` reads: absent, a number, or
/// a value of another kind.
pub open spec fn unsigned_of(value: JsonValue, key: Seq<char>) -> Result<Option<int>, ConfigFailure> {
    match member_of(value, key) {
        None => Ok(None),
        Some(JsonValue::Int(n)) => if 0 <= n {
            Ok(Some(n))
        } else {
            Err(ConfigFailure::WrongType(key))
        },
        Some(_) => Err(ConfigFailure::WrongType(key)),
    }
}

/// The model of the result of reading an optional unsigned number.
pub open spec fn unsigned_view(read: Result<Option<u64>, ConfigError>) -> Result<
    Option<int>,
    ConfigFailure,
> {
    match read {
        Ok(None) => Ok(None),
        Ok(Some(n)) => Ok(Some(n as int)),
        Err(error) => Err(error@),
    }
}

/// Reads the unsigned number under `key`, if the key is present.
pub fn optional_u64(value: &Json, key: &str) -> (read: Result<Option<u64>, ConfigError>)
    ensures
        unsigned_view(read) == unsigned_of(value@, key@),
{
    match get_member(value, key) {
        None => Ok(None),
        Some(Json::Int(n)) => {
            if *n >= 0 {
                Ok(Some(*n as u64))
            } else {
                Err(ConfigError::WrongType(String::from_str(key)))
            }
        },
        Some(_) => Err(ConfigError::WrongType(String::from_str(key))),
    }
}

/// The unsigned number under `key`, or `default` when the key is absent.
pub open spec fn unsigned_or(value: JsonValue, key: Seq<char>, default: int) -> Result<
    int,
    ConfigFailure,
> {
    match unsigned_of(value, key) {
        Ok(None) => Ok(default),
        Ok(Some(n)) => Ok(n),
        Err(failure) => Err(failure),
    }
}

/// The model of the result of reading an unsigned number.
pub open spec fn number_view(read: Result<u64, ConfigError>) -> Result<int, ConfigFailure> {
    match read {
        Ok(n) => Ok(n as int),
        Err(error) => Err(error@),
    }
}

/// Reads the unsigned number under `key`, or `default` when the key is
/// absent.
pub fn default_u64(value: &Json, key: &str, default: u64) -> (read: Result<u64, ConfigError>)
    ensures
        number_view(read) == unsigned_or(value@, key@, default as int),
{
    match optional_u64(value, key) {
        Ok(None) => Ok(default),
        Ok(Some(n)) => Ok(n),
        Err(error) => Err(error),
    }
}

/// How an optional text under `key` reads: absent, a text, or a value of
/// another kind.
pub open spec fn text_of(value: JsonValue, key: Seq<char>) -> Result<
    Option<Seq<char>>,
    ConfigFailure,
> {
    match member_of(value, key) {
        None => Ok(None),
        Some(JsonValue::Str(text)) => Ok(Some(text)),
        Some(_) => Err(ConfigFailure::WrongType(key)),
    }
}

/// The model of the result of reading an optional text.
pub open spec fn optional_text_view(read: Result<Option<String>, ConfigError>) -> Result<
    Option<Seq<char>>,
    ConfigFailure,
> {
    match read {
        Ok(None) => Ok(None),
        Ok(Some(text)) => Ok(Some(text@)),
        Err(error) => Err(error@),
    }
}

/// Reads the text under `key`, if the key is present.
pub fn optional_str(value: &Json, key: &str) -> (read: Result<Option<String>, ConfigError>)
    ensures
        optional_text_view(read) == text_of(value@, key@),
{
    match get_member(value, key) {
        None => Ok(None),
        Some(Json::Str(text)) => Ok(Some(text.clone())),
        Some(_) => Err(ConfigError::WrongType(String::from_str(key))),
    }
}

/// The text under `key`, which must be present.
pub open spec fn required_text(value: JsonValue, key: Seq<char>) -> Result<
    Seq<char>,
    ConfigFailure,
> {
    match text_of(value, key) {
        Ok(None) => Err(ConfigFailure::MissingKey(key)),
        Ok(Some(text)) => Ok(text),
        Err(failure) => Err(failure),
    }
}

/// The text under `key`, or `default` when the key is absent.
pub open spec fn text_or(value: JsonValue, key: Seq<char>, default: Seq<char>) -> Result<
    Seq<char>,
    ConfigFailure,
> {
    match text_of(value, key) {
        Ok(None) => Ok(default),
        Ok(Some(text)) => Ok(text),
        Err(failure) => Err(failure),
    }
}

/// The model of the result of reading a text.
pub open spec fn text_view(read: Result<String, ConfigError>) -> Result<Seq<char>, ConfigFailure> {
    match read {
        Ok(text) => Ok(text@),
        Err(error) => Err(error@),
    }
}

/// Reads the text under `key`, which must be present.
pub fn get_str(value: &Json, key: &str) -> (read: Result<String, ConfigError>)
    ensures
        text_view(read) == required_text(value@, key@),
{
    match optional_str(value, key) {
        Ok(None) => Err(ConfigError::MissingKey(String::from_str(key))),
        Ok(Some(text)) => Ok(text),
        Err(error) => Err(error),
    }
}

/// Reads the text under `key`, or `default` when the key is absent.
pub fn default_str(value: &Json, key: &str, default: &str) -> (read: Result<String, ConfigError>)
    ensures
        text_view(read) == text_or(value@, key@, default@),
{
    match optional_str(value, key) {
        Ok(None) => Ok(String::from_str(default)),
        Ok(Some(text)) => Ok(text),
        Err(error) => Err(error),
    }
}

/// The truth value under `key`, or `default` when the key is absent.
pub open spec fn flag_or(value: JsonValue, key: Seq<char>, default: bool) -> Result<
    bool,
    ConfigFailure,
> {
    match member_of(value, key) {
        None => Ok(default),
        Some(JsonValue::Bool(flag)) => Ok(flag),
        Some(_) => Err(ConfigFailure::WrongType(key)),
    }
}

/// The model of the result of reading a truth value.
pub open spec fn flag_view(read: Result<bool, ConfigError>) -> Result<bool, ConfigFailure> {
    match read {
        Ok(flag) => Ok(flag),
        Err(error) => Err(error@),
    }
}

/// Reads the truth value under `key`, or `default` when the key is absent.
pub fn default_bool(value: &Json, key: &str, default: bool) -> (read: Result<bool, ConfigError>)
    ensures
        flag_view(read) == flag_or(value@, key@, default),
{
    match get_member(value, key) {
        None => Ok(default),
        Some(Json::Bool(flag)) => Ok(*flag),
        Some(_) => Err(ConfigError::WrongType(String::from_str(key))),
    }
}

} // verus!

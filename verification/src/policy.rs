use crate::config::{default_u64, unsigned_or, ConfigError, ConfigFailure};
use crate::json::{Json, JsonValue};
use vstd::prelude::*;
use vstd::string::StringExecFns;

verus! {

/// Percentage applied to nominal delays when none is configured.
pub const DEFAULT_DELAY_PERCENT: u64 = 10;

/// Lower clamp, in milliseconds, of a scaled delay when none is configured.
pub const DEFAULT_DELAY_MIN: u64 = 50;

/// Upper clamp, in milliseconds, of a scaled delay when none is configured.
pub const DEFAULT_DELAY_MAX: u64 = 100;

/// Time allowed to one call attempt, in milliseconds, when none is configured.
pub const DEFAULT_CALL_TIMEOUT: u64 = 1000;

/// Pause before a call and between attempts, in milliseconds, when none is
/// configured.
pub const DEFAULT_CALL_DELAY: u64 = 100;

/// Shortest watchdog of a scenario run, in seconds.
pub const DEFAULT_MIN_TIMEOUT: u64 = 10;

/// The scaled and clamped value of a nominal delay, over unbounded integers.
///
/// The nominal value is scaled to `percent` hundredths (rounded down); a
/// scaled value above `max` becomes `max`, otherwise one below `min`
/// becomes `min`.
pub open spec fn scaled_millis(millis: int, percent: int, min: int, max: int) -> int {
    let scaled = millis * percent / 100;
    if scaled > max {
        max
    } else if scaled < min {
        min
    } else {
        scaled
    }
}

/// How nominal delays are scaled: to `percent` hundredths, then clamped
/// between `min` and `max` milliseconds.
#[derive(Clone, Copy, Debug)]
pub struct InjectorDelayConf {
    pub percent: u64,
    pub min: u64,
    pub max: u64,
}

/// The policy that the three numbers under `percent`, `min` and `max` of
/// `jsonc` describe, each replaced by its default when absent; the error of
/// the first of them, in that order, that is no unsigned number.
pub open spec fn delay_conf_of(jsonc: JsonValue) -> Result<InjectorDelayConf, ConfigFailure> {
    match unsigned_or(jsonc, "percent"@, DEFAULT_DELAY_PERCENT as int) {
        Err(failure) => Err(failure),
        Ok(percent) => match unsigned_or(jsonc, "min"@, DEFAULT_DELAY_MIN as int) {
            Err(failure) => Err(failure),
            Ok(min) => match unsigned_or(jsonc, "max"@, DEFAULT_DELAY_MAX as int) {
                Err(failure) => Err(failure),
                Ok(max) => Ok(
                    InjectorDelayConf { percent: percent as u64, min: min as u64, max: max as u64 },
                ),
            },
        },
    }
}

/// The model of the result of reading a delay policy.
pub open spec fn delay_conf_view(read: Result<InjectorDelayConf, ConfigError>) -> Result<
    InjectorDelayConf,
    ConfigFailure,
> {
    match read {
        Ok(conf) => Ok(conf),
        Err(error) => Err(error@),
    }
}

impl InjectorDelayConf {
    /// The policy used when none is configured.
    pub fn default() -> (conf: Self)
        ensures
            conf.percent == DEFAULT_DELAY_PERCENT,
            conf.min == DEFAULT_DELAY_MIN,
            conf.max == DEFAULT_DELAY_MAX,
    {
        Self { percent: DEFAULT_DELAY_PERCENT, min: DEFAULT_DELAY_MIN, max: DEFAULT_DELAY_MAX }
    }

    /// Reads a policy from its configuration object.
    pub fn from_jsonc(jsonc: &Json) -> (read: Result<Self, ConfigError>)
        ensures
            delay_conf_view(read) == delay_conf_of(jsonc@),
    {
        let percent = match default_u64(jsonc, "percent", DEFAULT_DELAY_PERCENT) {
            Ok(n) => n,
            Err(error) => return Err(error),
        };
        let min = match default_u64(jsonc, "min", DEFAULT_DELAY_MIN) {
            Ok(n) => n,
            Err(error) => return Err(error),
        };
        let max = match default_u64(jsonc, "max", DEFAULT_DELAY_MAX) {
            Ok(n) => n,
            Err(error) => return Err(error),
        };
        Ok(Self { percent, min, max })
    }

    /// The effective delay, in milliseconds, of a nominal delay of `millis`
    /// milliseconds.
    pub open spec fn duration_of(&self, millis: int) -> int {
        scaled_millis(millis, self.percent as int, self.min as int, self.max as int)
    }

    /// The effective delay, in milliseconds, of a nominal delay of `millis`
    /// milliseconds: scaled to `percent` hundredths, then clamped.
    pub fn get_duration(&self, millis: u64) -> (delay: u64)
        ensures
            delay == self.duration_of(millis as int),
    {
        assert(millis * self.percent <= u64::MAX * u64::MAX) by (nonlinear_arith)
            requires
                millis <= u64::MAX,
                self.percent <= u64::MAX,
        ;
        let product: u128 = (millis as u128) * (self.percent as u128);
        let scaled: u128 = product / 100;
        if scaled > self.max as u128 {
            self.max
        } else if scaled < self.min as u128 {
            self.min
        } else {
            scaled as u64
        }
    }
}

/// An effective delay is one of the two clamps or the scaled value, and it
/// lies between the clamps whenever they are in order.
pub proof fn lemma_scaled_millis_bounds(millis: int, percent: int, min: int, max: int)
    requires
        min <= max,
    ensures
        min <= scaled_millis(millis, percent, min, max) <= max,
        min <= millis * percent / 100 <= max ==> scaled_millis(millis, percent, min, max) == millis
            * percent / 100,
{
}

/// How one call is attempted: the pause between attempts and the time
/// allowed to each, in milliseconds, and the number of attempts.
#[derive(Clone, Copy, Debug)]
pub struct InjectorRetryConf {
    pub delay: u64,
    pub timeout: u64,
    pub count: u32,
}

/// The policy that `jsonc` describes.
///
/// The pause under `delay` is scaled by `delay_conf`; the time allowed under
/// `timeout` is taken as it is; both default to the call timeout. The
/// number of attempts under `count` defaults to one and must be at least one.
/// The error is that of the first of the three, in that order, that cannot
/// be read.
pub open spec fn retry_conf_of(jsonc: JsonValue, delay_conf: InjectorDelayConf) -> Result<
    InjectorRetryConf,
    ConfigFailure,
> {
    match unsigned_or(jsonc, "delay"@, DEFAULT_CALL_TIMEOUT as int) {
        Err(failure) => Err(failure),
        Ok(delay) => match unsigned_or(jsonc, "timeout"@, DEFAULT_CALL_TIMEOUT as int) {
            Err(failure) => Err(failure),
            Ok(timeout) => match unsigned_or(jsonc, "count"@, 1) {
                Err(failure) => Err(failure),
                Ok(count) => if 1 <= count <= u32::MAX {
                    Ok(
                        InjectorRetryConf {
                            delay: delay_conf.duration_of(delay) as u64,
                            timeout: timeout as u64,
                            count: count as u32,
                        },
                    )
                } else {
                    Err(ConfigFailure::InvalidValue("count"@))
                },
            },
        },
    }
}

/// The model of the result of reading a retry policy.
pub open spec fn retry_conf_view(read: Result<InjectorRetryConf, ConfigError>) -> Result<
    InjectorRetryConf,
    ConfigFailure,
> {
    match read {
        Ok(conf) => Ok(conf),
        Err(error) => Err(error@),
    }
}

impl InjectorRetryConf {
    /// Whether the policy allows at least one attempt.
    pub open spec fn wf(&self) -> bool {
        self.count >= 1
    }

    /// The policy used when none is configured: one attempt.
    pub fn default() -> (conf: Self)
        ensures
            conf.delay == DEFAULT_CALL_DELAY,
            conf.timeout == DEFAULT_CALL_TIMEOUT,
            conf.count == 1,
            conf.wf(),
    {
        Self { delay: DEFAULT_CALL_DELAY, timeout: DEFAULT_CALL_TIMEOUT, count: 1 }
    }

    /// Reads a policy from its configuration object.
    pub fn from_jsonc(jsonc: &Json, delay_conf: &InjectorDelayConf) -> (read: Result<
        Self,
        ConfigError,
    >)
        ensures
            retry_conf_view(read) == retry_conf_of(jsonc@, *delay_conf),
            read matches Ok(conf) ==> conf.wf(),
    {
        let delay = match default_u64(jsonc, "delay", DEFAULT_CALL_TIMEOUT) {
            Ok(n) => n,
            Err(error) => return Err(error),
        };
        let timeout = match default_u64(jsonc, "timeout", DEFAULT_CALL_TIMEOUT) {
            Ok(n) => n,
            Err(error) => return Err(error),
        };
        let count = match default_u64(jsonc, "count", 1) {
            Ok(n) => n,
            Err(error) => return Err(error),
        };
        if count < 1 || count > 0xffff_ffff {
            return Err(ConfigError::InvalidValue(String::from_str("count")));
        }
        Ok(Self { delay: delay_conf.get_duration(delay), timeout, count: count as u32 })
    }
}

} // verus!

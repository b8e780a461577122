//! Connection-pool settings, read from optional text values with defaults.
use vstd::prelude::*;

verus! {

/// The value of a sequence of decimal digits.
pub open spec fn digits_value(s: Seq<char>) -> int
    decreases s.len(),
{
    if s.len() == 0 {
        0
    } else {
        digits_value(s.drop_last()) * 10 + (s.last() as int - '0' as int)
    }
}

proof fn lemma_digits_value_nonneg(s: Seq<char>)
    requires
        forall|i: int| 0 <= i < s.len() ==> '0' <= #[trigger] s[i] <= '9',
    ensures
        digits_value(s) >= 0,
    decreases s.len(),
{
    if s.len() > 0 {
        lemma_digits_value_nonneg(s.drop_last());
    }
}

proof fn lemma_unsigned_parse_nonneg(s: Seq<char>, max: int)
    ensures
        unsigned_parse(s, max) matches Some(v) ==> 0 <= v <= max,
{
    let d = if s.len() > 0 && s[0] == '+' {
        s.drop_first()
    } else {
        s
    };
    if all_digits(d) {
        lemma_digits_value_nonneg(d);
    }
}

/// Whether `s` is one or more decimal digits.
pub open spec fn all_digits(s: Seq<char>) -> bool {
    s.len() > 0 && forall|i: int| 0 <= i < s.len() ==> '0' <= #[trigger] s[i] <= '9'
}

/// The number that `s` spells for an unsigned integer type whose largest
/// value is `max`: an optional `+` and then decimal digits, nothing else,
/// and no more than `max`.
pub open spec fn unsigned_parse(s: Seq<char>, max: int) -> Option<int> {
    let d = if s.len() > 0 && s[0] == '+' {
        s.drop_first()
    } else {
        s
    };
    if all_digits(d) && digits_value(d) <= max {
        Some(digits_value(d))
    } else {
        None
    }
}

/// Relies on `<u32 as FromStr>::from_str`: an optional `+` followed by
/// decimal digits only, in range, parses; anything else is an error.
#[verifier::external_body]
fn parse_u32(s: &str) -> (r: Option<u32>)
    ensures
        match unsigned_parse(s@, u32::MAX as int) {
            Some(v) => r == Some(v as u32),
            None => r is None,
        },
{
    s.parse::<u32>().ok()
}

/// Relies on `<u64 as FromStr>::from_str`: an optional `+` followed by
/// decimal digits only, in range, parses; anything else is an error.
#[verifier::external_body]
fn parse_u64(s: &str) -> (r: Option<u64>)
    ensures
        match unsigned_parse(s@, u64::MAX as int) {
            Some(v) => r == Some(v as u64),
            None => r is None,
        },
{
    s.parse::<u64>().ok()
}

/// The value of a setting: what the text spells where it is present and
/// parses, else the default.
pub open spec fn setting_value(raw: Option<String>, default: int, max: int) -> int {
    match raw {
        Some(s) => match unsigned_parse(s@, max) {
            Some(v) => v,
            None => default,
        },
        None => default,
    }
}

/// A `u32` setting with a default.
pub fn u32_setting(raw: &Option<String>, default: u32) -> (r: u32)
    ensures
        r == setting_value(*raw, default as int, u32::MAX as int),
{
    proof {
        if let Some(s) = raw {
            lemma_unsigned_parse_nonneg(s@, u32::MAX as int);
        }
    }
    match raw {
        Some(s) => match parse_u32(s.as_str()) {
            Some(v) => v,
            None => default,
        },
        None => default,
    }
}

/// A `u64` setting with a default.
pub fn u64_setting(raw: &Option<String>, default: u64) -> (r: u64)
    ensures
        r == setting_value(*raw, default as int, u64::MAX as int),
{
    proof {
        if let Some(s) = raw {
            lemma_unsigned_parse_nonneg(s@, u64::MAX as int);
        }
    }
    match raw {
        Some(s) => match parse_u64(s.as_str()) {
            Some(v) => v,
            None => default,
        },
        None => default,
    }
}

/// The default largest pool size.
pub const DEFAULT_MAX_CONNECTIONS: u32 = 100;

/// The default smallest pool size.
pub const DEFAULT_MIN_CONNECTIONS: u32 = 10;

/// The default wait for a connection, in seconds.
pub const DEFAULT_ACQUIRE_TIMEOUT_SECS: u64 = 5;

/// The default idle time before a connection closes, in seconds.
pub const DEFAULT_IDLE_TIMEOUT_SECS: u64 = 600;

/// The default lifetime of a connection, in seconds.
pub const DEFAULT_MAX_LIFETIME_SECS: u64 = 1800;

/// Connection-pool settings; durations are whole seconds.
#[derive(Debug)]
pub struct DatabaseConfig {
    pub url: String,
    pub max_connections: u32,
    pub min_connections: u32,
    pub acquire_timeout_secs: u64,
    pub idle_timeout_secs: u64,
    pub max_lifetime_secs: u64,
    pub test_before_acquire: bool,
}

impl DatabaseConfig {
    /// The settings that the given values name: each absent or unparsable
    /// value takes its default, and connections are always tested before
    /// use.
    pub fn from_settings(
        url: String,
        max_connections: Option<String>,
        min_connections: Option<String>,
        acquire_timeout_secs: Option<String>,
        idle_timeout_secs: Option<String>,
        max_lifetime_secs: Option<String>,
    ) -> (r: DatabaseConfig)
        ensures
            r.url == url,
            r.max_connections == setting_value(
                max_connections,
                DEFAULT_MAX_CONNECTIONS as int,
                u32::MAX as int,
            ),
            r.min_connections == setting_value(
                min_connections,
                DEFAULT_MIN_CONNECTIONS as int,
                u32::MAX as int,
            ),
            r.acquire_timeout_secs == setting_value(
                acquire_timeout_secs,
                DEFAULT_ACQUIRE_TIMEOUT_SECS as int,
                u64::MAX as int,
            ),
            r.idle_timeout_secs == setting_value(
                idle_timeout_secs,
                DEFAULT_IDLE_TIMEOUT_SECS as int,
                u64::MAX as int,
            ),
            r.max_lifetime_secs == setting_value(
                max_lifetime_secs,
                DEFAULT_MAX_LIFETIME_SECS as int,
                u64::MAX as int,
            ),
            r.test_before_acquire,
    {
        DatabaseConfig {
            url,
            max_connections: u32_setting(&max_connections, DEFAULT_MAX_CONNECTIONS),
            min_connections: u32_setting(&min_connections, DEFAULT_MIN_CONNECTIONS),
            acquire_timeout_secs: u64_setting(&acquire_timeout_secs, DEFAULT_ACQUIRE_TIMEOUT_SECS),
            idle_timeout_secs: u64_setting(&idle_timeout_secs, DEFAULT_IDLE_TIMEOUT_SECS),
            max_lifetime_secs: u64_setting(&max_lifetime_secs, DEFAULT_MAX_LIFETIME_SECS),
            test_before_acquire: true,
        }
    }
}

} // verus!

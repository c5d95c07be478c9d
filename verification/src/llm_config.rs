//! Configuration of the LLM feedback loop: where the LLM server is, how the
//! game authenticates with it, which model it asks, how often it polls and
//! how long the answers may be. Intervals are milliseconds.

use vstd::prelude::*;
use vstd::string::StringExecFns;

verus! {

/// Settings of the LLM feedback loop.
#[derive(Clone, Debug)]
pub struct LlmConfig {
    pub server_url: String,
    pub api_key: String,
    pub model: String,
    pub poll_interval_ms: u64,
    pub enabled: bool,
    pub max_tokens: u32,
}

/// Server used when none is configured.
pub const DEFAULT_LLM_SERVER_URL: &'static str = "http://localhost:8080";

/// Key used when none is configured; local servers accept any.
pub const DEFAULT_LLM_API_KEY: &'static str = "any-key-works";

/// Model asked for when none is configured.
pub const DEFAULT_LLM_MODEL: &'static str = "local-model";

/// Time between two polls of the LLM.
pub const DEFAULT_POLL_INTERVAL_MS: u64 = 5000;

/// Longest answer asked for, in tokens.
pub const DEFAULT_MAX_TOKENS: u32 = 10000;

/// The code of `c` with ASCII upper-case letters made lower-case.
pub open spec fn ascii_lower(c: char) -> u32 {
    if 'A' <= c && c <= 'Z' {
        (c as u32 + 32) as u32
    } else {
        c as u32
    }
}

/// Whether `a` and `b` are equal up to the case of ASCII letters.
pub open spec fn eq_ignore_ascii_case(a: Seq<char>, b: Seq<char>) -> bool {
    a.len() == b.len() && forall|i: int| 0 <= i < a.len() ==> ascii_lower(#[trigger] a[i]) == ascii_lower(b[i])
}

fn ascii_lower_exec(c: char) -> (r: u32)
    ensures
        r == ascii_lower(c),
{
    if 'A' <= c && c <= 'Z' {
        c as u32 + 32
    } else {
        c as u32
    }
}

/// Whether the setting reads "true" in any letter case.
pub fn setting_is_true(value: &str) -> (r: bool)
    ensures
        r == eq_ignore_ascii_case(value@, "true"@),
{
    proof {
        reveal_strlit("true");
    }
    let expected = crate::text::chars_of("true");
    let given = crate::text::chars_of(value);
    if given.len() != expected.len() {
        return false;
    }
    let mut i: usize = 0;
    while i < given.len()
        invariant
            i <= given@.len(),
            given@ == value@,
            expected@ == "true"@,
            given@.len() == expected@.len(),
            forall|k: int| 0 <= k < i ==> ascii_lower(#[trigger] given@[k]) == ascii_lower(expected@[k]),
        decreases given@.len() - i,
    {
        if ascii_lower_exec(given[i]) != ascii_lower_exec(expected[i]) {
            return false;
        }
        i = i + 1;
    }
    true
}

impl LlmConfig {
    /// The configuration from the environment's settings: each given
    /// setting replaces its default, and the loop is enabled unless the
    /// enabling setting is given and is not "true" in some letter case.
    pub fn from_settings(
        server_url: Option<String>,
        api_key: Option<String>,
        model: Option<String>,
        enabled: Option<String>,
    ) -> (r: LlmConfig)
        ensures
            r.server_url@ == match server_url { Some(s) => s@, None => DEFAULT_LLM_SERVER_URL@ },
            r.api_key@ == match api_key { Some(s) => s@, None => DEFAULT_LLM_API_KEY@ },
            r.model@ == match model { Some(s) => s@, None => DEFAULT_LLM_MODEL@ },
            r.enabled == match enabled { Some(s) => eq_ignore_ascii_case(s@, "true"@), None => true },
            r.poll_interval_ms == DEFAULT_POLL_INTERVAL_MS,
            r.max_tokens == DEFAULT_MAX_TOKENS,
    {
        LlmConfig {
            server_url: match server_url {
                Some(s) => s,
                None => String::from_str(DEFAULT_LLM_SERVER_URL),
            },
            api_key: match api_key {
                Some(s) => s,
                None => String::from_str(DEFAULT_LLM_API_KEY),
            },
            model: match model {
                Some(s) => s,
                None => String::from_str(DEFAULT_LLM_MODEL),
            },
            poll_interval_ms: DEFAULT_POLL_INTERVAL_MS,
            enabled: match enabled {
                Some(s) => setting_is_true(s.as_str()),
                None => true,
            },
            max_tokens: DEFAULT_MAX_TOKENS,
        }
    }
}

} // verus!

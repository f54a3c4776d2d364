//! The settings that the bot is started with.

use vstd::prelude::*;

verus! {

/// How many times the model is asked within one turn, tool calls
/// included, unless the settings say otherwise.
pub const DEFAULT_TOOL_ITERATIONS: usize = 8;

/// The settings of the bot. A limit that is absent, or zero, is no limit.
#[derive(Debug, PartialEq, Eq)]
pub struct Config {
    pub api_url: String,
    pub proxy: Option<String>,
    pub bearer_token: String,
    pub model: String,
    pub system_promote: String,
    pub max_output_tokens: Option<u32>,
    /// The most messages sent to the model with one request.
    pub max_messages: Option<usize>,
    /// The most estimated tokens sent to the model with one request.
    pub max_tokens: Option<usize>,
    /// How many times the model is asked within one turn.
    pub max_tool_iterations: usize,
}

/// The limit that `limit` sets, zero standing for none.
pub open spec fn limit_of(bound: Option<usize>) -> usize {
    match bound {
        Some(n) => n,
        None => 0,
    }
}

/// The limit that `limit` sets, zero standing for none.
pub fn limit(bound: Option<usize>) -> (r: usize)
    ensures
        r == limit_of(bound),
{
    match bound {
        Some(n) => n,
        None => 0,
    }
}

impl Default for Config {
    /// The settings written out for a new installation: placeholders for
    /// the operator to fill in, and no limits.
    fn default() -> (r: Self)
        ensures
            r.api_url@ == "Your API URL"@,
            r.proxy is None,
            r.bearer_token@ == "Your API Token"@,
            r.model@ == "Your Model"@,
            r.system_promote@ == "System Promote"@,
            r.max_output_tokens is None,
            r.max_messages is None,
            r.max_tokens is None,
            r.max_tool_iterations == DEFAULT_TOOL_ITERATIONS,
    {
        Config {
            api_url: "Your API URL".to_string(),
            proxy: None,
            bearer_token: "Your API Token".to_string(),
            model: "Your Model".to_string(),
            system_promote: "System Promote".to_string(),
            max_output_tokens: None,
            max_messages: None,
            max_tokens: None,
            max_tool_iterations: DEFAULT_TOOL_ITERATIONS,
        }
    }
}

} // verus!

//! The agent's configuration.

use vstd::prelude::*;

verus! {

/// Configuration for the agent.
#[derive(Debug, Clone)]
pub struct Config {
    pub provider: String,
    pub chat_model: String,
    pub default_model: String,
    pub idle_interval_secs: u64,
    pub context_budget: usize,
}

impl Config {
    /// Whether `self` holds the default settings: the `openai` provider,
    /// `gpt-4` for chat and by default, a 30 second idle interval and a
    /// context budget of 128000.
    pub open spec fn is_default(&self) -> bool {
        &&& self.provider@ == "openai"@
        &&& self.chat_model@ == "gpt-4"@
        &&& self.default_model@ == "gpt-4"@
        &&& self.idle_interval_secs == 30
        &&& self.context_budget == 128_000
    }
}

impl Default for Config {
    fn default() -> (r: Self)
        ensures
            r.is_default(),
    {
        Config {
            provider: String::from_str("openai"),
            chat_model: String::from_str("gpt-4"),
            default_model: String::from_str("gpt-4"),
            idle_interval_secs: 30,
            context_budget: 128_000,
        }
    }
}

} // verus!

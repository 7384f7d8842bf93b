//! The agent's runtime context, threaded through its cognition loop.

use vstd::prelude::*;

use crate::agenda::AgendaItem;
use crate::config::Config;
use crate::goals::Goal;

verus! {

/// The agent's runtime context, threaded through the cognition loop.
#[derive(Debug, Clone)]
pub struct AgentContext {
    /// How many turns the agent has taken so far.
    pub turn_count: u64,
    /// The current goal stack.
    pub goals: Vec<Goal>,
    /// The current agenda items.
    pub agenda: Vec<AgendaItem>,
    /// Digest of the agent's rumination (latest introspection).
    pub rumination_digest: Option<String>,
    /// Agent configuration.
    pub config: Config,
}

impl AgentContext {
    /// A fresh context: no turn taken, no goal, nothing on the agenda, no
    /// rumination yet, and the given configuration.
    pub fn new(config: Config) -> (r: Self)
        ensures
            r.turn_count == 0,
            r.goals@.len() == 0,
            r.agenda@.len() == 0,
            r.rumination_digest is None,
            r.config == config,
    {
        AgentContext {
            turn_count: 0,
            goals: Vec::new(),
            agenda: Vec::new(),
            rumination_digest: None,
            config,
        }
    }
}

} // verus!

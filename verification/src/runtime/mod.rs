//! Where agent events come from.
use vstd::prelude::*;

use crate::reducer::AgentEvent;

pub mod app_server;
pub mod fake;

use self::fake::ScriptedAgentEvent;

verus! {

/// A source of agent events.
pub trait AgentRuntime {
    /// Whether the runtime can number one more turn.
    spec fn can_start(&self) -> bool;

    /// Starts a turn in a project.
    fn start_turn(&mut self, project_path: &str, prompt: String) -> Vec<ScriptedAgentEvent>
        requires
            old(self).can_start(),
    ;

    /// Breaks the turn off.
    fn interrupt(&mut self) -> AgentEvent;
}

}

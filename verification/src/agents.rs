//! The agents that are known.

use vstd::prelude::*;

verus! {

/// How an agent is named: by its id in files, on the command line and in events,
/// and by its name where it is shown.
#[derive(Clone, Copy, Debug)]
pub struct KnownAgent {
    pub id: &'static str,
    pub name: &'static str,
}

/// How the agents that are known are named, as far as that is left to the
/// program: the ids and the names of the others are fixed.
#[derive(Clone, Copy, Debug)]
pub struct AgentRegistry {
    pub claude: KnownAgent,
}

impl AgentRegistry {
    /// The agent whose id is left to the program has one of its own.
    pub open spec fn ids_differ(self) -> bool {
        let id = self.claude.id@;
        id != "copilot"@ && id != "codex"@ && id != "gemini"@ && id != "opencode"@
    }
}

} // verus!

//! The state of a run.

use vstd::prelude::*;

verus! {

/// What an interactive run keeps between two commands.
#[derive(Debug, Clone)]
pub struct AppState {
    pub current_agent: Option<String>,
    pub current_session: Option<String>,
    pub mastra_url: String,
    pub is_connected: bool,
    pub history: Vec<String>,
}

impl AppState {
    /// The state at the start of a run: the service's address, nothing
    /// chosen, not connected, no history.
    pub fn new(mastra_url: String) -> (state: Self)
        ensures
            state.current_agent is None,
            state.current_session is None,
            state.mastra_url == mastra_url,
            !state.is_connected,
            state.history@.len() == 0,
    {
        Self {
            current_agent: None,
            current_session: None,
            mastra_url,
            is_connected: false,
            history: Vec::new(),
        }
    }
}

} // verus!

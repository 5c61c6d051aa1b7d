//! The command line, and what an invocation asks for.

use vstd::prelude::*;
use std::path::PathBuf;
use crate::utils::text::{is_trimmed, join, joined_with};

verus! {

/// The arguments of one invocation.
pub struct Cli {
    /// The words of the message to send.
    pub message: Option<Vec<String>>,
    /// The agent to talk to.
    pub agent: Option<String>,
    /// Where the configuration is kept, if not at its usual place.
    pub config_path: Option<PathBuf>,
    /// Asks for the list of agents.
    pub list_agents: bool,
    /// Asks for what is known of one agent.
    pub agent_info: Option<String>,
    pub command: Option<Commands>,
}

/// The subcommands.
pub enum Commands {
    /// Show the version.
    Version,
}

/// What an invocation asks for.
#[derive(Debug, PartialEq, Eq)]
pub enum Plan {
    /// List the agents.
    ListAgents,
    /// Show one agent.
    AgentInfo(String),
    /// Send this message.
    Chat(String),
    /// No message was given as an argument: one may come on standard input.
    AwaitInput,
    /// Nothing to send.
    Interactive,
}

impl Cli {
    /// What the arguments ask for. A listing goes before a lookup, a lookup
    /// before a message; the words of a message are joined by single spaces.
    pub fn plan(&self) -> (plan: Plan)
        ensures
            match plan {
                Plan::ListAgents => self.list_agents,
                Plan::AgentInfo(name) => !self.list_agents && self.agent_info == Some(name),
                Plan::Chat(message) => {
                    &&& !self.list_agents
                    &&& self.agent_info is None
                    &&& self.message matches Some(words)
                    &&& words@.len() > 0
                    &&& message@ == joined_with(words@, " "@)
                },
                Plan::AwaitInput => {
                    &&& !self.list_agents
                    &&& self.agent_info is None
                    &&& self.message is None
                },
                Plan::Interactive => {
                    &&& !self.list_agents
                    &&& self.agent_info is None
                    &&& self.message matches Some(words)
                    &&& words@.len() == 0
                },
            },
    {
        if self.list_agents {
            return Plan::ListAgents;
        }
        match &self.agent_info {
            Some(name) => {
                return Plan::AgentInfo(name.clone());
            },
            None => {},
        }
        match &self.message {
            Some(words) => {
                if words.len() == 0 {
                    Plan::Interactive
                } else {
                    Plan::Chat(join(words, " "))
                }
            },
            None => Plan::AwaitInput,
        }
    }

    /// What text that came on standard input asks for: to send it without the
    /// white space around it, or nothing where only white space came.
    pub fn plan_for_input(input: &str) -> (plan: Plan)
        ensures
            match plan {
                Plan::Chat(message) => is_trimmed(message@, input@) && message@.len() > 0,
                Plan::Interactive => is_trimmed(Seq::empty(), input@),
                _ => false,
            },
    {
        let rest = input.trim();
        if rest.is_empty() {
            assert(rest@ =~= Seq::<char>::empty());
            Plan::Interactive
        } else {
            Plan::Chat(rest.to_owned())
        }
    }
}

} // verus!

//! What the commands decide and show. Sending and printing are left to the
//! caller.

use vstd::prelude::*;
use vstd::string::StringExecFns;
use crate::agent::discovery::Agent;
use crate::config::types::Config;
use crate::utils::text::{join, joined_with};

verus! {

/// Why a message cannot be sent.
#[derive(Debug, Clone, Copy, PartialEq, Eq)]
pub enum CommandError {
    /// The message is empty.
    EmptyMessage,
    /// No agent was named, and none is configured.
    NoAgent,
}

/// Where a message goes: the agent, and the thread that the call continues.
#[derive(Debug, PartialEq, Eq)]
pub struct ChatTarget {
    pub agent: String,
    pub thread_id: Option<String>,
}

/// The agent that a message goes to: the one named, else the configured one.
pub open spec fn chosen_agent(config: Config, agent_name: Option<&str>) -> Option<Seq<char>> {
    match agent_name {
        Some(name) => Some(name@),
        None => config.default_agent.deep_view(),
    }
}

/// The line that shows one agent in a listing.
pub open spec fn listing_line(agent: Agent) -> Seq<char> {
    "  - "@ + agent.name@ + ": "@ + agent.description@
}

/// Whether `lines` are what is shown of one agent: its name, its
/// description, and its tools where it has any recorded.
pub open spec fn is_agent_info(lines: Seq<String>, agent: Agent) -> bool {
    &&& lines.len() == if agent.tools is Some { 3int } else { 2int }
    &&& lines[0]@ == "Agent: "@ + agent.name@
    &&& lines[1]@ == "Description: "@ + agent.description@
    &&& agent.tools matches Some(tools) ==> lines[2]@ == "Tools: "@ + joined_with(tools@, ", "@)
}

impl CommandError {
    /// The text that tells the user what is wrong.
    pub fn message(&self) -> (text: String)
        ensures
            text@ == match self {
                CommandError::EmptyMessage =>
                    "Message cannot be empty. Please provide a message to send."@,
                CommandError::NoAgent =>
                    "No agent specified. Use --agent or set default_agent in config"@,
            },
    {
        match self {
            CommandError::EmptyMessage => String::from_str(
                "Message cannot be empty. Please provide a message to send.",
            ),
            CommandError::NoAgent => String::from_str(
                "No agent specified. Use --agent or set default_agent in config",
            ),
        }
    }
}

/// Decides where a message goes, before anything is sent. An empty message
/// is refused first; then the agent is the one named, else the configured
/// one, and it is a failure to have neither. The call continues the
/// configured session.
pub fn handle_command_mode(config: &Config, message: &str, agent_name: Option<&str>) -> (target:
    Result<ChatTarget, CommandError>)
    ensures
        match target {
            Err(CommandError::EmptyMessage) => message@.len() == 0,
            Err(CommandError::NoAgent) => message@.len() > 0 && chosen_agent(*config, agent_name)
                is None,
            Ok(target) => {
                &&& message@.len() > 0
                &&& chosen_agent(*config, agent_name) == Some(target.agent@)
                &&& target.thread_id.deep_view() == config.default_session.deep_view()
            },
        },
{
    if message.is_empty() {
        return Err(CommandError::EmptyMessage);
    }
    let agent = match agent_name {
        Some(name) => String::from_str(name),
        None => match &config.default_agent {
            Some(name) => name.clone(),
            None => {
                return Err(CommandError::NoAgent);
            },
        },
    };
    Ok(ChatTarget { agent, thread_id: config.default_session.clone() })
}

/// What is shown of a response: the response, unless it is empty.
pub fn response_output(response: String) -> (shown: Option<String>)
    ensures
        shown == if response@.len() == 0 {
            None
        } else {
            Some(response)
        },
{
    if response.as_str().is_empty() {
        None
    } else {
        Some(response)
    }
}

/// The lines that show a listing: a heading, then one line for each agent,
/// in order.
pub fn handle_list_agents(agents: &Vec<Agent>) -> (lines: Vec<String>)
    ensures
        lines@.len() == agents@.len() + 1,
        lines@[0]@ == "Available agents:"@,
        forall|i: int| 0 <= i < agents@.len() ==> (#[trigger] lines@[i + 1])@ == listing_line(agents@[i]),
{
    let mut lines: Vec<String> = Vec::new();
    lines.push(String::from_str("Available agents:"));
    let mut i: usize = 0;
    while i < agents.len()
        invariant
            0 <= i <= agents.len(),
            lines@.len() == i + 1,
            lines@[0]@ == "Available agents:"@,
            forall|k: int| 0 <= k < i ==> (#[trigger] lines@[k + 1])@ == listing_line(agents@[k]),
        decreases agents.len() - i,
    {
        let agent = &agents[i];
        let mut line = String::from_str("  - ");
        line.append(agent.name.as_str());
        line.append(": ");
        line.append(agent.description.as_str());
        lines.push(line);
        i = i + 1;
    }
    lines
}

/// The lines that show one agent.
pub fn handle_agent_info(agent: &Agent) -> (lines: Vec<String>)
    ensures
        is_agent_info(lines@, *agent),
{
    let mut lines: Vec<String> = Vec::new();
    let mut name = String::from_str("Agent: ");
    name.append(agent.name.as_str());
    lines.push(name);
    let mut description = String::from_str("Description: ");
    description.append(agent.description.as_str());
    lines.push(description);
    match &agent.tools {
        Some(tools) => {
            let mut line = String::from_str("Tools: ");
            line.append(join(tools, ", ").as_str());
            lines.push(line);
        },
        None => {},
    }
    lines
}

} // verus!

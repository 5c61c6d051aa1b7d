//! The agent directory.

use vstd::prelude::*;
use crate::agent::client::{fetched, listed, lookup_failure, AgentClient};
use crate::agent::exchange::{is_success, Exchange};
use crate::utils::errors::{failure_view, AppError, AppErrorView};

verus! {

/// What the service tells about one agent.
#[derive(Debug, Clone)]
pub struct Agent {
    pub name: String,
    pub description: String,
    pub tools: Option<Vec<String>>,
}

/// The directory of the agents of one service.
pub struct AgentDiscovery {
    client: AgentClient,
}

/// Whether the lookup of `name` found the agent.
pub open spec fn found(name: Seq<char>, exchange: Exchange<Agent>) -> bool {
    fetched(name, exchange) is Ok
}

impl AgentDiscovery {
    /// The client through which the directory is read.
    pub closed spec fn client(&self) -> AgentClient {
        self.client
    }

    /// The directory of the service at `base_url`.
    pub fn new(base_url: String) -> (discovery: Self)
        ensures
            discovery.client().base() == base_url@,
    {
        Self { client: AgentClient::new(base_url) }
    }

    /// The client through which the directory is read.
    pub fn agent_client(&self) -> (client: &AgentClient)
        ensures
            *client == self.client(),
    {
        &self.client
    }

    /// Settles a listing of the agent collection.
    pub fn list_agents(&self, exchange: Exchange<Vec<Agent>>) -> (agents: Result<
        Vec<Agent>,
        AppError,
    >)
        ensures
            failure_view(agents) == listed(exchange),
    {
        self.client.list_agents(exchange)
    }

    /// Settles the lookup of the agent `name`.
    pub fn get_agent(&self, name: &str, exchange: Exchange<Agent>) -> (agent: Result<
        Agent,
        AppError,
    >)
        ensures
            failure_view(agent) == fetched(name@, exchange),
    {
        self.client.get_agent(name, exchange)
    }

    /// Whether the lookup of `name` found the agent. Every failure, whatever
    /// its kind, counts as not found; the call itself never fails.
    pub fn validate_agent(&self, name: &str, exchange: Exchange<Agent>) -> (valid: Result<
        bool,
        AppError,
    >)
        ensures
            valid matches Ok(answer) && answer == found(name@, exchange),
    {
        match self.get_agent(name, exchange) {
            Ok(_) => Ok(true),
            Err(_) => Ok(false),
        }
    }
}

/// A lookup that the service refuses fails with a failure of the agent kind
/// that names the agent and the status; a lookup that never got a response
/// fails with a failure of the network kind. The two are told apart by the
/// lookup, and both count as not found.
pub proof fn lemma_refusal_is_not_network_failure(
    name: Seq<char>,
    status: u16,
    body: Result<Agent, reqwest::Error>,
    cause: reqwest::Error,
)
    requires
        !is_success(status),
    ensures
        fetched(name, Exchange::Answered { status, body }) == Err::<Agent, AppErrorView>(
            AppErrorView::Agent(lookup_failure(name, status)),
        ),
        fetched(name, Exchange::Failed(cause)) == Err::<Agent, AppErrorView>(
            AppErrorView::Network(cause),
        ),
        fetched(name, Exchange::Answered { status, body }) != fetched(name, Exchange::Failed(cause)),
        !found(name, Exchange::Answered { status, body }),
        !found(name, Exchange::Failed(cause)),
{
}

} // verus!

//! The client of an agent service: the addresses it calls, the request it
//! sends, and what it makes of the responses.

use vstd::prelude::*;
use vstd::string::StringExecFns;
use crate::agent::chat::{chat_result, lemma_terminal_prefix, ChatState, Progress};
use crate::agent::discovery::Agent;
use crate::agent::exchange::{is_success, status_is_success, status_line, status_text, Exchange};
use crate::agent::signal::Signal;
use crate::utils::errors::{failure_view, text_view, AppError, AppErrorView};

verus! {

/// One part of a chat message.
#[derive(Debug)]
pub struct ChatMessageContent {
    pub content_type: String,
    pub text: String,
}

/// One message of a chat request.
#[derive(Debug)]
pub struct ChatMessage {
    pub role: String,
    pub content: Vec<ChatMessageContent>,
}

/// The body of a chat call.
#[derive(Debug)]
pub struct ChatRequest {
    pub messages: Vec<ChatMessage>,
    pub run_id: String,
    pub model_settings: Option<serde_json::Value>,
    pub runtime_context: Option<serde_json::Value>,
    pub thread_id: Option<String>,
    pub resource_id: String,
}

/// The client of one agent service, known by its base address.
pub struct AgentClient {
    base_url: String,
}

/// Whether a chat request is the one that carries `message` to `agent_name`:
/// a single user message with a single text part, the agent's name as both
/// run and resource, the thread as given, and no settings.
pub open spec fn is_chat_request(
    request: ChatRequest,
    agent_name: Seq<char>,
    message: Seq<char>,
    thread_id: Option<Seq<char>>,
) -> bool {
    &&& request.messages@.len() == 1
    &&& request.messages@[0].role@ == "user"@
    &&& request.messages@[0].content@.len() == 1
    &&& request.messages@[0].content@[0].content_type@ == "text"@
    &&& request.messages@[0].content@[0].text@ == message
    &&& request.run_id@ == agent_name
    &&& request.resource_id@ == agent_name
    &&& request.thread_id.deep_view() == thread_id
    &&& request.model_settings is None
    &&& request.runtime_context is None
}

/// The message with which a refused listing is reported.
pub open spec fn list_failure(status: u16) -> Seq<char> {
    "Failed to list agents: "@ + status_line(status)
}

/// The message with which a refused lookup is reported.
pub open spec fn lookup_failure(name: Seq<char>, status: u16) -> Seq<char> {
    "Agent '"@ + name + "' not found: "@ + status_line(status)
}

/// What an exchange comes to: a transport failure where no response arrived;
/// where the status is not a success, a failure of the agent kind with the
/// message that `refusal` gives for the status; else the decoded body, or the
/// failure to decode it as a transport failure.
pub open spec fn settled<T>(exchange: Exchange<T>, refusal: spec_fn(u16) -> Seq<char>) -> Result<
    T,
    AppErrorView,
> {
    match exchange {
        Exchange::Failed(cause) => Err(AppErrorView::Network(cause)),
        Exchange::Answered { status, body } => if !is_success(status) {
            Err(AppErrorView::Agent(refusal(status)))
        } else {
            match body {
                Ok(value) => Ok(value),
                Err(cause) => Err(AppErrorView::Network(cause)),
            }
        },
    }
}

/// What a listing comes to.
pub open spec fn listed(exchange: Exchange<Vec<Agent>>) -> Result<Vec<Agent>, AppErrorView> {
    settled(exchange, |status: u16| list_failure(status))
}

/// What the lookup of `name` comes to.
pub open spec fn fetched(name: Seq<char>, exchange: Exchange<Agent>) -> Result<
    Agent,
    AppErrorView,
> {
    settled(exchange, |status: u16| lookup_failure(name, status))
}

impl AgentClient {
    /// The base address of the service.
    pub closed spec fn base(&self) -> Seq<char> {
        self.base_url@
    }

    /// A client of the service at `base_url`.
    pub fn new(base_url: String) -> (client: Self)
        ensures
            client.base() == base_url@,
    {
        Self { base_url }
    }

    /// The address of the agent collection.
    pub fn agents_url(&self) -> (url: String)
        ensures
            url@ == self.base() + "/api/agents"@,
    {
        let mut url = self.base_url.clone();
        url.append("/api/agents");
        url
    }

    /// The address of one agent.
    pub fn agent_url(&self, name: &str) -> (url: String)
        ensures
            url@ == self.base() + "/api/agents/"@ + name@,
    {
        let mut url = self.base_url.clone();
        url.append("/api/agents/");
        url.append(name);
        url
    }

    /// The address of an agent's chat stream.
    pub fn chat_url(&self, agent_name: &str) -> (url: String)
        ensures
            url@ == self.base() + "/api/agents/"@ + agent_name@ + "/stream"@,
    {
        let mut url = self.agent_url(agent_name);
        url.append("/stream");
        url
    }

    /// The body of the chat call that carries `message` to `agent_name`.
    pub fn chat_request(agent_name: &str, message: &str, thread_id: Option<&str>) -> (request:
        ChatRequest)
        ensures
            is_chat_request(request, agent_name@, message@, thread_id.deep_view()),
    {
        let mut content: Vec<ChatMessageContent> = Vec::new();
        content.push(
            ChatMessageContent {
                content_type: String::from_str("text"),
                text: String::from_str(message),
            },
        );
        let mut messages: Vec<ChatMessage> = Vec::new();
        messages.push(ChatMessage { role: String::from_str("user"), content });
        let thread_id = match thread_id {
            Some(thread) => Some(String::from_str(thread)),
            None => None,
        };
        ChatRequest {
            messages,
            run_id: String::from_str(agent_name),
            model_settings: None,
            runtime_context: None,
            thread_id,
            resource_id: String::from_str(agent_name),
        }
    }

    /// Settles a listing of the agent collection.
    pub fn list_agents(&self, exchange: Exchange<Vec<Agent>>) -> (agents: Result<
        Vec<Agent>,
        AppError,
    >)
        ensures
            failure_view(agents) == listed(exchange),
    {
        match exchange {
            Exchange::Failed(cause) => Err(AppError::Network(cause)),
            Exchange::Answered { status, body } => {
                if !status_is_success(status) {
                    let mut message = String::from_str("Failed to list agents: ");
                    message.append(status_text(status).as_str());
                    Err(AppError::Agent(message))
                } else {
                    match body {
                        Ok(agents) => Ok(agents),
                        Err(cause) => Err(AppError::Network(cause)),
                    }
                }
            },
        }
    }

    /// Settles the lookup of the agent `name`.
    pub fn get_agent(&self, name: &str, exchange: Exchange<Agent>) -> (agent: Result<
        Agent,
        AppError,
    >)
        ensures
            failure_view(agent) == fetched(name@, exchange),
    {
        match exchange {
            Exchange::Failed(cause) => Err(AppError::Network(cause)),
            Exchange::Answered { status, body } => {
                if !status_is_success(status) {
                    let mut message = String::from_str("Agent '");
                    message.append(name);
                    message.append("' not found: ");
                    message.append(status_text(status).as_str());
                    Err(AppError::Agent(message))
                } else {
                    match body {
                        Ok(agent) => Ok(agent),
                        Err(cause) => Err(AppError::Network(cause)),
                    }
                }
            },
        }
    }

    /// Consumes a recorded chat stream: the signals in order up to the first
    /// that ends the consumption, then the close of the stream.
    pub fn chat(&self, signals: &Vec<Signal<String>>) -> (reported: Result<String, AppError>)
        ensures
            text_view(reported) == chat_result(signals@),
    {
        let mut state = ChatState::new();
        let mut i: usize = 0;
        assert(signals@.take(0) =~= Seq::empty());
        while i < signals.len() && !state.is_terminal()
            invariant
                0 <= i <= signals.len(),
                state@ == Progress::start().run(signals@.take(i as int)),
            decreases signals.len() - i,
        {
            state = state.advance(&signals[i]);
            assert(signals@.take(i + 1).drop_last() =~= signals@.take(i as int));
            i = i + 1;
        }
        proof {
            if i < signals.len() {
                lemma_terminal_prefix(Progress::start(), signals@, i as int);
            } else {
                assert(signals@.take(i as int) =~= signals@);
            }
        }
        state.close().into_result()
    }
}

} // verus!

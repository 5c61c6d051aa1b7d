use vargos_cli::agent::client::{AgentClient, ChatRequest};
use vargos_cli::agent::discovery::Agent;
use vargos_cli::agent::exchange::{status_is_success, Exchange};
use vargos_cli::agent::AgentDiscovery;
use vargos_cli::utils::AppError;

fn transport_failure() -> reqwest::Error {
    reqwest::Client::new().get("not an address").build().unwrap_err()
}

fn agent(name: &str) -> Agent {
    Agent {
        name: name.to_string(),
        description: format!("the {} agent", name),
        tools: Some(vec!["search".to_string()]),
    }
}

fn client() -> AgentClient {
    AgentClient::new("http://localhost:4862".to_string())
}

#[test]
fn list_against_status_500_is_a_directory_failure() {
    let exchange = Exchange::Answered { status: 500, body: Ok(Vec::new()) };
    match client().list_agents(exchange) {
        Err(AppError::Agent(message)) => {
            assert_eq!(message, "Failed to list agents: 500 Internal Server Error")
        }
        other => panic!("expected a directory failure, got {:?}", other),
    }
}

#[test]
fn list_returns_the_decoded_agents() {
    let exchange = Exchange::Answered { status: 200, body: Ok(vec![agent("a"), agent("b")]) };
    let agents = client().list_agents(exchange).unwrap();
    assert_eq!(agents.len(), 2);
    assert_eq!(agents[0].name, "a");
    assert_eq!(agents[1].name, "b");
    assert_eq!(agents[1].description, "the b agent");
}

#[test]
fn list_without_response_is_a_network_failure() {
    let cause = transport_failure();
    let shown = cause.to_string();
    match client().list_agents(Exchange::Failed(cause)) {
        Err(AppError::Network(kept)) => assert_eq!(kept.to_string(), shown),
        other => panic!("expected a network failure, got {:?}", other),
    }
}

#[test]
fn list_with_undecodable_body_is_a_network_failure() {
    let exchange = Exchange::Answered { status: 200, body: Err(transport_failure()) };
    assert!(matches!(client().list_agents(exchange), Err(AppError::Network(_))));
}

#[test]
fn refused_list_ignores_the_body() {
    let exchange = Exchange::Answered { status: 404, body: Err(transport_failure()) };
    match client().list_agents(exchange) {
        Err(AppError::Agent(message)) => assert_eq!(message, "Failed to list agents: 404 Not Found"),
        other => panic!("expected a directory failure, got {:?}", other),
    }
}

#[test]
fn get_of_unknown_agent_names_agent_and_status() {
    let exchange = Exchange::Answered { status: 404, body: Ok(agent("ghost")) };
    match client().get_agent("ghost", exchange) {
        Err(AppError::Agent(message)) => assert_eq!(message, "Agent 'ghost' not found: 404 Not Found"),
        other => panic!("expected a directory failure, got {:?}", other),
    }
}

#[test]
fn get_without_response_is_a_network_failure() {
    assert!(matches!(
        client().get_agent("ghost", Exchange::Failed(transport_failure())),
        Err(AppError::Network(_))
    ));
}

#[test]
fn get_returns_the_decoded_agent() {
    let exchange = Exchange::Answered { status: 200, body: Ok(agent("helper")) };
    let found = client().get_agent("helper", exchange).unwrap();
    assert_eq!(found.name, "helper");
    assert_eq!(found.tools, Some(vec!["search".to_string()]));
}

#[test]
fn success_is_the_2xx_class() {
    assert!(!status_is_success(199));
    assert!(status_is_success(200));
    assert!(status_is_success(204));
    assert!(status_is_success(299));
    assert!(!status_is_success(300));
    assert!(!status_is_success(404));
    assert!(!status_is_success(0));
    assert!(!status_is_success(u16::MAX));
}

#[test]
fn boundary_statuses_are_refused_with_their_reason() {
    let refused = |status: u16| match client().list_agents(Exchange::Answered { status, body: Ok(Vec::new()) }) {
        Err(AppError::Agent(message)) => message,
        other => panic!("expected a directory failure, got {:?}", other),
    };
    assert_eq!(refused(199), "Failed to list agents: 199 <unknown status code>");
    assert_eq!(refused(300), "Failed to list agents: 300 Multiple Choices");
    assert_eq!(refused(503), "Failed to list agents: 503 Service Unavailable");
    assert_eq!(refused(42), "Failed to list agents: invalid status code");
}

#[test]
fn validate_collapses_every_failure_to_false() {
    let discovery = AgentDiscovery::new("http://localhost:4862".to_string());
    let not_found = Exchange::Answered { status: 404, body: Ok(agent("ghost")) };
    assert_eq!(discovery.validate_agent("ghost", not_found).unwrap(), false);
    let unreachable = Exchange::Failed(transport_failure());
    assert_eq!(discovery.validate_agent("ghost", unreachable).unwrap(), false);
    let undecodable = Exchange::Answered { status: 200, body: Err(transport_failure()) };
    assert_eq!(discovery.validate_agent("ghost", undecodable).unwrap(), false);
}

#[test]
fn validate_is_true_for_a_found_agent() {
    let discovery = AgentDiscovery::new("http://localhost:4862".to_string());
    let found = Exchange::Answered { status: 200, body: Ok(agent("helper")) };
    assert_eq!(discovery.validate_agent("helper", found).unwrap(), true);
}

#[test]
fn discovery_settles_like_its_client() {
    let discovery = AgentDiscovery::new("http://host".to_string());
    assert_eq!(discovery.agent_client().agents_url(), "http://host/api/agents");
    let listed = discovery
        .list_agents(Exchange::Answered { status: 200, body: Ok(vec![agent("a")]) })
        .unwrap();
    assert_eq!(listed[0].name, "a");
    match discovery.get_agent("a", Exchange::Answered { status: 500, body: Ok(agent("a")) }) {
        Err(AppError::Agent(message)) => {
            assert_eq!(message, "Agent 'a' not found: 500 Internal Server Error")
        }
        other => panic!("expected a directory failure, got {:?}", other),
    }
}

#[test]
fn addresses_are_built_from_the_base() {
    let client = AgentClient::new("http://localhost:4862".to_string());
    assert_eq!(client.agents_url(), "http://localhost:4862/api/agents");
    assert_eq!(client.agent_url("helper"), "http://localhost:4862/api/agents/helper");
    assert_eq!(client.chat_url("helper"), "http://localhost:4862/api/agents/helper/stream");
    assert_eq!(AgentClient::new(String::new()).agent_url(""), "/api/agents/");
}

fn check_request(request: &ChatRequest, agent: &str, message: &str, thread: Option<&str>) {
    assert_eq!(request.messages.len(), 1);
    assert_eq!(request.messages[0].role, "user");
    assert_eq!(request.messages[0].content.len(), 1);
    assert_eq!(request.messages[0].content[0].content_type, "text");
    assert_eq!(request.messages[0].content[0].text, message);
    assert_eq!(request.run_id, agent);
    assert_eq!(request.resource_id, agent);
    assert_eq!(request.thread_id.as_deref(), thread);
    assert!(request.model_settings.is_none());
    assert!(request.runtime_context.is_none());
}

#[test]
fn chat_request_names_the_agent_twice() {
    let request = AgentClient::chat_request("helper", "hello there", Some("thread-9"));
    check_request(&request, "helper", "hello there", Some("thread-9"));
    let request = AgentClient::chat_request("other", "", None);
    check_request(&request, "other", "", None);
}

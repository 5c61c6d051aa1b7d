pub mod chat;
pub mod client;
pub mod discovery;
pub mod exchange;
pub mod frame;
pub mod json;
pub mod session;
pub mod signal;
pub mod stream;

pub use client::AgentClient;
pub use discovery::AgentDiscovery;

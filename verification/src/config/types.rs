//! The configuration.

use vstd::prelude::*;
use vstd::string::StringExecFns;
use std::collections::HashMap;

verus! {

/// Settings of the terminal's appearance, kept as they were found.
#[derive(Debug, Clone)]
pub struct Theme {
    pub settings: HashMap<String, String>,
}

/// What the client is configured with.
#[derive(Debug, Clone)]
pub struct Config {
    pub mastra_url: String,
    pub default_agent: Option<String>,
    pub default_session: Option<String>,
    pub theme: Option<Theme>,
}

impl Default for Config {
    /// The configuration of a first run: the service on this machine, and
    /// nothing chosen.
    fn default() -> (config: Self)
        ensures
            config.mastra_url@ == "http://localhost:4862"@,
            config.default_agent is None,
            config.default_session is None,
            config.theme is None,
    {
        Self {
            mastra_url: String::from_str("http://localhost:4862"),
            default_agent: None,
            default_session: None,
            theme: None,
        }
    }
}

impl Config {
    /// This configuration with the values that the environment sets in
    /// place of its own: the service address and the default agent, each
    /// where one is given. The rest stays.
    pub fn with_overrides(self, mastra_url: Option<String>, default_agent: Option<String>) -> (config:
        Config)
        ensures
            config.mastra_url == match mastra_url {
                Some(url) => url,
                None => self.mastra_url,
            },
            config.default_agent == match default_agent {
                Some(agent) => Some(agent),
                None => self.default_agent,
            },
            config.default_session == self.default_session,
            config.theme == self.theme,
    {
        let mut config = self;
        match mastra_url {
            Some(url) => {
                config.mastra_url = url;
            },
            None => {},
        }
        match default_agent {
            Some(agent) => {
                config.default_agent = Some(agent);
            },
            None => {},
        }
        config
    }
}

} // verus!

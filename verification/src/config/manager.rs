//! Where the configuration is kept, and what a load of it comes to.

use vstd::prelude::*;
use std::path::PathBuf;
use crate::config::types::Config;

verus! {

/// `std::path::PathBuf`, carried as an opaque value.
#[verifier::external_type_specification]
#[verifier::external_body]
pub struct ExPathBuf(PathBuf);

/// The directory of the configuration, below the user's configuration
/// directory.
pub const CONFIG_DIRECTORY: &'static str = "vargos-cli";

/// The file of the configuration, in its directory.
pub const CONFIG_FILE: &'static str = "config.yaml";

/// The environment variable that sets the service address.
pub const MASTRA_URL_VARIABLE: &'static str = "VARGOS_CLI_MASTRA_URL";

/// The environment variable that sets the default agent.
pub const AGENT_VARIABLE: &'static str = "VARGOS_CLI_AGENT";

/// Knows where the configuration is kept and what a load of it comes to.
pub struct ConfigManager {
    config_path: PathBuf,
}

/// What a load came to: the configuration, and whether it has to be written
/// because none was stored.
#[derive(Debug)]
pub struct Loaded {
    pub config: Config,
    pub created: bool,
}

impl ConfigManager {
    /// The place of the configuration.
    pub closed spec fn path(&self) -> PathBuf {
        self.config_path
    }

    /// A manager of the configuration at `config_path`.
    pub fn with_path(config_path: PathBuf) -> (manager: Self)
        ensures
            manager.path() == config_path,
    {
        Self { config_path }
    }

    /// The place of the configuration.
    pub fn config_path(&self) -> (config_path: &PathBuf)
        ensures
            *config_path == self.path(),
    {
        &self.config_path
    }

    /// Settles a load. Where nothing is stored the defaults are taken as
    /// they are, to be written; the environment is consulted only for a
    /// stored configuration, whose service address and default agent it
    /// replaces.
    pub fn load(
        &self,
        stored: Option<Config>,
        mastra_url: Option<String>,
        default_agent: Option<String>,
    ) -> (loaded: Loaded)
        ensures
            loaded.created == (stored is None),
            match stored {
                None => {
                    &&& loaded.config.mastra_url@ == "http://localhost:4862"@
                    &&& loaded.config.default_agent is None
                    &&& loaded.config.default_session is None
                    &&& loaded.config.theme is None
                },
                Some(config) => {
                    &&& loaded.config.mastra_url == match mastra_url {
                        Some(url) => url,
                        None => config.mastra_url,
                    }
                    &&& loaded.config.default_agent == match default_agent {
                        Some(agent) => Some(agent),
                        None => config.default_agent,
                    }
                    &&& loaded.config.default_session == config.default_session
                    &&& loaded.config.theme == config.theme
                },
            },
    {
        match stored {
            None => Loaded { config: Config::default(), created: true },
            Some(config) => Loaded {
                config: config.with_overrides(mastra_url, default_agent),
                created: false,
            },
        }
    }
}

} // verus!

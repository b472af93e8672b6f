//! The two settings that the agent is started with.

use crate::error::{AgentError, AgentErrorView, Setting};
use vstd::prelude::*;

verus! {

/// Name of the environment variable that holds the server's base address.
pub const SERVER_URL_VAR: &'static str = "SERVER_URL";

/// Name of the environment variable that holds the pre-shared key.
pub const SERVER_KEY_VAR: &'static str = "SERVER_KEY";

/// Name of the file that holds the persisted credential, as raw text. That
/// the file is there is the one sign that the agent is registered.
pub const TOKEN_FILE: &'static str = "token.jwt";

/// Where the agent is to find the server and how it proves that it may talk
/// to it.
#[derive(Clone, Debug, PartialEq, Eq)]
pub struct Config {
    /// Base address of the coordinating server; paths are appended to it.
    pub server_url: String,
    /// Pre-shared key, sent as a header with every request.
    pub server_key: String,
}

/// A [`Config`] with its texts as sequences of characters.
pub struct ConfigView {
    pub server_url: Seq<char>,
    pub server_key: Seq<char>,
}

impl View for Config {
    type V = ConfigView;

    open spec fn view(&self) -> ConfigView {
        ConfigView { server_url: self.server_url@, server_key: self.server_key@ }
    }
}

/// The configuration that the two settings give, or the first one that is
/// missing: the address is looked at before the key.
pub open spec fn settings_result(
    server_url: Option<String>,
    server_key: Option<String>,
) -> Result<ConfigView, AgentErrorView> {
    match (server_url, server_key) {
        (None, _) => Err(AgentErrorView::ConfigMissing(Setting::ServerUrl)),
        (Some(_), None) => Err(AgentErrorView::ConfigMissing(Setting::ServerKey)),
        (Some(url), Some(key)) => Ok(ConfigView { server_url: url@, server_key: key@ }),
    }
}

impl Config {
    /// Builds the configuration from the values of the two settings, `None`
    /// standing for a setting that is not there. Both are required: without
    /// one of them there is no configuration, hence no agent and no request.
    pub fn from_settings(server_url: Option<String>, server_key: Option<String>) -> (result:
        Result<Config, AgentError>)
        ensures
            match result {
                Ok(config) => settings_result(server_url, server_key) == Ok::<
                    ConfigView,
                    AgentErrorView,
                >(config@),
                Err(error) => settings_result(server_url, server_key) == Err::<
                    ConfigView,
                    AgentErrorView,
                >(error@),
            },
    {
        match server_url {
            None => Err(AgentError::ConfigMissing(Setting::ServerUrl)),
            Some(url) => match server_key {
                None => Err(AgentError::ConfigMissing(Setting::ServerKey)),
                Some(key) => Ok(Config { server_url: url, server_key: key }),
            },
        }
    }
}

} // verus!

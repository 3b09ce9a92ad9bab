//! Proxy configuration and its validation.
use vstd::prelude::*;

verus! {

/// Why a configuration could not be loaded.
#[derive(Debug)]
pub enum ConfigError {
    IoError(std::io::Error),
    ParseError(serde_yaml::Error),
    ValidationError(String),
}

#[derive(Debug, Clone)]
pub struct Config {
    pub server: ServerConfig,
    pub ollama: OllamaConfig,
    pub security: SecurityConfig,
}

#[derive(Debug, Clone)]
pub struct ServerConfig {
    pub host: String,
    pub port: u16,
}

#[derive(Debug, Clone)]
pub struct OllamaConfig {
    pub base_url: String,
}

#[derive(Debug, Clone)]
pub struct SecurityConfig {
    pub base_url: String,
    pub api_key: String,
    pub profile_name: String,
    pub app_name: String,
    pub app_user: String,
}

/// The first rule that a configuration breaks, as the message reported for it,
/// or `None` when it breaks none. The rules are checked in this order.
pub open spec fn config_violation(c: Config) -> Option<Seq<char>> {
    if c.server.host@.len() == 0 {
        Some("Server host cannot be empty"@)
    } else if c.ollama.base_url@.len() == 0 {
        Some("Ollama base URL cannot be empty"@)
    } else if c.security.base_url@.len() == 0 || c.security.api_key@.len() == 0 {
        Some("Security credentials missing"@)
    } else if c.security.profile_name@.len() == 0 || c.security.app_name@.len() == 0
        || c.security.app_user@.len() == 0 {
        Some("AI Profile settings missing"@)
    } else {
        None
    }
}

impl Config {
    /// Checks that every setting the proxy needs is present.
    pub fn validate(&self) -> (r: Result<(), ConfigError>)
        ensures
            config_violation(*self) is None <==> r is Ok,
            config_violation(*self) matches Some(m) ==> (r matches Err(
                ConfigError::ValidationError(e),
            ) && e@ == m),
    {
        if self.server.host.as_str().is_empty() {
            return Err(ConfigError::ValidationError("Server host cannot be empty".to_owned()));
        }
        if self.ollama.base_url.as_str().is_empty() {
            return Err(ConfigError::ValidationError("Ollama base URL cannot be empty".to_owned()));
        }
        if self.security.base_url.as_str().is_empty() || self.security.api_key.as_str().is_empty() {
            return Err(ConfigError::ValidationError("Security credentials missing".to_owned()));
        }
        if self.security.profile_name.as_str().is_empty() || self.security.app_name.as_str().is_empty()
            || self.security.app_user.as_str().is_empty() {
            return Err(ConfigError::ValidationError("AI Profile settings missing".to_owned()));
        }
        Ok(())
    }
}

} // verus!

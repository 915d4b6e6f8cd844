//! The saved settings: the API key and the workspace last used.
use vstd::prelude::*;

verus! {

/// What the configuration file holds.
#[derive(Debug, Clone)]
pub struct Config {
    pub api_key: Option<String>,
    pub active_workspace_id: Option<String>,
}

/// Why the client cannot start.
#[derive(Debug, Clone, Copy, PartialEq, Eq, Structural)]
pub enum ConfigError {
    /// No API key has been saved yet.
    MissingApiKey,
}

impl Default for Config {
    /// The configuration used when no file exists yet: nothing saved.
    fn default() -> (c: Config)
        ensures
            c.api_key is None,
            c.active_workspace_id is None,
    {
        Config { api_key: None, active_workspace_id: None }
    }
}

impl Config {
    /// Stores an API key typed on the command line, without the white space
    /// around it; the workspace is kept.
    pub fn set_api_key(&mut self, token: &str)
        ensures
            final(self).api_key matches Some(k) && k@ == crate::text::trimmed(token@),
            final(self).active_workspace_id == old(self).active_workspace_id,
    {
        self.api_key = Some(crate::text::trim_copy(token));
    }

    /// The API key the client starts with, or the error reported when none is
    /// saved.
    pub fn api_key_for_run(&self) -> (r: Result<String, ConfigError>)
        ensures
            self.api_key matches Some(k) ==> r matches Ok(s) && s@ == k@,
            self.api_key is None ==> r == Err::<String, ConfigError>(ConfigError::MissingApiKey),
    {
        match &self.api_key {
            Some(k) => Ok(k.clone()),
            None => Err(ConfigError::MissingApiKey),
        }
    }
}

} // verus!

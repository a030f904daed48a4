//! The relay settings, read once when the server starts.
use vstd::prelude::*;

verus! {

/// Name of the environment variable that holds the relay user name.
pub const USERNAME_VAR: &'static str = "SMTP_USERNAME";

/// Name of the environment variable that holds the relay password.
pub const PASSWORD_VAR: &'static str = "SMTP_PASSWORD";

/// Name of the environment variable that holds the relay host name.
pub const HOST_VAR: &'static str = "SMTP_HOST";

/// Where and as whom messages are handed to the SMTP relay.
pub struct RelayConfig {
    pub host: String,
    pub username: String,
    pub password: String,
}

/// Which required setting is absent.
#[derive(Debug, Clone, Copy, PartialEq, Eq, Structural)]
pub enum ConfigError {
    MissingUsername,
    MissingPassword,
    MissingHost,
}

impl ConfigError {
    /// The variable whose absence this error reports.
    pub fn variable(&self) -> (r: &'static str)
        ensures
            r@ == match *self {
                ConfigError::MissingUsername => USERNAME_VAR@,
                ConfigError::MissingPassword => PASSWORD_VAR@,
                ConfigError::MissingHost => HOST_VAR@,
            },
    {
        match self {
            ConfigError::MissingUsername => USERNAME_VAR,
            ConfigError::MissingPassword => PASSWORD_VAR,
            ConfigError::MissingHost => HOST_VAR,
        }
    }
}

impl RelayConfig {
    /// Builds the settings from the looked-up values; the user name is
    /// checked first, then the password, then the host.
    pub fn from_values(username: Option<String>, password: Option<String>, host: Option<String>) -> (r: Result<RelayConfig, ConfigError>)
        ensures
            username is None ==> r == Err::<RelayConfig, ConfigError>(ConfigError::MissingUsername),
            username is Some && password is None
                ==> r == Err::<RelayConfig, ConfigError>(ConfigError::MissingPassword),
            username is Some && password is Some && host is None
                ==> r == Err::<RelayConfig, ConfigError>(ConfigError::MissingHost),
            username is Some && password is Some && host is Some ==> (r matches Ok(c)
                && c.username@ == username->Some_0@ && c.password@ == password->Some_0@
                && c.host@ == host->Some_0@),
    {
        let username = match username {
            Some(u) => u,
            None => return Err(ConfigError::MissingUsername),
        };
        let password = match password {
            Some(p) => p,
            None => return Err(ConfigError::MissingPassword),
        };
        let host = match host {
            Some(h) => h,
            None => return Err(ConfigError::MissingHost),
        };
        Ok(RelayConfig { host, username, password })
    }
}

} // verus!

//! The persisted identity of a clone: who it belongs to and which host it is.
use vstd::prelude::*;

verus! {

/// The primary configuration that nomad works off, stored under the `nomad` section of
/// `git config`.
#[derive(Debug, Clone)]
pub struct Config {
    /// Shared by every clone of one user; keeps the refs of users apart on the remote.
    pub user: String,
    /// Unique among the clones of one user; keeps the refs of hosts apart on the remote.
    pub host: String,
}

/// Only one of the two settings is stored, which nomad never does by itself.
#[derive(Debug, Clone)]
pub enum ConfigError {
    /// The user is stored, the host is not.
    OnlyUser(String),
    /// The host is stored, the user is not.
    OnlyHost(String),
}

impl Config {
    /// The configuration that the stored settings make up: none when neither is stored (the
    /// clone is not initialized yet), an error when only one of them is.
    pub fn from_values(user: Option<String>, host: Option<String>) -> (r: Result<
        Option<Config>,
        ConfigError,
    >)
        ensures
            (user is None && host is None) <==> r == Ok::<Option<Config>, ConfigError>(None),
            (user is Some && host is Some) <==> r matches Ok(Some(_)),
            r matches Ok(Some(c)) ==> Some(c.user) == user && Some(c.host) == host,
            (user is Some && host is None) <==> r == Err::<Option<Config>, ConfigError>(
                ConfigError::OnlyUser(user.unwrap()),
            ),
            (user is None && host is Some) <==> r == Err::<Option<Config>, ConfigError>(
                ConfigError::OnlyHost(host.unwrap()),
            ),
    {
        match (user, host) {
            (None, None) => Ok(None),
            (Some(user), Some(host)) => Ok(Some(Config { user, host })),
            (Some(user), None) => Err(ConfigError::OnlyUser(user)),
            (None, Some(host)) => Err(ConfigError::OnlyHost(host)),
        }
    }
}

} // verus!

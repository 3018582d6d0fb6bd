//! Settings of the service. They are read from the command line and the
//! environment by the program that runs the service.
use vstd::prelude::*;

verus! {

/// Where the authorization backend listens, and the token it expects.
#[derive(Debug, Clone, Default)]
pub struct SpiceDbConfig {
    pub endpoint: String,
    pub token: String,
}

/// The identity provider.
#[derive(Debug, Clone, Default)]
pub struct KeycloakConfig {
    pub internal_url: String,
    pub realm: String,
}

/// The document database.
#[derive(Debug, Clone, Default)]
pub struct DatabaseConfig {
    pub mongo_uri: String,
    pub mongo_db_name: String,
}

/// The key that bearer tokens are signed with.
#[derive(Debug, Clone, Default)]
pub struct JwtConfig {
    pub secret_key: String,
}

/// The ports of the API listener and of the health listener.
#[derive(Debug, Clone, Copy, Default, PartialEq, Eq, Structural)]
pub struct MessageConfig {
    pub api_port: u16,
    pub health_port: u16,
}

/// The kind of deployment.
#[derive(Debug, Clone, Copy, PartialEq, Eq, Structural)]
pub enum Environment {
    Development,
    Production,
    Test,
}

impl Default for Environment {
    fn default() -> (r: Environment)
        ensures
            r == Environment::Development,
    {
        Environment::Development
    }
}

impl Environment {
    /// Whether a missing authorization backend may be replaced by one that
    /// allows everything: only in development and tests. Production fails
    /// closed.
    pub fn permits_allow_all_authz(&self) -> (r: bool)
        ensures
            r == (*self == Environment::Development || *self == Environment::Test),
    {
        match self {
            Environment::Production => false,
            _ => true,
        }
    }

    /// Whether the deployment is for development, where the API description
    /// is written to a file.
    pub fn is_development(&self) -> (r: bool)
        ensures
            r == (*self == Environment::Development),
    {
        match self {
            Environment::Development => true,
            _ => false,
        }
    }
}

} // verus!

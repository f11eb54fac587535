//! Settings that the services are built from.

use vstd::prelude::*;

verus! {

/// Where the service is deployed.
#[derive(Clone, Copy, Debug, PartialEq, Eq, Structural)]
pub enum Environment {
    Development,
    Test,
    Production,
}

impl Environment {
    /// Whether this is a deployment meant for developers.
    pub open spec fn spec_is_dev(&self) -> bool {
        *self is Development || *self is Test
    }

    #[verifier::when_used_as_spec(spec_is_dev)]
    pub fn is_dev(&self) -> (dev: bool)
        ensures
            dev == self.spec_is_dev(),
    {
        match self {
            Environment::Development => true,
            Environment::Test => true,
            Environment::Production => false,
        }
    }
}

impl Default for Environment {
    fn default() -> (env: Self)
        ensures
            env == Environment::Development,
    {
        Environment::Development
    }
}

/// The settings of one run of the service.
#[derive(Clone, Debug)]
pub struct AppConfig {
    /// Where the service is deployed.
    pub environment: Environment,
    /// The host to serve on.
    pub host: String,
    /// The port to serve on.
    pub port: u16,
    /// Where the relational store is.
    pub database_url: String,
    /// Where the revocation list is.
    pub redis_url: String,
    /// The shared secret that tokens are signed with.
    pub jwt_secret: String,
    /// How many seconds an access token lives.
    pub jwt_access_expiration: i64,
    /// How many seconds a refresh token lives.
    pub jwt_refresh_expiration: i64,
}

/// The port served on when none is set.
pub const DEFAULT_PORT: u16 = 4238;

/// The life of an access token when none is set: one hour.
pub const DEFAULT_ACCESS_EXPIRATION: i64 = 3600;

/// The life of a refresh token when none is set: three days.
pub const DEFAULT_REFRESH_EXPIRATION: i64 = 259200;

impl Default for AppConfig {
    /// Empty settings: no host, no addresses, no secret, port 0, and tokens
    /// that live for no time at all.
    fn default() -> (config: Self)
        ensures
            config.environment == Environment::Development,
            config.host@ == Seq::<char>::empty(),
            config.port == 0,
            config.database_url@ == Seq::<char>::empty(),
            config.redis_url@ == Seq::<char>::empty(),
            config.jwt_secret@ == Seq::<char>::empty(),
            config.jwt_access_expiration == 0,
            config.jwt_refresh_expiration == 0,
    {
        AppConfig {
            environment: Environment::Development,
            host: String::new(),
            port: 0,
            database_url: String::new(),
            redis_url: String::new(),
            jwt_secret: String::new(),
            jwt_access_expiration: 0,
            jwt_refresh_expiration: 0,
        }
    }
}

} // verus!

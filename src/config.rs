//! Settings the service starts from. Reading them from files is the
//! application's part; the library only holds them.
use vstd::prelude::*;

verus! {

/// Where the user database is.
#[derive(Debug, Clone)]
pub struct PostgresConfig {
    pub host: String,
    pub port: u16,
    pub user: String,
    pub password: String,
    pub database: String,
}

impl Default for PostgresConfig {
    fn default() -> (r: PostgresConfig)
        ensures
            r.host@.len() == 0,
            r.port == 0,
            r.user@.len() == 0,
            r.password@.len() == 0,
            r.database@.len() == 0,
    {
        PostgresConfig {
            host: String::new(),
            port: 0,
            user: String::new(),
            password: String::new(),
            database: String::new(),
        }
    }
}

/// The token signing secret and the token lifetime, such as `"7d"`.
#[derive(Debug, Clone)]
pub struct JwtConfig {
    pub secret: String,
    pub expires_in: String,
}

/// All settings of the service.
#[derive(Debug, Clone)]
pub struct AppConfig {
    pub postgresql: PostgresConfig,
    pub jwt: JwtConfig,
}

} // verus!

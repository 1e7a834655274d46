//! The administrative application's own configuration.  Reading it from
//! the environment is the shell's work; the defaults live here.

use vstd::prelude::*;
use vstd::string::*;

verus! {

/// Where the admin server binds, where the engine API lives, and the
/// optional operator-supplied settings.
pub struct AppConfig {
    pub host: String,
    pub port: u16,
    pub heyi_api_url: String,
    pub heyi_api_key: Option<String>,
    pub database_url: Option<String>,
    pub redis_url: Option<String>,
    pub log_level: String,
    pub admin_username: Option<String>,
    pub admin_password: Option<String>,
}

impl Default for AppConfig {
    /// The defaults used when the environment supplies nothing.
    fn default() -> (r: AppConfig)
        ensures
            r.host@ == "127.0.0.1"@,
            r.port == 8080,
            r.heyi_api_url@ == "http://localhost:10814"@,
            r.heyi_api_key is None,
            r.database_url is None,
            r.redis_url is None,
            r.log_level@ == "info"@,
            match r.admin_username {
                Some(u) => u@ == "admin"@,
                None => false,
            },
            match r.admin_password {
                Some(p) => p@ == "admin"@,
                None => false,
            },
    {
        AppConfig {
            host: String::from_str("127.0.0.1"),
            port: 8080,
            heyi_api_url: String::from_str("http://localhost:10814"),
            heyi_api_key: None,
            database_url: None,
            redis_url: None,
            log_level: String::from_str("info"),
            admin_username: Some(String::from_str("admin")),
            admin_password: Some(String::from_str("admin")),
        }
    }
}

} // verus!

//! Caller-supplied settings.
//!
//! The caller discovers and parses its configuration file; this module only
//! defines the settings record the engine's callers pass around and the
//! defaults that hold when no file is found.

use vstd::prelude::*;

verus! {

/// Settings handed down by the surrounding program.
#[derive(Debug)]
pub struct Config {
    /// Sent verbatim as the request's user-agent header.
    pub user_agent: String,
    /// Extra servers the user declared.
    pub custom_servers: Vec<CustomServer>,
    /// Whether to open the interactive menu when no mode flag is given.
    pub interactive: bool,
}

/// One user-declared server.
#[derive(Debug)]
pub struct CustomServer {
    pub name: String,
    pub url: String,
}

/// The user agent sent when the configuration names none.
pub fn default_user_agent() -> (r: String)
    ensures
        r@ == "Mozilla/5.0"@,
{
    String::from_str("Mozilla/5.0")
}

impl Default for Config {
    /// The settings that hold when no configuration file is found.
    fn default() -> (c: Self)
        ensures
            c.user_agent@ == "Mozilla/5.0"@,
            c.custom_servers@.len() == 0,
            !c.interactive,
    {
        Config { user_agent: default_user_agent(), custom_servers: Vec::new(), interactive: false }
    }
}

} // verus!

//! What the program is configured with.

use vstd::prelude::*;

verus! {

/// The settings of the program.
#[derive(Clone, Debug)]
pub struct Config {
    pub discord_token: String,
    pub database_url: String,
    pub admin_role_id: Option<String>,
}

/// Why no configuration could be made.
#[derive(Clone, Copy, Debug, PartialEq, Eq, Structural)]
pub enum ConfigError {
    /// No token for the chat platform was given.
    MissingDiscordToken,
}

impl Config {
    /// The database that is used where none is named.
    pub open spec fn default_database_url() -> Seq<char> {
        "sqlite:attendance.db"@
    }

    /// Makes the configuration from the values that were found. The token
    /// is required; the database has a default; the role is optional.
    pub fn from_values(
        discord_token: Option<String>,
        database_url: Option<String>,
        admin_role_id: Option<String>,
    ) -> (config: Result<Config, ConfigError>)
        ensures
            config is Ok <==> discord_token is Some,
            config matches Err(e) ==> e == ConfigError::MissingDiscordToken,
            config matches Ok(c) ==> {
                &&& c.discord_token@ == discord_token->0@
                &&& c.database_url@ == match database_url {
                    Some(url) => url@,
                    None => Self::default_database_url(),
                }
                &&& c.admin_role_id == admin_role_id
            },
    {
        let discord_token = match discord_token {
            Some(token) => token,
            None => {
                return Err(ConfigError::MissingDiscordToken);
            },
        };
        let database_url = match database_url {
            Some(url) => url,
            None => String::from_str("sqlite:attendance.db"),
        };
        Ok(Config { discord_token, database_url, admin_role_id })
    }
}


impl ConfigError {
    pub open spec fn message_text(self) -> Seq<char> {
        "DISCORD_TOKEN environment variable is required"@
    }

    /// The error as told to the operator.
    pub fn message(&self) -> (text: String)
        ensures
            text@ == self.message_text(),
    {
        String::from_str("DISCORD_TOKEN environment variable is required")
    }
}

} // verus!

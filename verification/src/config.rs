//! Startup configuration: the bot token, and the reasons startup can fail.

use vstd::prelude::*;

verus! {

/// Why startup cannot go on. Each of these ends the process.
#[derive(Clone, Copy, Debug, PartialEq, Eq, Structural)]
pub enum StartupError {
    /// The local environment file could not be found, read or parsed.
    EnvFileNotLoaded,
    /// `DISCORD_TOKEN` is not set.
    TokenMissing,
    /// The application's identity could not be fetched.
    IdentityLookupFailed,
    /// The gateway client could not be constructed.
    ClientConstructionFailed,
    /// The interrupt handler could not be registered.
    SignalRegistrationFailed,
}

impl StartupError {
    /// The text of the fatal message for this error.
    pub open spec fn message_text(self) -> Seq<char> {
        match self {
            StartupError::EnvFileNotLoaded => "Failed to load .env file"@,
            StartupError::TokenMissing => "Expected a token in the environment"@,
            StartupError::IdentityLookupFailed => "Could not access application info"@,
            StartupError::ClientConstructionFailed => "Err creating client"@,
            StartupError::SignalRegistrationFailed => "Could not register ctrl+c handler"@,
        }
    }

    /// The fatal message for this error.
    pub fn message(&self) -> (text: &'static str)
        ensures
            text@ == self.message_text(),
    {
        match self {
            StartupError::EnvFileNotLoaded => "Failed to load .env file",
            StartupError::TokenMissing => "Expected a token in the environment",
            StartupError::IdentityLookupFailed => "Could not access application info",
            StartupError::ClientConstructionFailed => "Err creating client",
            StartupError::SignalRegistrationFailed => "Could not register ctrl+c handler",
        }
    }
}

/// The name of the environment variable that holds the bot token.
pub fn token_variable() -> (name: &'static str)
    ensures
        name@ == "DISCORD_TOKEN"@,
{
    "DISCORD_TOKEN"
}

/// What the bot needs from its environment.
#[derive(Debug)]
pub struct Config {
    /// The bot's authentication token.
    pub token: String,
}

/// What `load_config` returns for an environment.
pub open spec fn config_outcome(env_file_loaded: bool, token: Option<Seq<char>>) -> Result<
    Seq<char>,
    StartupError,
> {
    if !env_file_loaded {
        Err(StartupError::EnvFileNotLoaded)
    } else {
        match token {
            Some(t) => Ok(t),
            None => Err(StartupError::TokenMissing),
        }
    }
}

/// The view of an optional string.
pub open spec fn text_of(s: Option<String>) -> Option<Seq<char>> {
    match s {
        Some(t) => Some(t@),
        None => None,
    }
}

/// Decides the configuration from what the environment gave:
/// whether the environment file was merged, and the token variable's value
/// if it is set. A missing file is reported before a missing token.
pub fn load_config(env_file_loaded: bool, token: Option<String>) -> (r: Result<
    Config,
    StartupError,
>)
    ensures
        match config_outcome(env_file_loaded, text_of(token)) {
            Ok(t) => r is Ok && r->Ok_0.token@ == t,
            Err(e) => r == Err::<Config, StartupError>(e),
        },
{
    if !env_file_loaded {
        return Err(StartupError::EnvFileNotLoaded);
    }
    match token {
        Some(token) => Ok(Config { token }),
        None => Err(StartupError::TokenMissing),
    }
}

} // verus!

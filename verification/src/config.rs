//! The settings of the relay, as found once at start.

use vstd::prelude::*;

verus! {

/// The settings that the relay works with.
#[derive(Clone, Debug, PartialEq, Eq)]
pub struct Config {
    /// The credential of the bot on the chat service.
    pub discord_token: String,
    /// The text shown in the channel while the answer is being made.
    pub placeholder: String,
    /// The prompt that tells the language model its role.
    pub system_prompt: String,
    /// The address of the language model service.
    pub llm_endpoint: String,
}

/// The settings as plain texts.
pub struct ConfigView {
    pub discord_token: Seq<char>,
    pub placeholder: Seq<char>,
    pub system_prompt: Seq<char>,
    pub llm_endpoint: Seq<char>,
}

impl View for Config {
    type V = ConfigView;

    open spec fn view(&self) -> ConfigView {
        ConfigView {
            discord_token: self.discord_token@,
            placeholder: self.placeholder@,
            system_prompt: self.system_prompt@,
            llm_endpoint: self.llm_endpoint@,
        }
    }
}

/// Why no settings could be made.
#[derive(Clone, Copy, Debug, PartialEq, Eq, Structural)]
pub enum ConfigError {
    /// The credential of the bot is not set. Nothing stands in for it.
    MissingToken,
}

/// The placeholder text used where none is set.
pub open spec fn default_placeholder() -> Seq<char> {
    "Typing ..."@
}

/// The system prompt used where none is set.
pub open spec fn default_system_prompt() -> Seq<char> {
    "."@
}

/// The service address used where none is set: the empty text.
pub open spec fn default_llm_endpoint() -> Seq<char> {
    ""@
}

/// The text of a setting: the value where one is set, else the default.
pub open spec fn setting(value: Option<String>, default: Seq<char>) -> Seq<char> {
    match value {
        Some(text) => text@,
        None => default,
    }
}

/// The settings that the given values stand for. Only the credential is
/// required; each of the others has a default.
pub open spec fn resolved(
    discord_token: Option<String>,
    placeholder: Option<String>,
    system_prompt: Option<String>,
    llm_endpoint: Option<String>,
) -> Result<ConfigView, ConfigError> {
    match discord_token {
        None => Err(ConfigError::MissingToken),
        Some(token) => Ok(
            ConfigView {
                discord_token: token@,
                placeholder: setting(placeholder, default_placeholder()),
                system_prompt: setting(system_prompt, default_system_prompt()),
                llm_endpoint: setting(llm_endpoint, default_llm_endpoint()),
            },
        ),
    }
}

fn or_default(value: Option<String>, default: &str) -> (text: String)
    ensures
        text@ == setting(value, default@),
{
    match value {
        Some(text) => text,
        None => default.to_owned(),
    }
}

impl Config {
    /// Makes the settings from the values found, each `None` where the
    /// setting is absent. Fails exactly when the credential is absent.
    pub fn resolve(
        discord_token: Option<String>,
        placeholder: Option<String>,
        system_prompt: Option<String>,
        llm_endpoint: Option<String>,
    ) -> (made: Result<Config, ConfigError>)
        ensures
            match made {
                Ok(config) => resolved(discord_token, placeholder, system_prompt, llm_endpoint)
                    == Ok::<ConfigView, ConfigError>(config@),
                Err(error) => resolved(discord_token, placeholder, system_prompt, llm_endpoint)
                    == Err::<ConfigView, ConfigError>(error),
            },
    {
        match discord_token {
            None => Err(ConfigError::MissingToken),
            Some(token) => Ok(
                Config {
                    discord_token: token,
                    placeholder: or_default(placeholder, "Typing ..."),
                    system_prompt: or_default(system_prompt, "."),
                    llm_endpoint: or_default(llm_endpoint, ""),
                },
            ),
        }
    }
}

} // verus!

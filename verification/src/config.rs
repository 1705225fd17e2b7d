//! The settings the bot needs before it starts, as read from the
//! environment: all are required, and the two channels are numbers.

use crate::bootstrap::Targets;
use crate::text::{parse_u64, parsed_u64};
use vstd::prelude::*;

verus! {

/// One setting of the bot.
#[derive(Clone, Copy, PartialEq, Eq, Debug, Structural)]
pub enum Setting {
    ServerAddress,
    RconPassword,
    StatusChannelId,
    VerifyChannelId,
    Token,
}

/// Why the settings could not be loaded.
#[derive(Clone, Copy, PartialEq, Eq, Debug, Structural)]
pub enum ConfigError {
    Missing(Setting),
    Unparseable(Setting),
}

/// The name of the environment variable that holds a setting.
pub open spec fn variable_name(setting: Setting) -> Seq<char> {
    match setting {
        Setting::ServerAddress => "SERVER_ADDRESS"@,
        Setting::RconPassword => "RCON_PASSWORD"@,
        Setting::StatusChannelId => "DISCORD_STATUS_CHANNEL_ID"@,
        Setting::VerifyChannelId => "DISCORD_VERIFY_CHANNEL_ID"@,
        Setting::Token => "DISCORD_TOKEN"@,
    }
}

/// What an error says to the operator.
pub open spec fn error_text(error: ConfigError) -> Seq<char> {
    match error {
        ConfigError::Missing(Setting::Token) => "Expected a token in the environment variables"@,
        ConfigError::Missing(setting) => "Expected "@ + variable_name(setting)
            + " in the environment variables"@,
        ConfigError::Unparseable(setting) => "Couldn't parse "@ + variable_name(setting),
    }
}

impl Setting {
    /// The name of the environment variable that holds the setting.
    pub fn variable(&self) -> (name: &'static str)
        ensures
            name@ == variable_name(*self),
    {
        match self {
            Setting::ServerAddress => "SERVER_ADDRESS",
            Setting::RconPassword => "RCON_PASSWORD",
            Setting::StatusChannelId => "DISCORD_STATUS_CHANNEL_ID",
            Setting::VerifyChannelId => "DISCORD_VERIFY_CHANNEL_ID",
            Setting::Token => "DISCORD_TOKEN",
        }
    }
}

impl ConfigError {
    /// What the error says to the operator.
    pub fn describe(&self) -> (text: String)
        ensures
            text@ == error_text(*self),
    {
        match self {
            ConfigError::Missing(Setting::Token) => String::from_str(
                "Expected a token in the environment variables",
            ),
            ConfigError::Missing(setting) => {
                let mut text = String::from_str("Expected ");
                text.append(setting.variable());
                text.append(" in the environment variables");
                text
            },
            ConfigError::Unparseable(setting) => {
                let mut text = String::from_str("Couldn't parse ");
                text.append(setting.variable());
                text
            },
        }
    }
}

/// The environment as it was found: for each setting the text of its
/// variable, or `None` where the variable is not set.
#[derive(Clone, PartialEq, Eq, Debug)]
pub struct Environment {
    pub server_address: Option<String>,
    pub rcon_password: Option<String>,
    pub status_channel_id: Option<String>,
    pub verify_channel_id: Option<String>,
    pub token: Option<String>,
}

/// [`Environment`] as contracts see it.
pub struct EnvironmentView {
    pub server_address: Option<Seq<char>>,
    pub rcon_password: Option<Seq<char>>,
    pub status_channel_id: Option<Seq<char>>,
    pub verify_channel_id: Option<Seq<char>>,
    pub token: Option<Seq<char>>,
}

/// The view of a text that may be missing.
pub open spec fn text_view(text: Option<String>) -> Option<Seq<char>> {
    match text {
        Some(t) => Some(t@),
        None => None,
    }
}

impl View for Environment {
    type V = EnvironmentView;

    open spec fn view(&self) -> EnvironmentView {
        EnvironmentView {
            server_address: text_view(self.server_address),
            rcon_password: text_view(self.rcon_password),
            status_channel_id: text_view(self.status_channel_id),
            verify_channel_id: text_view(self.verify_channel_id),
            token: text_view(self.token),
        }
    }
}

/// The settings of a bot that may start.
#[derive(Clone, PartialEq, Eq, Debug)]
pub struct Settings {
    pub server_address: String,
    pub rcon_password: String,
    pub status_channel_id: u64,
    pub verify_channel_id: u64,
    pub token: String,
}

/// [`Settings`] as contracts see it.
pub struct SettingsView {
    pub server_address: Seq<char>,
    pub rcon_password: Seq<char>,
    pub status_channel_id: u64,
    pub verify_channel_id: u64,
    pub token: Seq<char>,
}

impl View for Settings {
    type V = SettingsView;

    open spec fn view(&self) -> SettingsView {
        SettingsView {
            server_address: self.server_address@,
            rcon_password: self.rcon_password@,
            status_channel_id: self.status_channel_id,
            verify_channel_id: self.verify_channel_id,
            token: self.token@,
        }
    }
}

/// The first thing that is wrong with an environment, going through the
/// settings in the order in which the bot needs them: address, password,
/// status channel, verification channel, token. `None` where nothing is.
pub open spec fn first_error(env: EnvironmentView) -> Option<ConfigError> {
    if env.server_address is None {
        Some(ConfigError::Missing(Setting::ServerAddress))
    } else if env.rcon_password is None {
        Some(ConfigError::Missing(Setting::RconPassword))
    } else if env.status_channel_id is None {
        Some(ConfigError::Missing(Setting::StatusChannelId))
    } else if parsed_u64(env.status_channel_id->0) is None {
        Some(ConfigError::Unparseable(Setting::StatusChannelId))
    } else if env.verify_channel_id is None {
        Some(ConfigError::Missing(Setting::VerifyChannelId))
    } else if parsed_u64(env.verify_channel_id->0) is None {
        Some(ConfigError::Unparseable(Setting::VerifyChannelId))
    } else if env.token is None {
        Some(ConfigError::Missing(Setting::Token))
    } else {
        None
    }
}

/// The settings that an environment without an error holds.
pub open spec fn settings_of(env: EnvironmentView) -> SettingsView
    recommends
        first_error(env) is None,
{
    SettingsView {
        server_address: env.server_address->0,
        rcon_password: env.rcon_password->0,
        status_channel_id: parsed_u64(env.status_channel_id->0)->0,
        verify_channel_id: parsed_u64(env.verify_channel_id->0)->0,
        token: env.token->0,
    }
}

impl Settings {
    /// Loads the settings from the environment, or says what is wrong with
    /// it.
    pub fn load(env: Environment) -> (r: Result<Settings, ConfigError>)
        ensures
            match r {
                Ok(settings) => first_error(env@) is None && settings@ == settings_of(env@),
                Err(error) => first_error(env@) == Some(error),
            },
    {
        let server_address = match env.server_address {
            Some(text) => text,
            None => {
                return Err(ConfigError::Missing(Setting::ServerAddress));
            },
        };
        let rcon_password = match env.rcon_password {
            Some(text) => text,
            None => {
                return Err(ConfigError::Missing(Setting::RconPassword));
            },
        };
        let status_channel_id = match env.status_channel_id {
            Some(text) => match parse_u64(text.as_str()) {
                Some(id) => id,
                None => {
                    return Err(ConfigError::Unparseable(Setting::StatusChannelId));
                },
            },
            None => {
                return Err(ConfigError::Missing(Setting::StatusChannelId));
            },
        };
        let verify_channel_id = match env.verify_channel_id {
            Some(text) => match parse_u64(text.as_str()) {
                Some(id) => id,
                None => {
                    return Err(ConfigError::Unparseable(Setting::VerifyChannelId));
                },
            },
            None => {
                return Err(ConfigError::Missing(Setting::VerifyChannelId));
            },
        };
        let token = match env.token {
            Some(text) => text,
            None => {
                return Err(ConfigError::Missing(Setting::Token));
            },
        };
        Ok(Settings { server_address, rcon_password, status_channel_id, verify_channel_id, token })
    }

    /// The two channels the start-up looks for.
    pub fn targets(&self) -> (targets: Targets)
        ensures
            targets == (Targets {
                verify_channel_id: self.verify_channel_id,
                status_channel_id: self.status_channel_id,
            }),
    {
        Targets {
            verify_channel_id: self.verify_channel_id,
            status_channel_id: self.status_channel_id,
        }
    }
}

} // verus!

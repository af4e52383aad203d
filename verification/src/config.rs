//! The settings that the bot needs before it can start.

use crate::failure::{ConfigKey, Failure};
use vstd::prelude::*;

verus! {

/// The three settings of the bot, all of them present.
#[derive(Clone, Debug, PartialEq, Eq)]
pub struct Config {
    /// Where the credentials of the service account are kept.
    pub secrets_file: String,
    /// The spreadsheet that holds the figures.
    pub spreadsheet_id: String,
    /// The token under which the bot talks to the chat service.
    pub bot_token: String,
}

/// The configuration made of three settings, each of which may be absent.
/// The first absent one, in the order secrets file, spreadsheet, bot token,
/// is reported; there is no configuration with a setting missing.
pub open spec fn config_of(
    secrets_file: Option<String>,
    spreadsheet_id: Option<String>,
    bot_token: Option<String>,
) -> Result<Config, Failure> {
    if secrets_file.is_none() {
        Err(Failure::ConfigMissing(ConfigKey::SecretsFile))
    } else if spreadsheet_id.is_none() {
        Err(Failure::ConfigMissing(ConfigKey::SpreadsheetId))
    } else if bot_token.is_none() {
        Err(Failure::ConfigMissing(ConfigKey::BotToken))
    } else {
        Ok(
            Config {
                secrets_file: secrets_file.unwrap(),
                spreadsheet_id: spreadsheet_id.unwrap(),
                bot_token: bot_token.unwrap(),
            },
        )
    }
}

impl Config {
    /// Puts the configuration together from what the environment holds
    /// under the three keys.
    pub fn from_values(
        secrets_file: Option<String>,
        spreadsheet_id: Option<String>,
        bot_token: Option<String>,
    ) -> (r: Result<Config, Failure>)
        ensures
            r == config_of(secrets_file, spreadsheet_id, bot_token),
    {
        let secrets_file = match secrets_file {
            Some(value) => value,
            None => {
                return Err(Failure::ConfigMissing(ConfigKey::SecretsFile));
            },
        };
        let spreadsheet_id = match spreadsheet_id {
            Some(value) => value,
            None => {
                return Err(Failure::ConfigMissing(ConfigKey::SpreadsheetId));
            },
        };
        let bot_token = match bot_token {
            Some(value) => value,
            None => {
                return Err(Failure::ConfigMissing(ConfigKey::BotToken));
            },
        };
        Ok(Config { secrets_file, spreadsheet_id, bot_token })
    }
}

/// A configuration exists exactly when all three settings are present, and
/// it then holds them as they were given.
pub proof fn lemma_config_needs_every_setting(
    secrets_file: Option<String>,
    spreadsheet_id: Option<String>,
    bot_token: Option<String>,
)
    ensures
        config_of(secrets_file, spreadsheet_id, bot_token).is_ok() <==> secrets_file.is_some()
            && spreadsheet_id.is_some() && bot_token.is_some(),
        config_of(secrets_file, spreadsheet_id, bot_token) matches Ok(config) ==> {
            &&& secrets_file == Some(config.secrets_file)
            &&& spreadsheet_id == Some(config.spreadsheet_id)
            &&& bot_token == Some(config.bot_token)
        },
{
}

} // verus!

//! The ways in which starting the bot or answering a command can fail.

use crate::command::Command;
use crate::status::Field;
use vstd::prelude::*;
use vstd::string::StringExecFns;

verus! {

/// One of the settings without which the bot does not start.
#[derive(Clone, Copy, Debug, PartialEq, Eq, Structural)]
pub enum ConfigKey {
    SecretsFile,
    SpreadsheetId,
    BotToken,
}

/// Why a request, or the start of the bot, did not succeed.
#[derive(Clone, Debug, PartialEq, Eq)]
pub enum Failure {
    /// A required setting is absent.
    ConfigMissing(ConfigKey),
    /// A command was put into the command table without a token of its own.
    UnregisteredCommand(Command),
    /// The call to the data source failed; the text describes the cause.
    BackendCallFailed(String),
    /// The data source answered without any data.
    NoDataReturned,
    /// The cell of the named figure does not hold a number.
    MalformedCell(Field),
}

impl ConfigKey {
    /// The name of the environment variable that holds the setting.
    pub open spec fn spec_variable(self) -> Seq<char> {
        match self {
            ConfigKey::SecretsFile => "SECRETS_FILE"@,
            ConfigKey::SpreadsheetId => "SPREADSHEET_ID"@,
            ConfigKey::BotToken => "TELEGRAM_BOT_TOKEN"@,
        }
    }

    /// What to tell the operator when the setting is absent.
    pub open spec fn spec_complaint(self) -> Seq<char> {
        match self {
            ConfigKey::SecretsFile => "Secrets file location not specified"@,
            ConfigKey::SpreadsheetId => "Spreadsheet ID not specified"@,
            ConfigKey::BotToken => "Bot token not specified"@,
        }
    }

    /// The name of the environment variable that holds the setting.
    pub fn variable(&self) -> (name: &'static str)
        ensures
            name@ == self.spec_variable(),
    {
        match self {
            ConfigKey::SecretsFile => "SECRETS_FILE",
            ConfigKey::SpreadsheetId => "SPREADSHEET_ID",
            ConfigKey::BotToken => "TELEGRAM_BOT_TOKEN",
        }
    }

    /// What to tell the operator when the setting is absent.
    pub fn complaint(&self) -> (text: &'static str)
        ensures
            text@ == self.spec_complaint(),
    {
        match self {
            ConfigKey::SecretsFile => "Secrets file location not specified",
            ConfigKey::SpreadsheetId => "Spreadsheet ID not specified",
            ConfigKey::BotToken => "Bot token not specified",
        }
    }
}

impl Failure {
    /// The message shown to the user in place of an answer. It names the
    /// kind of failure, and the figure or command concerned, but never the
    /// cause of a failed backend call.
    pub open spec fn spec_user_message(self) -> Seq<char> {
        match self {
            Failure::ConfigMissing(key) => key.spec_complaint(),
            Failure::UnregisteredCommand(command) => "No token is defined for command "@
                + command.spec_name(),
            Failure::BackendCallFailed(_) => "Backend call failed"@,
            Failure::NoDataReturned => "No data received"@,
            Failure::MalformedCell(field) => "Malformed cell: "@ + field.spec_name(),
        }
    }

    /// The message written to the log: the user's message, followed by the
    /// cause where the failure has one.
    pub open spec fn spec_log_message(self) -> Seq<char> {
        match self {
            Failure::BackendCallFailed(cause) => "Backend call failed: "@ + cause@,
            _ => self.spec_user_message(),
        }
    }

    /// The message shown to the user in place of an answer.
    pub fn user_message(&self) -> (text: String)
        ensures
            text@ == self.spec_user_message(),
    {
        match self {
            Failure::ConfigMissing(key) => key.complaint().to_owned(),
            Failure::UnregisteredCommand(command) => {
                "No token is defined for command ".to_owned().concat(command.name())
            },
            Failure::BackendCallFailed(_) => "Backend call failed".to_owned(),
            Failure::NoDataReturned => "No data received".to_owned(),
            Failure::MalformedCell(field) => "Malformed cell: ".to_owned().concat(field.name()),
        }
    }

    /// The message written to the log.
    pub fn log_message(&self) -> (text: String)
        ensures
            text@ == self.spec_log_message(),
    {
        match self {
            Failure::BackendCallFailed(cause) => {
                "Backend call failed: ".to_owned().concat(cause.as_str())
            },
            _ => self.user_message(),
        }
    }
}

} // verus!

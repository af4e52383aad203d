//! The commands that a user can send to the bot.

use crate::failure::Failure;
use vstd::prelude::*;

verus! {

/// The closed set of command kinds. Only some of them have a token yet; the
/// others are known by name and cannot be registered.
#[derive(Clone, Copy, Debug, PartialEq, Eq, Structural)]
pub enum Command {
    Status,
    Search,
    Debts,
    Cards,
    Proxy,
    DuckList,
    Rules,
    AboutMe,
    AboutMyPayment,
}

impl Command {
    /// The token that a user types for this command, if one is defined.
    pub open spec fn spec_token(self) -> Option<Seq<char>> {
        match self {
            Command::Status => Some("/status"@),
            _ => None,
        }
    }

    /// The name of the command kind.
    pub open spec fn spec_name(self) -> Seq<char> {
        match self {
            Command::Status => "Status"@,
            Command::Search => "Search"@,
            Command::Debts => "Debts"@,
            Command::Cards => "Cards"@,
            Command::Proxy => "Proxy"@,
            Command::DuckList => "DuckList"@,
            Command::Rules => "Rules"@,
            Command::AboutMe => "AboutMe"@,
            Command::AboutMyPayment => "AboutMyPayment"@,
        }
    }

    /// The token that a user types for this command, if one is defined.
    pub fn token(&self) -> (t: Option<&'static str>)
        ensures
            match t {
                Some(s) => self.spec_token() == Some(s@),
                None => self.spec_token().is_none(),
            },
    {
        match self {
            Command::Status => Some("/status"),
            _ => None,
        }
    }

    /// The token to register for this command. A command without a token
    /// cannot be registered, and asking for its token is a failure.
    pub fn cmd(&self) -> (r: Result<&'static str, Failure>)
        ensures
            match r {
                Ok(token) => self.spec_token() == Some(token@),
                Err(failure) => self.spec_token().is_none() && failure
                    == Failure::UnregisteredCommand(*self),
            },
    {
        match self.token() {
            Some(token) => Ok(token),
            None => Err(Failure::UnregisteredCommand(*self)),
        }
    }

    /// The name of the command kind.
    pub fn name(&self) -> (s: &'static str)
        ensures
            s@ == self.spec_name(),
    {
        match self {
            Command::Status => "Status",
            Command::Search => "Search",
            Command::Debts => "Debts",
            Command::Cards => "Cards",
            Command::Proxy => "Proxy",
            Command::DuckList => "DuckList",
            Command::Rules => "Rules",
            Command::AboutMe => "AboutMe",
            Command::AboutMyPayment => "AboutMyPayment",
        }
    }
}

/// Two commands with the same token are the same command.
pub proof fn lemma_token_identifies_command(a: Command, b: Command)
    requires
        a.spec_token().is_some(),
        a.spec_token() == b.spec_token(),
    ensures
        a == b,
{
}

} // verus!

//! The per-request controller: one incoming message, bound to the backend
//! that answers it.

use crate::backend::Backend;
use crate::decimal::{decimal_text, push_decimal};
use crate::failure::Failure;
use crate::status::Status;
use std::sync::Arc;
use vstd::prelude::*;
use vstd::string::StringExecFns;

verus! {

/// What the bot keeps of an incoming message.
#[derive(Clone, Debug, PartialEq, Eq)]
pub struct Message {
    /// The chat that the message came from, and that the reply goes to.
    pub chat_id: i64,
    /// The text of the message.
    pub text: String,
}

/// One incoming message together with a handle to the shared backend. A
/// controller lives for one request.
pub struct BotController<B: Backend> {
    pub message: Message,
    pub storage: Arc<B>,
}

/// The answer to a status request, given what the backend fetched: the
/// text of the status, or the failure of the fetch as it is.
pub open spec fn status_answer(fetched: Result<Status, Failure>) -> Result<Seq<char>, Failure> {
    match fetched {
        Ok(status) => Ok(status.spec_text()),
        Err(failure) => Err(failure),
    }
}

/// The text of an answer, with a failure as it came.
pub open spec fn answer_text(answer: Result<String, Failure>) -> Result<Seq<char>, Failure> {
    match answer {
        Ok(text) => Ok(text@),
        Err(failure) => Err(failure),
    }
}

/// What is sent to the user: the answer, or in its place the message of
/// the failure.
pub open spec fn reply_text(answer: Result<String, Failure>) -> Seq<char> {
    match answer {
        Ok(text) => text@,
        Err(failure) => failure.spec_user_message(),
    }
}

/// Turns what the backend fetched into the answer to a status request.
pub fn answer_status(fetched: Result<Status, Failure>) -> (answer: Result<String, Failure>)
    ensures
        answer_text(answer) == status_answer(fetched),
{
    match fetched {
        Ok(status) => Ok(status.render()),
        Err(failure) => Err(failure),
    }
}

/// Turns the answer of a handler into the text that is sent to the user.
pub fn reply(answer: Result<String, Failure>) -> (text: String)
    ensures
        text@ == reply_text(answer),
{
    match answer {
        Ok(text) => text,
        Err(failure) => failure.user_message(),
    }
}

impl Message {
    /// The line that records the arrival of the message.
    pub open spec fn spec_notice(self) -> Seq<char> {
        "Received request: chat "@ + decimal_text(self.chat_id as int) + ": "@ + self.text@
    }

    /// The line that records the arrival of the message.
    pub fn notice(&self) -> (line: String)
        ensures
            line@ == self.spec_notice(),
    {
        let mut line = "Received request: chat ".to_owned();
        push_decimal(&mut line, self.chat_id);
        line.append(": ");
        line.append(self.text.as_str());
        line
    }
}

impl<B: Backend> BotController<B> {
    /// Answers a status request: fetches the status from the backend and
    /// writes it out. A failure of the backend is passed on unchanged.
    pub fn status(&self) -> (answer: Result<String, Failure>)
        ensures
            exists|fetched: Result<Status, Failure>|
                self.storage.may_answer(fetched) && answer_text(answer) == status_answer(fetched),
    {
        let fetched = self.storage.status();
        let ghost seen = fetched;
        let answer = answer_status(fetched);
        assert(self.storage.may_answer(seen) && answer_text(answer) == status_answer(seen));
        answer
    }
}

} // verus!

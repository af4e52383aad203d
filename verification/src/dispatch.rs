//! From an incoming command to the reply that goes back to the user.

use crate::backend::Backend;
use crate::controller::{answer_text, reply, reply_text, status_answer, BotController, Message};
use crate::failure::Failure;
use crate::sheets::status_of_reply;
use crate::status::Status;
use crate::table::{first_with_token, none_with_token, CommandTable};
use std::sync::Arc;
use vstd::prelude::*;

verus! {

/// Runs `handler` on `controller` and turns its answer into the reply: the
/// answer itself, or the message of the failure in its place.
pub fn serve<B: Backend, H: Fn(&BotController<B>) -> Result<String, Failure>>(
    handler: &H,
    controller: &BotController<B>,
) -> (text: String)
    requires
        call_requires(*handler, (controller,)),
    ensures
        exists|answer: Result<String, Failure>|
            call_ensures(*handler, (controller,), answer) && text@ == reply_text(answer),
{
    let answer = handler(controller);
    let ghost given = answer;
    let text = reply(answer);
    assert(call_ensures(*handler, (controller,), given) && text@ == reply_text(given));
    text
}

/// Answers the command `token` sent with `message`: looks the handler up
/// in `table`, binds a controller to the message and the backend, and
/// serves the handler on it. `None` where the table has no such command.
pub fn dispatch<B: Backend, H: Fn(&BotController<B>) -> Result<String, Failure>>(
    table: &CommandTable<H>,
    token: &str,
    message: Message,
    storage: Arc<B>,
) -> (r: Option<String>)
    requires
        forall|index: int, controller: &BotController<B>|
            0 <= index < table@.len() ==> #[trigger] call_requires(
                table@[index].1,
                (controller,),
            ),
    ensures
        match r {
            Some(text) => exists|index: int, answer: Result<String, Failure>|
                {
                    &&& first_with_token(table@, token@, index)
                    &&& call_ensures(table@[index].1, (&BotController { message, storage },), answer)
                    &&& text@ == reply_text(answer)
                },
            None => none_with_token(table@, token@),
        },
{
    match table.position(token) {
        Some(index) => {
            let controller = BotController { message, storage };
            assert(call_requires(table@[index as int].1, (&controller,)));
            let text = serve(table.handler(index), &controller);
            Some(text)
        },
        None => None,
    }
}

/// From the sheet to the user: where the reply to the status query holds
/// a status, the user is sent the text of that status.
pub proof fn lemma_status_read_is_status_sent(
    reply: Result<Option<Vec<Vec<String>>>, String>,
    status: Status,
    answer: Result<String, Failure>,
)
    requires
        status_of_reply(reply) == Ok::<Status, Failure>(status),
        answer_text(answer) == status_answer(status_of_reply(reply)),
    ensures
        reply_text(answer) == status.spec_text(),
{
}

/// A read that fails ends in the error reply: whatever the cause, the user
/// is told that the backend call failed, and nothing of the cause.
pub proof fn lemma_failed_read_is_error_sent(cause: String, answer: Result<String, Failure>)
    requires
        answer_text(answer) == status_answer(status_of_reply(Err(cause))),
    ensures
        answer == Err::<String, Failure>(Failure::BackendCallFailed(cause)),
        reply_text(answer) == "Backend call failed"@,
{
}

} // verus!

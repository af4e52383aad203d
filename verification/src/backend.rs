//! The contract between the bot and the source of its data.

use crate::failure::Failure;
use crate::status::Status;
use vstd::prelude::*;

verus! {

/// A source of the current status. Each call is a fresh fetch that answers
/// with a status or with the reason why there is none. A backend is shared
/// by the requests in flight and read through `&self` alone.
pub trait Backend {
    /// Whether a fetch from this backend may end in `answer`. A backend
    /// that knows more of its fetches says so here; of one that does not,
    /// every answer is possible.
    open spec fn may_answer(&self, answer: Result<Status, Failure>) -> bool {
        true
    }

    /// Fetches the current status.
    fn status(&self) -> (answer: Result<Status, Failure>)
        ensures
            self.may_answer(answer),
    ;
}

} // verus!

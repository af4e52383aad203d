//! The command table: which handler answers which command token.

use crate::command::Command;
use crate::failure::Failure;
use crate::text::same_text;
use vstd::prelude::*;

verus! {

/// Whether `index` is the first entry whose command has no token.
pub open spec fn first_without_token<H>(entries: Seq<(Command, H)>, index: int) -> bool {
    &&& 0 <= index < entries.len()
    &&& entries[index].0.spec_token().is_none()
    &&& forall|j: int| 0 <= j < index ==> (#[trigger] entries[j]).0.spec_token().is_some()
}

/// Whether every entry's command has a token.
pub open spec fn all_with_token<H>(entries: Seq<(Command, H)>) -> bool {
    forall|j: int| 0 <= j < entries.len() ==> (#[trigger] entries[j]).0.spec_token().is_some()
}

/// Whether `index` is the first entry whose command goes by `token`.
pub open spec fn first_with_token<H>(
    entries: Seq<(Command, H)>,
    token: Seq<char>,
    index: int,
) -> bool {
    &&& 0 <= index < entries.len()
    &&& entries[index].0.spec_token() == Some(token)
    &&& forall|j: int| 0 <= j < index ==> (#[trigger] entries[j]).0.spec_token() != Some(token)
}

/// Whether no entry's command goes by `token`.
pub open spec fn none_with_token<H>(entries: Seq<(Command, H)>, token: Seq<char>) -> bool {
    forall|j: int| 0 <= j < entries.len() ==> (#[trigger] entries[j]).0.spec_token() != Some(token)
}

/// An ordered list of commands, each with the handler that answers it. It
/// is built once and then only read. Every command in it has a token.
pub struct CommandTable<H> {
    entries: Vec<(Command, H)>,
}

impl<H> View for CommandTable<H> {
    type V = Seq<(Command, H)>;

    /// The entries, in the order in which they were given.
    closed spec fn view(&self) -> Seq<(Command, H)> {
        self.entries@
    }
}

impl<H> CommandTable<H> {
    #[verifier::type_invariant]
    spec fn registered(self) -> bool {
        all_with_token(self.entries@)
    }

    /// Builds the table from `entries`, keeping all of them in their order.
    /// An entry whose command has no token makes the whole construction
    /// fail with the first such command; none is skipped.
    pub fn build(entries: Vec<(Command, H)>) -> (r: Result<Self, Failure>)
        ensures
            match r {
                Ok(table) => table@ == entries@ && all_with_token(entries@),
                Err(failure) => exists|index: int|
                    first_without_token(entries@, index) && failure == Failure::UnregisteredCommand(
                        entries@[index].0,
                    ),
            },
    {
        let mut i: usize = 0;
        while i < entries.len()
            invariant
                i <= entries.len(),
                forall|j: int| 0 <= j < i ==> (#[trigger] entries@[j]).0.spec_token().is_some(),
            decreases entries.len() - i,
        {
            match entries[i].0.cmd() {
                Ok(_) => {},
                Err(failure) => {
                    assert(first_without_token(entries@, i as int));
                    return Err(failure);
                },
            }
            i += 1;
        }
        Ok(CommandTable { entries })
    }

    /// The number of entries.
    pub fn len(&self) -> (n: usize)
        ensures
            n == self@.len(),
    {
        self.entries.len()
    }

    /// The command of the entry at `index`.
    pub fn command(&self, index: usize) -> (command: Command)
        requires
            index < self@.len(),
        ensures
            command == self@[index as int].0,
    {
        self.entries[index].0
    }

    /// The token to register for the entry at `index`.
    pub fn token(&self, index: usize) -> (token: &'static str)
        requires
            index < self@.len(),
        ensures
            self@[index as int].0.spec_token() == Some(token@),
    {
        proof {
            use_type_invariant(self);
        }
        self.entries[index].0.token().unwrap()
    }

    /// The handler of the entry at `index`.
    pub fn handler(&self, index: usize) -> (handler: &H)
        requires
            index < self@.len(),
        ensures
            *handler == self@[index as int].1,
    {
        &self.entries[index].1
    }

    /// The first entry whose command goes by `token`, if there is one.
    pub fn position(&self, token: &str) -> (r: Option<usize>)
        ensures
            match r {
                Some(index) => first_with_token(self@, token@, index as int),
                None => none_with_token(self@, token@),
            },
    {
        let mut i: usize = 0;
        while i < self.entries.len()
            invariant
                i <= self.entries.len(),
                forall|j: int|
                    0 <= j < i ==> (#[trigger] self.entries@[j]).0.spec_token() != Some(token@),
            decreases self.entries.len() - i,
        {
            match self.entries[i].0.token() {
                Some(own) => {
                    if same_text(own, token) {
                        return Some(i);
                    }
                },
                None => {},
            }
            i += 1;
        }
        None
    }

    /// The handler that answers `token`, if the table has one for it.
    pub fn lookup(&self, token: &str) -> (r: Option<&H>)
        ensures
            match r {
                Some(handler) => exists|index: int|
                    first_with_token(self@, token@, index) && *handler == self@[index].1,
                None => none_with_token(self@, token@),
            },
    {
        match self.position(token) {
            Some(index) => Some(&self.entries[index].1),
            None => None,
        }
    }
}

} // verus!

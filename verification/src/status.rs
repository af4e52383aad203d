//! The financial snapshot reported by the `/status` command.

use crate::decimal::{decimal_text, push_decimal};
use vstd::prelude::*;
use vstd::string::StringExecFns;

verus! {

/// One of the four figures of a [`Status`], in the order in which they are read.
#[derive(Clone, Copy, Debug, PartialEq, Eq, Structural)]
pub enum Field {
    Capital,
    Borrowed,
    Reserve,
    Assets,
}

/// Snapshot of the financial state at fetch time.
#[derive(Clone, Copy, Debug, PartialEq, Eq, Structural)]
pub struct Status {
    pub capital: i64,
    pub borrowed: i64,
    pub reserve: i64,
    pub assets: i64,
}

impl Field {
    /// Position of the figure in the fetched column.
    pub open spec fn spec_index(self) -> int {
        match self {
            Field::Capital => 0,
            Field::Borrowed => 1,
            Field::Reserve => 2,
            Field::Assets => 3,
        }
    }

    /// The name of the figure, as it is shown to the user.
    pub open spec fn spec_name(self) -> Seq<char> {
        match self {
            Field::Capital => "capital"@,
            Field::Borrowed => "borrowed"@,
            Field::Reserve => "reserve"@,
            Field::Assets => "assets"@,
        }
    }

    /// The name of the figure, as it is shown to the user.
    pub fn name(&self) -> (s: &'static str)
        ensures
            s@ == self.spec_name(),
    {
        match self {
            Field::Capital => "capital",
            Field::Borrowed => "borrowed",
            Field::Reserve => "reserve",
            Field::Assets => "assets",
        }
    }

    /// Position of the figure in the fetched column.
    pub fn index(&self) -> (i: usize)
        ensures
            i == self.spec_index(),
            i < 4,
    {
        match self {
            Field::Capital => 0,
            Field::Borrowed => 1,
            Field::Reserve => 2,
            Field::Assets => 3,
        }
    }
}

impl Status {
    /// The figure named by `field`.
    pub open spec fn spec_figure(self, field: Field) -> i64 {
        match field {
            Field::Capital => self.capital,
            Field::Borrowed => self.borrowed,
            Field::Reserve => self.reserve,
            Field::Assets => self.assets,
        }
    }

    /// The text of the snapshot: its four figures by name, in the order
    /// capital, borrowed, reserve, assets, each in decimal.
    pub open spec fn spec_text(self) -> Seq<char> {
        "Status { capital: "@ + decimal_text(self.capital as int) + ", borrowed: "@
            + decimal_text(self.borrowed as int) + ", reserve: "@ + decimal_text(
            self.reserve as int,
        ) + ", assets: "@ + decimal_text(self.assets as int) + " }"@
    }

    /// The figure named by `field`.
    pub fn figure(&self, field: Field) -> (v: i64)
        ensures
            v == self.spec_figure(field),
    {
        match field {
            Field::Capital => self.capital,
            Field::Borrowed => self.borrowed,
            Field::Reserve => self.reserve,
            Field::Assets => self.assets,
        }
    }

    /// Writes the snapshot out for a reply.
    pub fn render(&self) -> (text: String)
        ensures
            text@ == self.spec_text(),
    {
        let mut text = "Status { capital: ".to_owned();
        push_decimal(&mut text, self.capital);
        text.append(", borrowed: ");
        push_decimal(&mut text, self.borrowed);
        text.append(", reserve: ");
        push_decimal(&mut text, self.reserve);
        text.append(", assets: ");
        push_decimal(&mut text, self.assets);
        text.append(" }");
        text
    }
}

/// The text of a snapshot shows each of its figures: the name of the
/// figure, a colon and a space, and the figure in decimal.
pub proof fn lemma_text_shows_figure(status: Status, field: Field)
    ensures
        exists|before: Seq<char>, after: Seq<char>|
            status.spec_text() == before + field.spec_name() + ": "@ + decimal_text(
                status.spec_figure(field) as int,
            ) + after,
{
    reveal_strlit("Status { capital: ");
    reveal_strlit(", borrowed: ");
    reveal_strlit(", reserve: ");
    reveal_strlit(", assets: ");
    reveal_strlit(" }");
    reveal_strlit(": ");
    reveal_strlit("capital");
    reveal_strlit("borrowed");
    reveal_strlit("reserve");
    reveal_strlit("assets");
    let capital = decimal_text(status.capital as int);
    let borrowed = decimal_text(status.borrowed as int);
    let reserve = decimal_text(status.reserve as int);
    let assets = decimal_text(status.assets as int);
    let (before, after) = match field {
        Field::Capital => (
            "Status { "@,
            ", borrowed: "@ + borrowed + ", reserve: "@ + reserve + ", assets: "@ + assets + " }"@,
        ),
        Field::Borrowed => (
            "Status { capital: "@ + capital + ", "@,
            ", reserve: "@ + reserve + ", assets: "@ + assets + " }"@,
        ),
        Field::Reserve => (
            "Status { capital: "@ + capital + ", borrowed: "@ + borrowed + ", "@,
            ", assets: "@ + assets + " }"@,
        ),
        Field::Assets => (
            "Status { capital: "@ + capital + ", borrowed: "@ + borrowed + ", reserve: "@
                + reserve + ", "@,
            " }"@,
        ),
    };
    reveal_strlit("Status { ");
    reveal_strlit(", ");
    assert(status.spec_text() =~= before + field.spec_name() + ": "@ + decimal_text(
        status.spec_figure(field) as int,
    ) + after);
}

} // verus!

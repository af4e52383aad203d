//! The spreadsheet as a source of the status: which cells to ask for, and
//! what the answer means.

use crate::backend::Backend;
use crate::cell::{cell_value, lemma_cell_reads_amount, parse_cell, stripped};
use crate::decimal::decimal_text;
use crate::failure::Failure;
use crate::status::{Field, Status};
use vstd::prelude::*;

verus! {

/// The cells that hold the four figures, one below the other.
pub const STATUS_RANGE: &'static str = "B7:B10";

/// The layout asked for: one list of cells for each column.
pub const COLUMN_MAJOR: &'static str = "COLUMNS";

/// A read of one cell range of one spreadsheet.
#[derive(Clone, Debug, PartialEq, Eq)]
pub struct RangeQuery {
    pub spreadsheet_id: String,
    pub range: &'static str,
    pub major_dimension: &'static str,
}

/// The spreadsheet backend: the status is read from one range of the
/// spreadsheet `spreadsheet_id`. The read itself, a blocking call over the
/// network, is the work of `fetch`, which is handed the query and answers
/// with the values of the range or with the cause of its failure.
pub struct SheetsBackend<F: Fn(&RangeQuery) -> Result<Option<Vec<Vec<String>>>, String>> {
    spreadsheet_id: String,
    fetch: F,
}

impl<F: Fn(&RangeQuery) -> Result<Option<Vec<Vec<String>>>, String>> SheetsBackend<F> {
    /// `fetch` can be handed any query.
    #[verifier::type_invariant]
    spec fn fetch_takes_every_query(self) -> bool {
        forall|query: &RangeQuery| call_requires(self.fetch, (query,))
    }

    /// The identifier of the spreadsheet that is read.
    pub closed spec fn spec_spreadsheet_id(self) -> Seq<char> {
        self.spreadsheet_id@
    }

    /// The function that performs the read.
    pub closed spec fn spec_fetch(self) -> F {
        self.fetch
    }

    /// The query that a status fetch makes: the four cells of the status
    /// range of this spreadsheet, column by column.
    pub open spec fn spec_status_query(self, query: RangeQuery) -> bool {
        &&& query.spreadsheet_id@ == self.spec_spreadsheet_id()
        &&& query.range@ == STATUS_RANGE@
        &&& query.major_dimension@ == COLUMN_MAJOR@
    }

    /// Whether a status fetch may end in `answer`: it holds what some reply
    /// of `fetch` to the status query holds.
    pub open spec fn spec_fetched(self, answer: Result<Status, Failure>) -> bool {
        exists|query: RangeQuery, reply: Result<Option<Vec<Vec<String>>>, String>|
            {
                &&& self.spec_status_query(query)
                &&& call_ensures(self.spec_fetch(), (&query,), reply)
                &&& answer == status_of_reply(reply)
            }
    }

    /// A backend that reads the spreadsheet `spreadsheet_id` through `fetch`.
    pub fn new(spreadsheet_id: String, fetch: F) -> (backend: Self)
        requires
            forall|query: &RangeQuery| call_requires(fetch, (query,)),
        ensures
            backend.spec_spreadsheet_id() == spreadsheet_id@,
            backend.spec_fetch() == fetch,
    {
        SheetsBackend { spreadsheet_id, fetch }
    }

    /// The identifier of the spreadsheet that is read.
    pub fn spreadsheet_id(&self) -> (id: &str)
        ensures
            id@ == self.spec_spreadsheet_id(),
    {
        self.spreadsheet_id.as_str()
    }

    /// The query that a status fetch makes.
    pub fn status_query(&self) -> (query: RangeQuery)
        ensures
            self.spec_status_query(query),
    {
        RangeQuery {
            spreadsheet_id: self.spreadsheet_id.clone(),
            range: STATUS_RANGE,
            major_dimension: COLUMN_MAJOR,
        }
    }
}

impl<F: Fn(&RangeQuery) -> Result<Option<Vec<Vec<String>>>, String>> Backend for SheetsBackend<F> {
    open spec fn may_answer(&self, answer: Result<Status, Failure>) -> bool {
        self.spec_fetched(answer)
    }

    /// Fetches the status: makes the status query, hands it to `fetch` and
    /// reads the status out of what comes back.
    fn status(&self) -> (r: Result<Status, Failure>)
        ensures
            self.spec_fetched(r),
    {
        proof {
            use_type_invariant(self);
        }
        let query = self.status_query();
        let reply = (self.fetch)(&query);
        let ghost answered = reply;
        let r = status_from_reply(reply);
        assert(self.spec_status_query(query) && call_ensures(self.spec_fetch(), (&query,), answered)
            && r == status_of_reply(answered));
        r
    }
}

/// The text of the cell at `index` of a column. The sheet leaves out the
/// empty cells at the end of a range, so a missing cell reads as an empty one.
pub open spec fn cell_text(column: Seq<Seq<char>>, index: int) -> Seq<char> {
    if 0 <= index < column.len() {
        column[index]
    } else {
        Seq::empty()
    }
}

/// The number in the cell of `field`, if it holds one.
pub open spec fn field_value(column: Seq<Seq<char>>, field: Field) -> Option<i64> {
    cell_value(cell_text(column, field.spec_index()))
}

/// The status that a column of cells holds. A column without cells is no
/// data; otherwise the first cell, in the order capital, borrowed, reserve,
/// assets, that holds no number is reported, and only a column in which all
/// four hold one gives a status.
pub open spec fn status_of_column(column: Seq<Seq<char>>) -> Result<Status, Failure> {
    if column.len() == 0 {
        Err(Failure::NoDataReturned)
    } else if field_value(column, Field::Capital).is_none() {
        Err(Failure::MalformedCell(Field::Capital))
    } else if field_value(column, Field::Borrowed).is_none() {
        Err(Failure::MalformedCell(Field::Borrowed))
    } else if field_value(column, Field::Reserve).is_none() {
        Err(Failure::MalformedCell(Field::Reserve))
    } else if field_value(column, Field::Assets).is_none() {
        Err(Failure::MalformedCell(Field::Assets))
    } else {
        Ok(
            Status {
                capital: field_value(column, Field::Capital).unwrap(),
                borrowed: field_value(column, Field::Borrowed).unwrap(),
                reserve: field_value(column, Field::Reserve).unwrap(),
                assets: field_value(column, Field::Assets).unwrap(),
            },
        )
    }
}

/// The status that the values of a range hold: that of the first column,
/// where there is one.
pub open spec fn status_of_values(values: Option<Seq<Seq<Seq<char>>>>) -> Result<
    Status,
    Failure,
> {
    match values {
        Some(columns) => if columns.len() == 0 {
            Err(Failure::NoDataReturned)
        } else {
            status_of_column(columns[0])
        },
        None => Err(Failure::NoDataReturned),
    }
}

/// The status that the outcome of a read holds: a failed read is reported
/// with its cause, a read that went through by what its values hold.
pub open spec fn status_of_reply(reply: Result<Option<Vec<Vec<String>>>, String>) -> Result<
    Status,
    Failure,
> {
    match reply {
        Ok(values) => status_of_values(values.deep_view()),
        Err(cause) => Err(Failure::BackendCallFailed(cause)),
    }
}

/// Reads the number in the cell of `field`.
pub fn read_field(column: &Vec<String>, field: Field) -> (r: Result<i64, Failure>)
    ensures
        r == match field_value(column.deep_view(), field) {
            Some(v) => Ok::<i64, Failure>(v),
            None => Err(Failure::MalformedCell(field)),
        },
{
    let index = field.index();
    let value = if index < column.len() {
        assert(column.deep_view()[index as int] == column[index as int]@);
        parse_cell(column[index].as_str())
    } else {
        assert(cell_value(Seq::<char>::empty()).is_none());
        None
    };
    match value {
        Some(v) => Ok(v),
        None => Err(Failure::MalformedCell(field)),
    }
}

/// Reads the status out of a column of cells.
pub fn status_from_column(column: &Vec<String>) -> (r: Result<Status, Failure>)
    ensures
        r == status_of_column(column.deep_view()),
{
    if column.len() == 0 {
        return Err(Failure::NoDataReturned);
    }
    let capital = read_field(column, Field::Capital)?;
    let borrowed = read_field(column, Field::Borrowed)?;
    let reserve = read_field(column, Field::Reserve)?;
    let assets = read_field(column, Field::Assets)?;
    Ok(Status { capital, borrowed, reserve, assets })
}

/// Reads the status out of the values of a range.
pub fn status_from_values(values: &Option<Vec<Vec<String>>>) -> (r: Result<Status, Failure>)
    ensures
        r == status_of_values(values.deep_view()),
{
    match values {
        Some(columns) => if columns.len() == 0 {
            Err(Failure::NoDataReturned)
        } else {
            status_from_column(&columns[0])
        },
        None => Err(Failure::NoDataReturned),
    }
}

/// Reads the status out of the outcome of a read.
pub fn status_from_reply(reply: Result<Option<Vec<Vec<String>>>, String>) -> (r: Result<
    Status,
    Failure,
>)
    ensures
        r == status_of_reply(reply),
{
    match reply {
        Ok(values) => status_from_values(&values),
        Err(cause) => Err(Failure::BackendCallFailed(cause)),
    }
}

/// A status is all or nothing: a column gives one exactly when it has cells
/// and each of the four figures is a number, and the status then holds
/// those four numbers.
pub proof fn lemma_status_is_all_or_nothing(column: Seq<Seq<char>>)
    ensures
        status_of_column(column).is_ok() <==> column.len() > 0 && forall|field: Field|
            field_value(column, field).is_some(),
        status_of_column(column) matches Ok(status) ==> forall|field: Field|
            field_value(column, field) == Some(status.spec_figure(field)),
{
    if status_of_column(column).is_ok() {
        let status = status_of_column(column).unwrap();
        assert forall|field: Field| field_value(column, field) == Some(
            status.spec_figure(field),
        ) by {
            match field {
                Field::Capital => {},
                Field::Borrowed => {},
                Field::Reserve => {},
                Field::Assets => {},
            }
        }
    } else if column.len() > 0 {
        let bad = if field_value(column, Field::Capital).is_none() {
            Field::Capital
        } else if field_value(column, Field::Borrowed).is_none() {
            Field::Borrowed
        } else if field_value(column, Field::Reserve).is_none() {
            Field::Reserve
        } else {
            Field::Assets
        };
        assert(field_value(column, bad).is_none());
    }
}

/// A cell that holds no number fails the whole read: where the column has
/// cells and the cell of `field` is malformed, a malformed cell is
/// reported, that of `field` or of a figure that is read before it.
pub proof fn lemma_malformed_cell_fails(column: Seq<Seq<char>>, field: Field)
    requires
        column.len() > 0,
        field_value(column, field).is_none(),
    ensures
        status_of_column(column) matches Err(Failure::MalformedCell(reported))
            && reported.spec_index() <= field.spec_index() && field_value(
            column,
            reported,
        ).is_none(),
{
}

/// The failure names the first malformed cell: `field` is reported exactly
/// when the column has cells, the cell of `field` holds no number and every
/// cell read before it does.
pub proof fn lemma_malformed_cell_is_first(column: Seq<Seq<char>>, field: Field)
    ensures
        status_of_column(column) == Err::<Status, Failure>(Failure::MalformedCell(field)) <==> {
            &&& column.len() > 0
            &&& field_value(column, field).is_none()
            &&& forall|earlier: Field|
                earlier.spec_index() < field.spec_index() ==> field_value(
                    column,
                    earlier,
                ).is_some()
        },
{
    if status_of_column(column) == Err::<Status, Failure>(Failure::MalformedCell(field)) {
        assert forall|earlier: Field|
            earlier.spec_index() < field.spec_index() implies field_value(
            column,
            earlier,
        ).is_some() by {
            match earlier {
                Field::Capital => {},
                Field::Borrowed => {},
                Field::Reserve => {},
                Field::Assets => {},
            }
        }
    } else if column.len() > 0 && field_value(column, field).is_none() {
        lemma_malformed_cell_fails(column, field);
        let reported = status_of_column(column)->Err_0->MalformedCell_0;
        assert(reported.spec_index() < field.spec_index());
        assert(field_value(column, reported).is_none());
    }
}

/// No data is reported exactly when there are no values, no column, or no
/// cell in the first column.
pub proof fn lemma_no_data_iff_empty(values: Option<Seq<Seq<Seq<char>>>>)
    ensures
        status_of_values(values) == Err::<Status, Failure>(Failure::NoDataReturned) <==> {
            ||| values.is_none()
            ||| values.unwrap().len() == 0
            ||| values.unwrap()[0].len() == 0
        },
{
}

/// Four cells that hold, the noise apart, the decimal texts of the four
/// figures of `status` read as `status`, however the currency sign and the
/// white space are spread over them.
pub proof fn lemma_column_reads_amounts(column: Seq<Seq<char>>, status: Status)
    requires
        column.len() >= 4,
        forall|field: Field|
            stripped(column[field.spec_index()]) == decimal_text(
                status.spec_figure(field) as int,
            ),
    ensures
        status_of_column(column) == Ok::<Status, Failure>(status),
{
    assert forall|field: Field| field_value(column, field) == Some(
        status.spec_figure(field),
    ) by {
        lemma_cell_reads_amount(column[field.spec_index()], status.spec_figure(field));
    }
    assert(field_value(column, Field::Capital) == Some(status.capital));
    assert(field_value(column, Field::Borrowed) == Some(status.borrowed));
    assert(field_value(column, Field::Reserve) == Some(status.reserve));
    assert(field_value(column, Field::Assets) == Some(status.assets));
}

/// Fetches of fixed data agree: where every reply that `fetch` can give to
/// the status query holds the same status or the same failure, any two
/// fetches from the backend end in the same answer.
pub proof fn lemma_fixed_data_gives_one_answer<
    F: Fn(&RangeQuery) -> Result<Option<Vec<Vec<String>>>, String>,
>(backend: SheetsBackend<F>, first: Result<Status, Failure>, second: Result<Status, Failure>)
    requires
        forall|
            query: RangeQuery,
            other: RangeQuery,
            reply: Result<Option<Vec<Vec<String>>>, String>,
            again: Result<Option<Vec<Vec<String>>>, String>,
        |
            #![trigger
                call_ensures(backend.spec_fetch(), (&query,), reply),
                call_ensures(backend.spec_fetch(), (&other,), again)
            ]
            backend.spec_status_query(query) && backend.spec_status_query(other)
                && call_ensures(backend.spec_fetch(), (&query,), reply) && call_ensures(
                backend.spec_fetch(),
                (&other,),
                again,
            ) ==> status_of_reply(reply) == status_of_reply(again),
        backend.spec_fetched(first),
        backend.spec_fetched(second),
    ensures
        first == second,
{
}

} // verus!

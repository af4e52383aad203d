use sheets_bot::backend::Backend;
use sheets_bot::failure::Failure;
use sheets_bot::sheets::{
    read_field, status_from_column, status_from_reply, status_from_values, RangeQuery,
    SheetsBackend, COLUMN_MAJOR, STATUS_RANGE,
};
use sheets_bot::status::{Field, Status};

fn column(cells: &[&str]) -> Vec<String> {
    cells.iter().map(|cell| cell.to_string()).collect()
}

fn sample() -> Vec<String> {
    column(&["1 234 \u{20BD}", "500 \u{20BD}", "100 \u{20BD}", "1 634 \u{20BD}"])
}

fn sample_status() -> Status {
    Status { capital: 1234, borrowed: 500, reserve: 100, assets: 1634 }
}

#[test]
fn four_cells_give_the_status() {
    assert_eq!(status_from_column(&sample()), Ok(sample_status()));
    assert_eq!(status_from_values(&Some(vec![sample()])), Ok(sample_status()));
    assert_eq!(status_from_reply(Ok(Some(vec![sample()]))), Ok(sample_status()));
}

#[test]
fn figures_are_taken_in_order() {
    let got = status_from_column(&column(&["1", "2", "3", "4"]));
    assert_eq!(got, Ok(Status { capital: 1, borrowed: 2, reserve: 3, assets: 4 }));
    let got = status_from_column(&column(&["-1 \u{20BD}", "0", "+3", "\u{20BD}4"]));
    assert_eq!(got, Ok(Status { capital: -1, borrowed: 0, reserve: 3, assets: 4 }));
}

#[test]
fn only_the_first_column_and_four_cells_count() {
    let values = Some(vec![sample(), column(&["x", "y"])]);
    assert_eq!(status_from_values(&values), Ok(sample_status()));
    let long = column(&["1", "2", "3", "4", "junk"]);
    assert_eq!(
        status_from_column(&long),
        Ok(Status { capital: 1, borrowed: 2, reserve: 3, assets: 4 })
    );
}

#[test]
fn each_malformed_cell_is_named() {
    let fields = [Field::Capital, Field::Borrowed, Field::Reserve, Field::Assets];
    for (index, field) in fields.iter().enumerate() {
        let mut cells = sample();
        cells[index] = "n/a".to_string();
        assert_eq!(status_from_column(&cells), Err(Failure::MalformedCell(*field)));
        assert_eq!(
            status_from_values(&Some(vec![cells.clone()])),
            Err(Failure::MalformedCell(*field))
        );
        assert_eq!(read_field(&cells, *field), Err(Failure::MalformedCell(*field)));
    }
}

#[test]
fn the_first_malformed_cell_is_reported() {
    let cells = column(&["1", "x", "y", "4"]);
    assert_eq!(status_from_column(&cells), Err(Failure::MalformedCell(Field::Borrowed)));
    let cells = column(&["", "", "", ""]);
    assert_eq!(status_from_column(&cells), Err(Failure::MalformedCell(Field::Capital)));
    let cells = column(&["1", "2", "3", "9223372036854775808"]);
    assert_eq!(status_from_column(&cells), Err(Failure::MalformedCell(Field::Assets)));
}

#[test]
fn a_missing_cell_reads_as_an_empty_one() {
    assert_eq!(
        status_from_column(&column(&["1", "2", "3"])),
        Err(Failure::MalformedCell(Field::Assets))
    );
    assert_eq!(
        status_from_column(&column(&["1"])),
        Err(Failure::MalformedCell(Field::Borrowed))
    );
    assert_eq!(read_field(&column(&["1"]), Field::Capital), Ok(1));
    assert_eq!(
        read_field(&column(&["1"]), Field::Reserve),
        Err(Failure::MalformedCell(Field::Reserve))
    );
}

#[test]
fn empty_values_are_no_data() {
    assert_eq!(status_from_values(&None), Err(Failure::NoDataReturned));
    assert_eq!(status_from_values(&Some(vec![])), Err(Failure::NoDataReturned));
    assert_eq!(status_from_values(&Some(vec![vec![]])), Err(Failure::NoDataReturned));
    assert_eq!(status_from_column(&vec![]), Err(Failure::NoDataReturned));
    assert_eq!(status_from_reply(Ok(None)), Err(Failure::NoDataReturned));
    assert_eq!(
        status_from_values(&Some(vec![vec![], sample()])),
        Err(Failure::NoDataReturned)
    );
}

#[test]
fn a_failed_read_keeps_its_cause() {
    assert_eq!(
        status_from_reply(Err("connection reset".to_string())),
        Err(Failure::BackendCallFailed("connection reset".to_string()))
    );
}

#[test]
fn the_status_query_names_the_range() {
    assert_eq!(STATUS_RANGE, "B7:B10");
    assert_eq!(COLUMN_MAJOR, "COLUMNS");
    let backend = SheetsBackend::new("sheet-1".to_string(), |_query: &RangeQuery| Ok(None));
    assert_eq!(backend.spreadsheet_id(), "sheet-1");
    assert_eq!(
        backend.status_query(),
        RangeQuery {
            spreadsheet_id: "sheet-1".to_string(),
            range: "B7:B10",
            major_dimension: "COLUMNS",
        }
    );
}

#[test]
fn the_backend_hands_the_query_to_fetch() {
    let backend = SheetsBackend::new("sheet-1".to_string(), |query: &RangeQuery| {
        if query.spreadsheet_id == "sheet-1"
            && query.range == "B7:B10"
            && query.major_dimension == "COLUMNS"
        {
            Ok(Some(vec![vec![
                "1 234 \u{20BD}".to_string(),
                "500 \u{20BD}".to_string(),
                "100 \u{20BD}".to_string(),
                "1 634 \u{20BD}".to_string(),
            ]]))
        } else {
            Err(format!("unexpected query {:?}", query))
        }
    });
    assert_eq!(backend.status(), Ok(sample_status()));
}

#[test]
fn the_backend_reports_what_fetch_reports() {
    let down = SheetsBackend::new("s".to_string(), |_query: &RangeQuery| {
        Err("timed out".to_string())
    });
    assert_eq!(down.status(), Err(Failure::BackendCallFailed("timed out".to_string())));
    let empty = SheetsBackend::new("s".to_string(), |_query: &RangeQuery| Ok(None));
    assert_eq!(empty.status(), Err(Failure::NoDataReturned));
    let broken = SheetsBackend::new("s".to_string(), |_query: &RangeQuery| {
        Ok(Some(vec![vec!["1".to_string(), "2".to_string(), "?".to_string(), "4".to_string()]]))
    });
    assert_eq!(broken.status(), Err(Failure::MalformedCell(Field::Reserve)));
}

#[test]
fn repeated_fetches_of_fixed_data_agree() {
    let backend = SheetsBackend::new("s".to_string(), |_query: &RangeQuery| {
        Ok(Some(vec![vec![
            "1 234 \u{20BD}".to_string(),
            "500 \u{20BD}".to_string(),
            "100 \u{20BD}".to_string(),
            "1 634 \u{20BD}".to_string(),
        ]]))
    });
    let first = backend.status();
    assert_eq!(first, Ok(sample_status()));
    for _ in 0..64 {
        assert_eq!(backend.status(), first);
    }
}

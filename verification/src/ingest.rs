//! Ingestion: the table that receives the worksheet, the rows that are loaded
//! into it, and the order of the steps that lead to the first prompt.

use crate::store::prepare;
use vstd::prelude::*;

verus! {

#[verifier::external_type_specification]
#[verifier::external_body]
pub struct ExValue(rusqlite::types::Value);

/// One data row of the worksheet. The three response times are real numbers;
/// they are carried as values of the engine and handed to it as they are. A
/// count that is missing is handed to the engine as no value, which the table
/// refuses.
#[derive(Debug)]
pub struct ExcelRow {
    pub service_name: String,
    pub average_response_time_95_ms: rusqlite::types::Value,
    pub count: Option<i64>,
    pub max_response_time_95_ms: rusqlite::types::Value,
    pub min_response_time_95_ms: rusqlite::types::Value,
}

/// The steps from the start of the program to the first prompt.
#[derive(Debug, Clone, Copy, PartialEq, Eq, Structural)]
pub enum Startup {
    /// The store is being opened.
    OpeningStore,
    /// The table is being created.
    CreatingTable,
    /// The worksheet is being read.
    LoadingSheet,
    /// The rows are being inserted.
    ImportingRows,
    /// The prompt can start.
    Ready,
    /// The store could not be opened; the program ends.
    Aborted,
}

/// The step that follows `stage` once its work has succeeded or failed. Only
/// a store that cannot be opened ends the program. Any later failure skips
/// what is left of the ingestion, and the prompt starts over what is there.
pub open spec fn next_startup(stage: Startup, succeeded: bool) -> Startup {
    match stage {
        Startup::OpeningStore => if succeeded {
            Startup::CreatingTable
        } else {
            Startup::Aborted
        },
        Startup::CreatingTable => if succeeded {
            Startup::LoadingSheet
        } else {
            Startup::Ready
        },
        Startup::LoadingSheet => if succeeded {
            Startup::ImportingRows
        } else {
            Startup::Ready
        },
        Startup::ImportingRows => Startup::Ready,
        Startup::Ready => Startup::Ready,
        Startup::Aborted => Startup::Aborted,
    }
}

/// The exit code that a step ends the program with, if it does.
pub open spec fn startup_exit_code(stage: Startup) -> Option<i32> {
    match stage {
        Startup::Aborted => Some(1i32),
        _ => None,
    }
}

/// Computes [`next_startup`].
pub fn advance_startup(stage: Startup, succeeded: bool) -> (next: Startup)
    ensures
        next == next_startup(stage, succeeded),
{
    match stage {
        Startup::OpeningStore => if succeeded {
            Startup::CreatingTable
        } else {
            Startup::Aborted
        },
        Startup::CreatingTable => if succeeded {
            Startup::LoadingSheet
        } else {
            Startup::Ready
        },
        Startup::LoadingSheet => if succeeded {
            Startup::ImportingRows
        } else {
            Startup::Ready
        },
        Startup::ImportingRows => Startup::Ready,
        Startup::Ready => Startup::Ready,
        Startup::Aborted => Startup::Aborted,
    }
}

/// Computes [`startup_exit_code`].
pub fn startup_exit(stage: Startup) -> (code: Option<i32>)
    ensures
        code == startup_exit_code(stage),
{
    match stage {
        Startup::Aborted => Some(1i32),
        _ => None,
    }
}

/// The statements that create the table `excel_rows`, with its five columns
/// and the index that keeps `service_name` unique.
pub const SCHEMA_SQL: &'static str = "CREATE TABLE excel_rows (
    service_name TEXT NOT NULL,
    average_response_time_95_ms REAL NOT NULL,
    count INTEGER NOT NULL,
    max_response_time_95_ms REAL NOT NULL,
    min_response_time_95_ms REAL NOT NULL
);
CREATE UNIQUE INDEX idx_service_name ON excel_rows (service_name);";

/// The statement that inserts one row into `excel_rows`.
pub const INSERT_SQL: &'static str = "INSERT INTO excel_rows (
    service_name,
    average_response_time_95_ms,
    count,
    max_response_time_95_ms,
    min_response_time_95_ms
) VALUES (
    :service_name,
    :average_response_time_95_ms,
    :count,
    :max_response_time_95_ms,
    :min_response_time_95_ms
)";

/// Calls `rusqlite::Connection::execute_batch`, which runs every statement of
/// the text in turn and stops at the first that fails.
#[verifier::external_body]
fn execute_batch(connection: &rusqlite::Connection, sql: &str) -> (outcome: Result<
    (),
    rusqlite::Error,
>) {
    connection.execute_batch(sql)
}

/// Calls `rusqlite::Statement::execute` with the five values of a row, bound
/// in the order of the columns.
#[verifier::external_body]
fn insert_row(statement: &mut rusqlite::Statement<'_>, row: &ExcelRow) -> (outcome: Result<
    usize,
    rusqlite::Error,
>) {
    statement.execute(
        (
            &row.service_name,
            &row.average_response_time_95_ms,
            row.count,
            &row.max_response_time_95_ms,
            &row.min_response_time_95_ms,
        ),
    )
}

/// Creates the table in the store and says which step comes next: reading
/// the worksheet when the table is there, the prompt when it is not.
pub fn create_table(connection: &rusqlite::Connection) -> (step: (Startup, Option<rusqlite::Error>))
    ensures
        step.0 == next_startup(Startup::CreatingTable, step.1 is None),
{
    match execute_batch(connection, SCHEMA_SQL) {
        Ok(()) => (advance_startup(Startup::CreatingTable, true), None),
        Err(e) => (advance_startup(Startup::CreatingTable, false), Some(e)),
    }
}

/// What a row of the worksheet is.
#[derive(Debug, Clone, Copy, PartialEq, Eq, Structural)]
pub enum RowShape {
    /// The first row, which names the columns and is not loaded.
    Header,
    /// A row to load.
    Data,
    /// A row that cannot be loaded: it has fewer than five cells, or its
    /// first cell is no text.
    Malformed,
}

/// What the row `index` of the worksheet is, given the number of its cells
/// and whether the first of them is a text.
pub fn row_shape(index: usize, cells: usize, first_is_text: bool) -> (shape: RowShape)
    ensures
        index == 0 ==> shape == RowShape::Header,
        index > 0 && cells >= 5 && first_is_text ==> shape == RowShape::Data,
        index > 0 && !(cells >= 5 && first_is_text) ==> shape == RowShape::Malformed,
{
    if index == 0 {
        RowShape::Header
    } else if cells >= 5 && first_is_text {
        RowShape::Data
    } else {
        RowShape::Malformed
    }
}

/// Why the rows were not all inserted.
#[derive(Debug)]
pub enum ImportError {
    /// The engine did not accept the insert statement.
    Prepare(rusqlite::Error),
    /// The engine refused a row; the rows before it were inserted, and none
    /// after it was tried.
    Row { index: usize, cause: rusqlite::Error },
}

/// The row to insert after the row `index` of `total` rows, if one is left.
pub open spec fn next_insert(index: usize, total: usize) -> Option<usize> {
    if index + 1 < total {
        Some((index + 1) as usize)
    } else {
        None
    }
}

/// What preparing the insert statement leads to: the statement when the
/// engine accepted it, else the import ends with the engine's error.
pub fn import_prepared<'conn>(
    prepared: Result<rusqlite::Statement<'conn>, rusqlite::Error>,
) -> (ready: Result<rusqlite::Statement<'conn>, ImportError>)
    ensures
        match prepared {
            Ok(statement) => ready matches Ok(same) && same == statement,
            Err(e) => ready matches Err(ImportError::Prepare(cause)) && cause == e,
        },
{
    match prepared {
        Ok(statement) => Ok(statement),
        Err(e) => Err(ImportError::Prepare(e)),
    }
}

/// The row to insert first: row 0, unless there is no row.
pub fn first_insert(total: usize) -> (next: Option<usize>)
    ensures
        total == 0 ==> next is None,
        total > 0 ==> next == Some(0usize),
{
    if total == 0 {
        None
    } else {
        Some(0)
    }
}

/// What the insert of row `index` leads to. An accepted row is followed by
/// the next one, or by none when it was the last of `total`. A refused row
/// ends the import: it is named with the engine's error, and no row is given
/// to insert after it.
pub fn import_step(index: usize, total: usize, inserted: Result<usize, rusqlite::Error>) -> (next:
    Result<Option<usize>, ImportError>)
    ensures
        match inserted {
            Ok(_) => next matches Ok(row) && row == next_insert(index, total),
            Err(e) => next matches Err(ImportError::Row { index: at, cause }) && at == index
                && cause == e,
        },
{
    match inserted {
        Ok(_) => if index < total && index + 1 < total {
            Ok(Some(index + 1))
        } else {
            Ok(None)
        },
        Err(cause) => Err(ImportError::Row { index, cause }),
    }
}

/// Inserts the rows in order through a statement that the engine accepted,
/// and stops at the first row that it refuses. Without rows nothing is
/// handed to the engine and the import succeeds. On success the number of
/// rows is given, all of which were handed to the engine; a refused row is
/// named by its index.
pub fn insert_rows(statement: &mut rusqlite::Statement<'_>, excel_rows: &Vec<ExcelRow>) -> (outcome:
    Result<usize, ImportError>)
    ensures
        excel_rows.len() == 0 ==> outcome is Ok,
        outcome matches Ok(count) ==> count == excel_rows.len(),
        outcome matches Err(e) ==> (e matches ImportError::Row { index, .. } && index
            < excel_rows.len()),
{
    let total = excel_rows.len();
    let mut next = first_insert(total);
    while next.is_some()
        invariant
            total == excel_rows.len(),
            next matches Some(index) ==> index < total,
        decreases
                (if next is Some {
                    total - next.unwrap()
                } else {
                    0
                }),
    {
        let index = next.unwrap();
        let inserted = insert_row(statement, &excel_rows[index]);
        match import_step(index, total, inserted) {
            Ok(row) => {
                next = row;
            },
            Err(e) => {
                return Err(e);
            },
        }
    }
    Ok(total)
}

/// Prepares the insert statement, inserts the rows in order and stops at the
/// first that the engine refuses. On success it gives the number of rows, all
/// of which were handed to the engine; a refused row is named by its index.
pub fn import_database(connection: &rusqlite::Connection, excel_rows: &Vec<ExcelRow>) -> (outcome:
    Result<usize, ImportError>)
    ensures
        outcome matches Ok(count) ==> count == excel_rows.len(),
        outcome matches Err(ImportError::Row { index, .. }) ==> index < excel_rows.len(),
{
    match import_prepared(prepare(connection, INSERT_SQL)) {
        Err(e) => Err(e),
        Ok(mut statement) => insert_rows(&mut statement, excel_rows),
    }
}

} // verus!

//! The store: an embedded relational engine, reached through `rusqlite`.
//! A statement is prepared, run, and its rows are read into a [`ResultSet`].
//! The names of its columns are handed in by the caller.

use crate::cell::Cell;
use rusqlite::types::ValueRef;
use vstd::prelude::*;

verus! {

#[verifier::external_type_specification]
#[verifier::external_body]
pub struct ExConnection(rusqlite::Connection);

#[verifier::external_type_specification]
#[verifier::external_body]
pub struct ExStatement<'conn>(rusqlite::Statement<'conn>);

#[verifier::external_type_specification]
#[verifier::external_body]
pub struct ExRows<'stmt>(rusqlite::Rows<'stmt>);

#[verifier::external_type_specification]
#[verifier::external_body]
pub struct ExRow<'stmt>(rusqlite::Row<'stmt>);

#[verifier::external_type_specification]
#[verifier::external_body]
pub struct ExStoreError(rusqlite::Error);

/// What reading one position of a row gave: the cell, or the engine's error.
pub type Reading = Result<Cell, rusqlite::Error>;

/// The outcome of a query: the column names and the rows, in the order in
/// which the engine produced them.
#[derive(Debug)]
pub struct ResultSet {
    pub columns: Vec<String>,
    pub rows: Vec<Vec<Reading>>,
}

impl ResultSet {
    /// Every row has one reading for each column.
    pub open spec fn is_rectangular(&self) -> bool {
        forall|i: int| 0 <= i < self.rows.len() ==> #[trigger] self.rows[i].len() == self.columns.len()
    }

    /// Every position of every row was read.
    pub open spec fn is_complete(&self) -> bool {
        forall|i: int, j: int|
            0 <= i < self.rows.len() && 0 <= j < self.rows[i].len() ==> (#[trigger] self.rows[i][j]) is Ok
    }
}

/// Why a statement gave no result set.
#[derive(Debug)]
pub enum StatementError {
    /// The engine did not accept the text as a statement.
    Prepare(rusqlite::Error),
    /// The names handed in are not as many as the columns of the statement.
    ColumnNames { columns: usize, names: usize },
    /// The statement could not be started.
    Query(rusqlite::Error),
    /// The engine failed while it produced a row.
    Step(rusqlite::Error),
    /// There are more rows than this machine can count.
    TooManyRows,
}

/// Calls `rusqlite::Connection::prepare`. Whether the engine accepts the
/// text depends on the text and on what the store holds, so nothing is
/// claimed of the result.
#[verifier::external_body]
pub(crate) fn prepare<'conn>(connection: &'conn rusqlite::Connection, sql: &str) -> (prepared: Result<
    rusqlite::Statement<'conn>,
    rusqlite::Error,
>) {
    connection.prepare(sql)
}

/// Calls `rusqlite::Statement::column_count`: the number of columns of the
/// rows that the statement gives.
#[verifier::external_body]
fn column_count(statement: &rusqlite::Statement<'_>) -> (count: usize) {
    statement.column_count()
}

/// Calls `rusqlite::Statement::query` without parameters.
#[verifier::external_body]
fn start_query<'a>(statement: &'a mut rusqlite::Statement<'_>) -> (started: Result<
    rusqlite::Rows<'a>,
    rusqlite::Error,
>) {
    statement.query([])
}

/// Calls `rusqlite::Rows::next`: the next row, `None` after the last one, or
/// the engine's error.
#[verifier::external_body]
fn next_row<'a, 'stmt>(rows: &'a mut rusqlite::Rows<'stmt>) -> (step: Result<
    Option<&'a rusqlite::Row<'stmt>>,
    rusqlite::Error,
>) {
    rows.next()
}

/// Calls `rusqlite::Row::get_ref` and copies the value into a [`Cell`] of the
/// same storage class. A real number is given as the text it prints as; a text
/// that is not valid UTF-8 is an error.
#[verifier::external_body]
fn read_cell(row: &rusqlite::Row<'_>, index: usize) -> (reading: Reading) {
    match row.get_ref(index)? {
        ValueRef::Null => Ok(Cell::Null),
        ValueRef::Integer(i) => Ok(Cell::Integer(i)),
        ValueRef::Real(r) => Ok(Cell::Real(r.to_string())),
        ValueRef::Text(t) => match std::str::from_utf8(t) {
            Ok(text) => Ok(Cell::Text(text.to_string())),
            Err(e) => Err(rusqlite::Error::Utf8Error(e)),
        },
        ValueRef::Blob(b) => Ok(Cell::Binary(b.to_vec())),
    }
}

/// Reads the first `width` positions of a row. A position that cannot be read
/// keeps its place, with the error.
fn read_row(row: &rusqlite::Row<'_>, width: usize) -> (readings: Vec<Reading>)
    ensures
        readings.len() == width,
{
    let mut readings: Vec<Reading> = Vec::new();
    let mut index: usize = 0;
    while index < width
        invariant
            index <= width,
            readings.len() == index,
        decreases width - index,
    {
        readings.push(read_cell(row, index));
        index = index + 1;
    }
    readings
}

/// What the engine gave when it was asked for one more row.
#[derive(Debug)]
pub enum Step {
    /// A row, with what reading each of its positions gave.
    Row(Vec<Reading>),
    /// No row is left.
    End,
    /// The engine failed while it produced the row.
    Failed(rusqlite::Error),
}

/// The rows read so far, and whether the engine has said that no row is left.
#[derive(Debug)]
pub struct Gathering {
    pub rows: Vec<Vec<Reading>>,
    pub complete: bool,
}

/// How far the engine got with a prepared statement.
#[derive(Debug)]
pub enum Run {
    /// It could not start the statement.
    NotStarted(rusqlite::Error),
    /// It started the statement: the columns, and what reading the rows gave.
    Started { columns: Vec<String>, read: Result<Vec<Vec<Reading>>, StatementError> },
}

/// What one more step makes of the rows read so far: a row is appended after
/// them, the end completes them, and a failure of the engine discards them.
pub fn gather(gathering: Gathering, step: Step) -> (taken: Result<Gathering, StatementError>)
    ensures
        match step {
            Step::Row(row) => taken matches Ok(next) && next.rows@ == gathering.rows@.push(row)
                && next.complete == gathering.complete,
            Step::End => taken matches Ok(next) && next.rows == gathering.rows && next.complete,
            Step::Failed(e) => taken matches Err(StatementError::Step(cause)) && cause == e,
        },
{
    match step {
        Step::Row(row) => {
            let mut next = gathering;
            next.rows.push(row);
            Ok(next)
        },
        Step::End => Ok(Gathering { rows: gathering.rows, complete: true }),
        Step::Failed(e) => Err(StatementError::Step(e)),
    }
}

/// The rows of a gathering that has ended: all of them when the engine said
/// that no row is left; otherwise there were more than this machine can count.
pub fn gathered(gathering: Gathering) -> (rows: Result<Vec<Vec<Reading>>, StatementError>)
    ensures
        gathering.complete ==> (rows matches Ok(all) && all == gathering.rows),
        !gathering.complete ==> rows matches Err(StatementError::TooManyRows),
{
    if gathering.complete {
        Ok(gathering.rows)
    } else {
        Err(StatementError::TooManyRows)
    }
}

/// What preparing a statement leads to: the statement when the engine
/// accepted the text, else the engine's error.
pub fn prepared_of<'conn>(
    prepared: Result<rusqlite::Statement<'conn>, rusqlite::Error>,
) -> (ready: Result<rusqlite::Statement<'conn>, StatementError>)
    ensures
        match prepared {
            Ok(statement) => ready matches Ok(same) && same == statement,
            Err(e) => ready matches Err(StatementError::Prepare(cause)) && cause == e,
        },
{
    match prepared {
        Ok(statement) => Ok(statement),
        Err(e) => Err(StatementError::Prepare(e)),
    }
}

/// The names for a statement with `count` columns: the names handed in when
/// there is one for each column, else an error that gives both numbers.
pub fn check_names(names: Vec<String>, count: usize) -> (checked: Result<Vec<String>, StatementError>)
    ensures
        names.len() == count ==> (checked matches Ok(same) && same == names),
        names.len() != count ==> (checked matches Err(
            StatementError::ColumnNames { columns, names: found },
        ) && columns == count && found == names.len()),
{
    if names.len() == count {
        Ok(names)
    } else {
        let found = names.len();
        Err(StatementError::ColumnNames { columns: count, names: found })
    }
}

/// What a run gives: the columns with the rows when the statement ran to its
/// end, else the error of the stage at which it stopped.
pub fn result_of(run: Run) -> (result: Result<ResultSet, StatementError>)
    ensures
        match run {
            Run::NotStarted(e) => result matches Err(StatementError::Query(cause)) && cause == e,
            Run::Started { columns, read: Err(e) } => result matches Err(cause) && cause == e,
            Run::Started { columns, read: Ok(rows) } => result matches Ok(set) && set.columns
                == columns && set.rows == rows,
        },
{
    match run {
        Run::NotStarted(e) => Err(StatementError::Query(e)),
        Run::Started { columns, read } => match read {
            Err(e) => Err(e),
            Ok(rows) => Ok(ResultSet { columns, rows }),
        },
    }
}

/// Asks the engine for one more row and reads its first `width` positions.
fn next_step(rows: &mut rusqlite::Rows<'_>, width: usize) -> (step: Step)
    ensures
        step matches Step::Row(row) ==> row.len() == width,
{
    match next_row(rows) {
        Err(e) => Step::Failed(e),
        Ok(None) => Step::End,
        Ok(Some(row)) => Step::Row(read_row(row, width)),
    }
}

/// Reads rows until the engine has no more, or fails.
fn read_rows(rows: &mut rusqlite::Rows<'_>, width: usize) -> (read: Result<
    Vec<Vec<Reading>>,
    StatementError,
>)
    ensures
        read matches Ok(all) ==> forall|i: int| 0 <= i < all.len() ==> #[trigger] all[i].len() == width,
{
    let mut gathering = Gathering { rows: Vec::new(), complete: false };
    while !gathering.complete && gathering.rows.len() < usize::MAX
        invariant
            forall|i: int|
                0 <= i < gathering.rows.len() ==> #[trigger] gathering.rows[i].len() == width,
        decreases
                usize::MAX - gathering.rows.len(),
                if gathering.complete {
                    0int
                } else {
                    1int
                },
    {
        let step = next_step(rows, width);
        match gather(gathering, step) {
            Err(e) => {
                return Err(e);
            },
            Ok(next) => {
                gathering = next;
            },
        }
    }
    gathered(gathering)
}

/// Starts the statement and reads its rows, and records how far the engine
/// got. The rows of a run that was read have one reading for each column.
fn run_statement(statement: &mut rusqlite::Statement<'_>, columns: Vec<String>) -> (run: Run)
    ensures
        run matches Run::Started { columns: named, read } ==> named == columns && (read matches Ok(
            rows,
        ) ==> forall|i: int| 0 <= i < rows.len() ==> #[trigger] rows[i].len() == columns.len()),
{
    let width = columns.len();
    match start_query(statement) {
        Err(e) => Run::NotStarted(e),
        Ok(mut rows) => {
            let read = read_rows(&mut rows, width);
            Run::Started { columns, read }
        },
    }
}

/// Prepares a statement from its text. Whether the engine accepts the text is
/// for the engine to say; its error is handed on as it is.
pub fn prepare_statement<'conn>(connection: &'conn rusqlite::Connection, sql: &str) -> (ready:
    Result<rusqlite::Statement<'conn>, StatementError>)
    ensures
        ready matches Err(e) ==> e is Prepare,
{
    prepared_of(prepare(connection, sql))
}

/// Runs a prepared statement and reads all of its rows. `columns` are the
/// names of its columns, one for each. On success the result set has these
/// names, and every row has one reading for each of them.
pub fn fetch(statement: &mut rusqlite::Statement<'_>, columns: Vec<String>) -> (fetched: Result<
    ResultSet,
    StatementError,
>)
    ensures
        fetched matches Ok(result) ==> result.columns == columns && result.is_rectangular(),
{
    let count = column_count(statement);
    match check_names(columns, count) {
        Err(e) => Err(e),
        Ok(named) => result_of(run_statement(statement, named)),
    }
}

} // verus!

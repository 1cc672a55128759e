//! One statement from text to answer: run it, lay the result out as a table,
//! draw the table, and prepare the export when one is asked for.

use crate::export::{export_csv, is_export_of, ExportError};
use crate::store::{fetch, ResultSet, StatementError};
use crate::table::{grid_of, laid_out, render, RenderedTable};
use vstd::prelude::*;

verus! {

/// The export of one answer: where it goes and what is written there, or why
/// the table could not be written.
#[derive(Debug)]
pub struct Export {
    pub destination: String,
    pub content: Result<Vec<u8>, ExportError>,
}

/// What a statement gave.
#[derive(Debug)]
pub struct Answer {
    /// The rows as they were read, with the readings that failed.
    pub result: ResultSet,
    /// The table that shows them.
    pub table: RenderedTable,
    /// The table drawn as text, to be printed.
    pub text: String,
    /// The export, when a destination was given.
    pub export: Option<Export>,
}

/// The destination as a sequence of characters, when there is one.
pub open spec fn path_view(destination: Option<String>) -> Option<Seq<char>> {
    match destination {
        Some(path) => Some(path@),
        None => None,
    }
}

impl Answer {
    /// Whether this answer presents its result set, with `destination` as the
    /// place of the export: the table holds the column names and the display
    /// texts of the result set as they are, with one row more than it has, the
    /// text is the drawing of the grid made from these texts, and there is an
    /// export exactly when there is a destination, of that same table.
    pub open spec fn presents(&self, destination: Option<Seq<char>>) -> bool {
        &&& self.table@ == laid_out(self.result)
        &&& self.table@.len() == 1 + self.result.rows.len()
        &&& self.table.drawn_cells() == grid_of(self.table@)
        &&& self.text@ == self.table.drawing()
        &&& match destination {
            None => self.export is None,
            Some(path) => self.export matches Some(export) && export.destination@ == path
                && is_export_of(export.content, self.table@),
        }
    }
}

/// Presents a result set: renders the table, draws it, and exports the same
/// table when a destination is given.
pub fn present(result: ResultSet, destination: Option<String>) -> (answer: Answer)
    ensures
        answer.result == result,
        answer.presents(path_view(destination)),
{
    let table = render(&result);
    let text = table.text();
    let export = match destination {
        None => None,
        Some(path) => {
            let content = export_csv(&table);
            Some(Export { destination: path, content })
        },
    };
    Answer { result, table, text, export }
}

/// What is made of the outcome of a fetch: a result set is presented, and an
/// error is handed on as it is.
pub fn answer_of(fetched: Result<ResultSet, StatementError>, destination: Option<String>) -> (outcome:
    Result<Answer, StatementError>)
    ensures
        match fetched {
            Ok(result) => outcome matches Ok(answer) && answer.result == result && answer.presents(
                path_view(destination),
            ),
            Err(e) => outcome matches Err(cause) && cause == e,
        },
{
    match fetched {
        Err(e) => Err(e),
        Ok(result) => Ok(present(result, destination)),
    }
}

/// Runs a prepared statement against the store and presents what it gives.
/// `columns` are the names of its columns. Whether the engine runs the
/// statement is for the engine to say; when it does, the result set has these
/// names, every row has one reading for each of them, and the answer presents
/// these rows.
pub fn query_statement_and_display(
    statement: &mut rusqlite::Statement<'_>,
    columns: Vec<String>,
    exported_file_name: Option<String>,
) -> (outcome: Result<Answer, StatementError>)
    ensures
        outcome matches Ok(answer) ==> answer.result.columns == columns
            && answer.result.is_rectangular() && answer.presents(path_view(exported_file_name)),
{
    answer_of(fetch(statement, columns), exported_file_name)
}

} // verus!

//! Query a worksheet with SQL: parse each input line, run the statement
//! against the store, lay the result out as a table and, when the line asks
//! for it, turn the same table into CSV.

pub mod cell;
pub mod directive;
pub mod export;
pub mod ingest;
pub mod query;
pub mod repl;
pub mod store;
pub mod table;
pub mod text;

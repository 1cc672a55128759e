//! CSV export of a rendered table. Every row, the header included, becomes
//! one record; the commas that group digits are removed from each text first,
//! so that a grouped number stays one field.

use crate::store::ResultSet;
use crate::table::{laid_out, lemma_complete_result_has_constant_width, RenderedTable};
use crate::text::{lemma_without_commas_has_none, strip_commas, without_commas};
use vstd::prelude::*;

verus! {

#[verifier::external_type_specification]
#[verifier::external_body]
pub struct ExCsvError(csv::Error);

/// A `csv::Writer` in its default configuration that writes into memory.
#[verifier::external_body]
pub struct RecordWriter {
    inner: csv::Writer<Vec<u8>>,
}

/// The bytes that a writer has been given so far, as `into_inner` yields them.
pub uninterp spec fn written(writer: RecordWriter) -> Seq<u8>;

/// The number of fields of the first record that a writer was given, which
/// every later record must have too; `None` before the first record.
pub uninterp spec fn first_width(writer: RecordWriter) -> Option<nat>;

/// The bytes of one record as `csv::Writer::write_record` encodes it in the
/// default configuration: the fields, quoted where needed and separated by
/// commas, then the record terminator.
pub uninterp spec fn record_bytes(fields: Seq<Seq<char>>) -> Seq<u8>;

/// Calls `csv::Writer::from_writer` on an empty vector: nothing is written
/// yet and no record has fixed the number of fields.
#[verifier::external_body]
fn new_writer() -> (writer: RecordWriter)
    ensures
        written(writer) == Seq::<u8>::empty(),
        first_width(writer) is None,
{
    RecordWriter { inner: csv::Writer::from_writer(Vec::new()) }
}

/// Calls `csv::Writer::write_record`. The writer is not flexible: the first
/// record fixes the number of fields, and a later record with another number
/// is refused. Writing into memory cannot fail, so that is the only error. An
/// accepted record is appended to what was written, and the writer is handed
/// back; a writer that refused a record is dropped, so every writer stands at
/// the start of a record.
#[verifier::external_body]
fn write_record(writer: RecordWriter, fields: &Vec<String>) -> (outcome: Result<
    RecordWriter,
    csv::Error,
>)
    ensures
        outcome is Ok <==> (first_width(writer) matches Some(width) ==> width == fields.len()),
        outcome matches Ok(next) ==> written(next) == written(writer) + record_bytes(
            fields.deep_view(),
        ),
        outcome matches Ok(next) ==> first_width(next) == Some(fields.len() as nat),
{
    let mut writer = writer;
    writer.inner.write_record(fields).map(|()| writer)
}

/// Calls `csv::Writer::into_inner`, which flushes the writer's buffer into
/// the vector and hands the vector out. Flushing into memory cannot fail.
#[verifier::external_body]
fn finish(writer: RecordWriter) -> (bytes: Option<Vec<u8>>)
    ensures
        bytes is Some,
        bytes.unwrap()@ == written(writer),
{
    writer.inner.into_inner().ok()
}

/// Why a table could not be exported.
#[derive(Debug)]
pub struct ExportError {
    /// The first row whose number of cells differs from the header's.
    pub row: usize,
    /// What the writer said of it.
    pub cause: csv::Error,
}

/// The fields of the record for one row: its texts without their commas.
pub open spec fn export_fields(row: Seq<Seq<char>>) -> Seq<Seq<char>> {
    Seq::new(row.len(), |j: int| without_commas(row[j]))
}

/// The CSV text of `rows`: one record for each row, in order.
pub open spec fn csv_of(rows: Seq<Seq<Seq<char>>>) -> Seq<u8>
    decreases rows.len(),
{
    if rows.len() == 0 {
        Seq::empty()
    } else {
        csv_of(rows.drop_last()) + record_bytes(export_fields(rows.last()))
    }
}

/// Whether every row has as many cells as the first one.
pub open spec fn is_even(rows: Seq<Seq<Seq<char>>>) -> bool {
    forall|i: int| 0 <= i < rows.len() ==> (#[trigger] rows[i]).len() == rows[0].len()
}

/// Whether `at` is the first row whose number of cells differs from that of
/// the first row.
pub open spec fn is_first_uneven(rows: Seq<Seq<Seq<char>>>, at: int) -> bool {
    &&& 0 < at < rows.len()
    &&& rows[at].len() != rows[0].len()
    &&& forall|i: int| 0 <= i < at ==> (#[trigger] rows[i]).len() == rows[0].len()
}

/// Whether `exported` is what exporting `rows` gives: the CSV text when every
/// row has as many cells as the first, else an error that names the first row
/// that differs.
pub open spec fn is_export_of(
    exported: Result<Vec<u8>, ExportError>,
    rows: Seq<Seq<Seq<char>>>,
) -> bool {
    if is_even(rows) {
        exported matches Ok(bytes) && bytes@ == csv_of(rows)
    } else {
        exported matches Err(e) && is_first_uneven(rows, e.row as int)
    }
}

/// The texts of a row without their commas.
pub fn stripped_fields(texts: &Vec<String>) -> (fields: Vec<String>)
    ensures
        fields.deep_view() == export_fields(texts.deep_view()),
{
    let mut fields: Vec<String> = Vec::new();
    let mut j: usize = 0;
    while j < texts.len()
        invariant
            j <= texts.len(),
            fields.len() == j,
            forall|k: int| 0 <= k < j ==> (#[trigger] fields[k])@ == without_commas(texts[k]@),
        decreases texts.len() - j,
    {
        fields.push(strip_commas(texts[j].as_str()));
        j = j + 1;
    }
    assert(fields.deep_view() =~= export_fields(texts.deep_view()));
    fields
}

/// Writes a rendered table as CSV into memory. It succeeds exactly when
/// every row has as many cells as the header, and then gives one record for
/// each row, the header first. Otherwise it names the first row that differs.
pub fn export_csv(table: &RenderedTable) -> (exported: Result<Vec<u8>, ExportError>)
    ensures
        is_export_of(exported, table@),
{
    let count = table.row_count();
    let mut writer = new_writer();
    let mut i: usize = 0;
    while i < count
        invariant
            count == table@.len(),
            i <= count,
            i == 0 ==> first_width(writer) is None,
            i > 0 ==> first_width(writer) == Some(table@[0].len()),
            written(writer) == csv_of(table@.take(i as int)),
            forall|k: int| 0 <= k < i ==> (#[trigger] table@[k]).len() == table@[0].len(),
        decreases count - i,
    {
        let texts = match table.row(i) {
            Some(texts) => texts,
            None => Vec::new(),
        };
        let fields = stripped_fields(&texts);
        assert(fields.len() == table@[i as int].len()) by {
            assert(fields.deep_view().len() == fields.len());
            assert(texts.deep_view().len() == texts.len());
        }
        assert(table@.take(i + 1).drop_last() =~= table@.take(i as int));
        writer = match write_record(writer, &fields) {
            Ok(next) => next,
            Err(cause) => {
                return Err(ExportError { row: i, cause });
            },
        };
        i = i + 1;
    }
    assert(table@.take(count as int) =~= table@);
    match finish(writer) {
        Some(bytes) => Ok(bytes),
        None => Ok(Vec::new()),
    }
}

/// No field of a record holds a comma.
pub proof fn lemma_fields_hold_no_comma(row: Seq<Seq<char>>)
    ensures
        export_fields(row).len() == row.len(),
        forall|j: int, k: int|
            0 <= j < row.len() && 0 <= k < export_fields(row)[j].len() ==> export_fields(
                row,
            )[j][k] != ',',
{
    assert forall|j: int, k: int|
        0 <= j < row.len() && 0 <= k < export_fields(row)[j].len() implies export_fields(
        row,
    )[j][k] != ',' by {
        lemma_without_commas_has_none(row[j]);
    }
}

/// A result set that was read in full can be exported: its table has as
/// many cells in every row as in the header.
pub proof fn lemma_complete_result_is_even(result: ResultSet)
    requires
        result.is_rectangular(),
        result.is_complete(),
    ensures
        is_even(laid_out(result)),
{
    lemma_complete_result_has_constant_width(result);
}

} // verus!

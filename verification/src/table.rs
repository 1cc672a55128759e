//! The rendered table: a header row and one row for each row of the result
//! set, every cell a display text. The table keeps these texts as they are;
//! a `prettytable::Table` made from them draws it.

use crate::cell::{display_text, normalize};
use crate::store::{Reading, ResultSet};
use crate::text::{has_no_escape, lemma_printable, printable, printable_text};
use vstd::prelude::*;

verus! {

#[verifier::external_type_specification]
#[verifier::external_body]
pub struct ExTable(prettytable::Table);

/// The texts that a table holds: for each row, the content of each cell as
/// `prettytable::Cell::get_content` gives it.
pub uninterp spec fn table_cells(table: prettytable::Table) -> Seq<Seq<Seq<char>>>;

/// The content of a cell that `prettytable::Cell::new` makes from a text. The
/// crate keeps the text line by line, so line ends may be changed on the way.
pub uninterp spec fn cell_content(text: Seq<char>) -> Seq<char>;

/// The text that `prettytable` draws for a table in its default format.
pub uninterp spec fn drawn(table: prettytable::Table) -> Seq<char>;

/// The contents of the cells made from `texts`.
pub open spec fn stored_row(texts: Seq<Seq<char>>) -> Seq<Seq<char>> {
    Seq::new(texts.len(), |j: int| cell_content(texts[j]))
}

/// The texts of a row as they can be printed.
pub open spec fn printable_row(texts: Seq<Seq<char>>) -> Seq<Seq<char>> {
    Seq::new(texts.len(), |j: int| printable(texts[j]))
}

/// The cells of the grid that draws `rows`: one row of cells for each row,
/// each cell made from its text as it can be printed.
pub open spec fn grid_of(rows: Seq<Seq<Seq<char>>>) -> Seq<Seq<Seq<char>>> {
    Seq::new(rows.len(), |i: int| stored_row(printable_row(rows[i])))
}

/// Calls `prettytable::Table::new`: a table without rows.
#[verifier::external_body]
fn new_table() -> (table: prettytable::Table)
    ensures
        table_cells(table) == Seq::<Seq<Seq<char>>>::empty(),
{
    prettytable::Table::new()
}

/// Calls `prettytable::Table::add_row` with a row of cells made by
/// `prettytable::Cell::new`, one from each text. The row is appended and the
/// rows before it stay. The crate measures a text when it makes the cell, and
/// its count of what follows an escape character can exceed the width it
/// found, at which it panics: a text with the escape character is left out.
#[verifier::external_body]
fn add_row(table: &mut prettytable::Table, texts: &Vec<String>)
    requires
        forall|j: int| 0 <= j < texts.len() ==> has_no_escape(#[trigger] texts[j]@),
    ensures
        table_cells(*final(table)) == table_cells(*old(table)).push(
            Seq::new(texts.len() as nat, |j: int| cell_content(texts[j]@)),
        ),
{
    let cells = texts.iter().map(|text| prettytable::Cell::new(text)).collect();
    table.add_row(prettytable::Row::new(cells));
}

/// Draws the table through its `Display` impl.
#[verifier::external_body]
fn draw(table: &prettytable::Table) -> (text: String)
    ensures
        text@ == drawn(*table),
{
    table.to_string()
}

/// The display texts of the cells of a row that could be read, in order. A
/// position that could not be read is left out.
pub open spec fn shown(row: Seq<Reading>) -> Seq<Seq<char>>
    decreases row.len(),
{
    if row.len() == 0 {
        Seq::empty()
    } else {
        match row.last() {
            Ok(cell) => shown(row.drop_last()).push(display_text(cell)),
            Err(_) => shown(row.drop_last()),
        }
    }
}

/// The rows of the table that shows `result`: the column names first, then
/// the display texts of each row of the result set, all as they are.
pub open spec fn laid_out(result: ResultSet) -> Seq<Seq<Seq<char>>> {
    Seq::new(
        (1 + result.rows.len()) as nat,
        |i: int|
            if i == 0 {
                result.columns.deep_view()
            } else {
                shown(result.rows[i - 1]@)
            },
    )
}

/// A table of display texts whose first row is the header.
#[derive(Debug)]
pub struct RenderedTable {
    rows: Vec<Vec<String>>,
    grid: prettytable::Table,
}

impl View for RenderedTable {
    type V = Seq<Seq<Seq<char>>>;

    closed spec fn view(&self) -> Seq<Seq<Seq<char>>> {
        self.rows.deep_view()
    }
}

impl RenderedTable {
    #[verifier::type_invariant]
    spec fn well_formed(self) -> bool {
        &&& self.rows.len() >= 1
        &&& table_cells(self.grid) == grid_of(self.rows.deep_view())
    }

    /// The cells of the grid that draws the table.
    pub closed spec fn drawn_cells(&self) -> Seq<Seq<Seq<char>>> {
        table_cells(self.grid)
    }

    /// The text that the table is drawn as.
    pub closed spec fn drawing(&self) -> Seq<char> {
        drawn(self.grid)
    }

    /// The number of rows, the header included.
    pub fn row_count(&self) -> (count: usize)
        ensures
            count == self@.len(),
            count >= 1,
    {
        proof {
            use_type_invariant(self);
        }
        self.rows.len()
    }

    /// The texts of row `index`, where row 0 is the header; `None` when the
    /// table has no such row.
    pub fn row(&self, index: usize) -> (texts: Option<Vec<String>>)
        ensures
            match texts {
                Some(row) => index < self@.len() && row.deep_view() == self@[index as int],
                None => index >= self@.len(),
            },
    {
        if index < self.rows.len() {
            Some(copy_texts(&self.rows[index]))
        } else {
            None
        }
    }

    /// The table drawn as text, ready to be printed: the drawing of a grid
    /// whose cells are made from the texts as they can be printed.
    pub fn text(&self) -> (text: String)
        ensures
            text@ == self.drawing(),
            self.drawn_cells() == grid_of(self@),
    {
        proof {
            use_type_invariant(self);
        }
        draw(&self.grid)
    }
}

/// A copy of `texts`.
pub fn copy_texts(texts: &Vec<String>) -> (copy: Vec<String>)
    ensures
        copy@ == texts@,
{
    let mut copy: Vec<String> = Vec::new();
    let mut j: usize = 0;
    while j < texts.len()
        invariant
            j <= texts.len(),
            copy@ == texts@.take(j as int),
        decreases texts.len() - j,
    {
        copy.push(texts[j].clone());
        j = j + 1;
    }
    assert(texts@.take(texts.len() as int) =~= texts@);
    copy
}

/// The display texts of the readable cells of one row.
pub fn shown_texts(row: &Vec<Reading>) -> (texts: Vec<String>)
    ensures
        texts.deep_view() == shown(row@),
        texts.len() <= row.len(),
{
    let mut texts: Vec<String> = Vec::new();
    let mut j: usize = 0;
    while j < row.len()
        invariant
            j <= row.len(),
            texts.len() <= j,
            texts.deep_view() == shown(row@.take(j as int)),
        decreases row.len() - j,
    {
        assert(row@.take(j + 1).drop_last() =~= row@.take(j as int));
        match &row[j] {
            Ok(cell) => {
                let text = normalize(cell);
                let ghost before = texts.deep_view();
                texts.push(text);
                assert(texts.deep_view() =~= before.push(text@));
            },
            Err(_) => {},
        }
        j = j + 1;
    }
    assert(row@.take(row.len() as int) =~= row@);
    texts
}

/// The texts of a row as they can be printed.
pub fn printable_texts(texts: &Vec<String>) -> (shown: Vec<String>)
    ensures
        shown.deep_view() == printable_row(texts.deep_view()),
        forall|j: int| 0 <= j < shown.len() ==> has_no_escape(#[trigger] shown[j]@),
{
    let mut shown: Vec<String> = Vec::new();
    let mut j: usize = 0;
    while j < texts.len()
        invariant
            j <= texts.len(),
            shown.len() == j,
            forall|k: int| 0 <= k < j ==> (#[trigger] shown[k])@ == printable(texts[k]@),
        decreases texts.len() - j,
    {
        shown.push(printable_text(texts[j].as_str()));
        j = j + 1;
    }
    assert(shown.deep_view() =~= printable_row(texts.deep_view()));
    assert forall|k: int| 0 <= k < shown.len() implies has_no_escape(#[trigger] shown[k]@) by {
        lemma_printable(texts[k]@);
    }
    shown
}

/// Adds to the grid the row of cells that draws `texts`.
fn add_texts(grid: &mut prettytable::Table, texts: &Vec<String>)
    ensures
        table_cells(*final(grid)) == table_cells(*old(grid)).push(
            stored_row(printable_row(texts.deep_view())),
        ),
{
    let shown = printable_texts(texts);
    add_row(grid, &shown);
    assert(table_cells(*grid).last() =~= stored_row(shown.deep_view()));
}

/// Builds the table that shows a result set: the column names as the header,
/// then the rows in order, each cell the display text of its cell, as it is.
/// The table has one row more than the result set, whatever the number of
/// its rows. The grid that draws it has a cell for each text, made from the
/// text as it can be printed.
pub fn render(result: &ResultSet) -> (table: RenderedTable)
    ensures
        table@ == laid_out(*result),
        table@.len() == 1 + result.rows.len(),
        table@[0] == result.columns.deep_view(),
        forall|i: int|
            0 <= i < result.rows.len() ==> table@[i + 1] == shown((#[trigger] result.rows[i])@),
        table.drawn_cells() == grid_of(table@),
{
    let mut rows: Vec<Vec<String>> = Vec::new();
    let mut grid = new_table();
    let header = copy_texts(&result.columns);
    add_texts(&mut grid, &header);
    rows.push(header);
    assert(rows.deep_view() =~~= laid_out(*result).take(1));
    assert(table_cells(grid) =~~= grid_of(rows.deep_view()));
    let mut i: usize = 0;
    while i < result.rows.len()
        invariant
            i <= result.rows.len(),
            rows.len() == i + 1,
            rows.deep_view() == laid_out(*result).take(i + 1),
            table_cells(grid) == grid_of(rows.deep_view()),
        decreases result.rows.len() - i,
    {
        let texts = shown_texts(&result.rows[i]);
        let ghost rows_before = rows.deep_view();
        let ghost cells_before = table_cells(grid);
        add_texts(&mut grid, &texts);
        rows.push(texts);
        assert(rows.deep_view() =~~= rows_before.push(texts.deep_view()));
        assert(rows.deep_view() =~~= laid_out(*result).take(i + 2));
        assert(table_cells(grid) =~~= grid_of(rows.deep_view()));
        i = i + 1;
    }
    assert(laid_out(*result).take(1 + result.rows.len()) =~= laid_out(*result));
    RenderedTable { rows, grid }
}

/// A row whose every position was read shows one text for each position.
pub proof fn lemma_shown_of_read_row(row: Seq<Reading>)
    requires
        forall|j: int| 0 <= j < row.len() ==> (#[trigger] row[j]) is Ok,
    ensures
        shown(row).len() == row.len(),
        forall|j: int| 0 <= j < row.len() ==> shown(row)[j] == display_text(row[j]->Ok_0),
    decreases row.len(),
{
    if row.len() > 0 {
        let rest = row.drop_last();
        assert forall|j: int| 0 <= j < rest.len() implies (#[trigger] rest[j]) is Ok by {
            assert(rest[j] == row[j]);
        }
        lemma_shown_of_read_row(rest);
        assert forall|j: int| 0 <= j < row.len() implies shown(row)[j] == display_text(
            row[j]->Ok_0,
        ) by {
            if j < rest.len() {
                assert(shown(rest)[j] == display_text(rest[j]->Ok_0));
            }
        }
    }
}

/// The table of a result set has a constant width, the number of columns,
/// when every row has one reading for each column and every reading
/// succeeded.
pub proof fn lemma_complete_result_has_constant_width(result: ResultSet)
    requires
        result.is_rectangular(),
        result.is_complete(),
    ensures
        forall|i: int|
            0 <= i < laid_out(result).len() ==> (#[trigger] laid_out(result)[i]).len()
                == result.columns.len(),
{
    assert forall|i: int| 0 <= i < laid_out(result).len() implies (#[trigger] laid_out(
        result,
    )[i]).len() == result.columns.len() by {
        if i > 0 {
            let row = result.rows[i - 1];
            assert(row.len() == result.columns.len());
            assert forall|j: int| 0 <= j < row@.len() implies (#[trigger] row@[j]) is Ok by {
                assert(result.rows[i - 1][j] is Ok);
            }
            lemma_shown_of_read_row(row@);
        }
    }
}

/// No row of a table is wider than the result set: a reading that failed
/// only leaves its cell out.
pub proof fn lemma_shown_is_no_longer(row: Seq<Reading>)
    ensures
        shown(row).len() <= row.len(),
    decreases row.len(),
{
    if row.len() > 0 {
        lemma_shown_is_no_longer(row.drop_last());
    }
}

/// The table of a result set that was read in full holds exactly its column
/// names and display texts, in order: the header is the column names, and
/// row `i + 1` has one cell for each column, the display text of the cell of
/// row `i` there.
pub proof fn lemma_table_of_read_result(result: ResultSet)
    requires
        result.is_rectangular(),
        result.is_complete(),
    ensures
        laid_out(result).len() == 1 + result.rows.len(),
        laid_out(result)[0] == result.columns.deep_view(),
        forall|i: int|
            0 <= i < result.rows.len() ==> laid_out(result)[i + 1].len() == (
            #[trigger] result.rows[i]).len() && laid_out(result)[i + 1].len()
                == result.columns.len(),
        forall|i: int, j: int|
            0 <= i < result.rows.len() && 0 <= j < result.columns.len() ==> laid_out(result)[i
                + 1][j] == display_text((#[trigger] result.rows[i][j])->Ok_0),
{
    assert forall|i: int| 0 <= i < result.rows.len() implies {
        &&& laid_out(result)[i + 1].len() == (#[trigger] result.rows[i]).len()
        &&& laid_out(result)[i + 1].len() == result.columns.len()
        &&& forall|j: int|
            0 <= j < result.columns.len() ==> laid_out(result)[i + 1][j] == display_text(
                (#[trigger] result.rows[i][j])->Ok_0,
            )
    } by {
        let row = result.rows[i]@;
        assert forall|j: int| 0 <= j < row.len() implies (#[trigger] row[j]) is Ok by {
            assert(result.rows[i][j] is Ok);
        }
        lemma_shown_of_read_row(row);
    }
}

} // verus!

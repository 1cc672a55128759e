use sheet_query::cell::Cell;
use sheet_query::store::{Reading, ResultSet};
use sheet_query::table::{copy_texts, printable_texts, render, shown_texts};

fn names(columns: &[&str]) -> Vec<String> {
    columns.iter().map(|c| c.to_string()).collect()
}

fn texts_of(row: Option<Vec<String>>) -> Vec<String> {
    row.expect("the table has this row")
}

#[test]
fn header_alone_is_a_table() {
    let result = ResultSet { columns: names(&["service_name", "count"]), rows: Vec::new() };
    let table = render(&result);
    assert_eq!(table.row_count(), 1);
    assert_eq!(texts_of(table.row(0)), names(&["service_name", "count"]));
    assert!(table.row(1).is_none());
    assert_eq!(
        table.text(),
        "+--------------+-------+\n| service_name | count |\n+--------------+-------+\n"
    );
}

#[test]
fn table_has_one_row_more_than_the_result_set() {
    for n in [0usize, 1, 2, 7, 100] {
        let mut rows: Vec<Vec<Reading>> = Vec::new();
        for i in 0..n {
            rows.push(vec![Ok(Cell::Integer(i as i64)), Ok(Cell::Null)]);
        }
        let table = render(&ResultSet { columns: names(&["a", "b"]), rows });
        assert_eq!(table.row_count(), 1 + n);
        assert!(table.row(n).is_some());
        assert!(table.row(n + 1).is_none());
    }
}

#[test]
fn rows_hold_the_display_texts_in_order() {
    let result = ResultSet {
        columns: names(&["name", "n", "x", "nothing", "bytes"]),
        rows: vec![
            vec![
                Ok(Cell::Text("alpha".to_string())),
                Ok(Cell::Integer(1234)),
                Ok(Cell::Real("1234.5".to_string())),
                Ok(Cell::Null),
                Ok(Cell::Binary(vec![0])),
            ],
            vec![
                Ok(Cell::Text("beta".to_string())),
                Ok(Cell::Integer(-7)),
                Ok(Cell::Real("0.25".to_string())),
                Ok(Cell::Null),
                Ok(Cell::Binary(Vec::new())),
            ],
        ],
    };
    let table = render(&result);
    assert_eq!(table.row_count(), 3);
    assert_eq!(texts_of(table.row(0)), names(&["name", "n", "x", "nothing", "bytes"]));
    assert_eq!(texts_of(table.row(1)), names(&["alpha", "1,234", "1,234.5", "NULL", "BLOB"]));
    assert_eq!(texts_of(table.row(2)), names(&["beta", "-7", "0.25", "NULL", "BLOB"]));
}

#[test]
fn drawing_is_a_grid() {
    let result = ResultSet {
        columns: names(&["a", "b"]),
        rows: vec![vec![Ok(Cell::Integer(1)), Ok(Cell::Text("x".to_string()))]],
    };
    let table = render(&result);
    assert_eq!(table.text(), "+---+---+\n| a | b |\n+---+---+\n| 1 | x |\n+---+---+\n");
}

#[test]
fn reading_that_failed_leaves_its_cell_out() {
    let row: Vec<Reading> = vec![
        Ok(Cell::Integer(1)),
        Err(rusqlite::Error::InvalidColumnIndex(1)),
        Ok(Cell::Text("c".to_string())),
    ];
    assert_eq!(shown_texts(&row), names(&["1", "c"]));
    let table = render(&ResultSet { columns: names(&["a", "b", "c"]), rows: vec![row] });
    assert_eq!(table.row_count(), 2);
    assert_eq!(texts_of(table.row(1)), names(&["1", "c"]));
    let none: Vec<Reading> =
        vec![Err(rusqlite::Error::InvalidColumnIndex(0)), Err(rusqlite::Error::InvalidQuery)];
    assert_eq!(shown_texts(&none), Vec::<String>::new());
}

#[test]
fn table_without_columns_has_an_empty_header() {
    let table = render(&ResultSet { columns: Vec::new(), rows: Vec::new() });
    assert_eq!(table.row_count(), 1);
    assert_eq!(texts_of(table.row(0)), Vec::<String>::new());
}

#[test]
fn text_with_line_ends_is_kept_as_it_is() {
    let result = ResultSet {
        columns: names(&["t\r\n"]),
        rows: vec![
            vec![Ok(Cell::Text("one\ntwo".to_string()))],
            vec![Ok(Cell::Text("one\r\ntwo\n".to_string()))],
            vec![Ok(Cell::Text("\n".to_string()))],
        ],
    };
    let table = render(&result);
    assert_eq!(texts_of(table.row(0)), names(&["t\r\n"]));
    assert_eq!(texts_of(table.row(1)), names(&["one\ntwo"]));
    assert_eq!(texts_of(table.row(2)), names(&["one\r\ntwo\n"]));
    assert_eq!(texts_of(table.row(3)), names(&["\n"]));
}

#[test]
fn text_with_the_escape_character_is_kept_and_drawn_with_its_symbol() {
    let ligatures = "\u{1b}[\u{644}\u{627}\u{644}\u{627}";
    let family = "\u{1b}[\u{1f468}\u{200d}\u{1f469}\u{200d}\u{1f467}\u{200d}\u{1f466}";
    let result = ResultSet {
        columns: names(&["a\u{1b}b"]),
        rows: vec![
            vec![Ok(Cell::Text(ligatures.to_string()))],
            vec![Ok(Cell::Text(family.to_string()))],
            vec![Ok(Cell::Real("1\u{1b}234".to_string()))],
        ],
    };
    let table = render(&result);
    assert_eq!(table.row_count(), 4);
    assert_eq!(texts_of(table.row(0)), names(&["a\u{1b}b"]));
    assert_eq!(texts_of(table.row(1)), names(&[ligatures]));
    assert_eq!(texts_of(table.row(2)), names(&[family]));
    assert_eq!(texts_of(table.row(3)), names(&["1\u{1b}234"]));
    let text = table.text();
    assert!(!text.contains('\u{1b}'));
    assert!(text.contains("a\u{241b}b"));
    assert!(text.contains("1\u{241b}234"));
}

#[test]
fn printable_rows_keep_every_other_character() {
    let texts = names(&["plain", "", "a\u{1b}b\u{1b}", "\u{241b}", "tab\tnew\nline"]);
    assert_eq!(
        printable_texts(&texts),
        names(&["plain", "", "a\u{241b}b\u{241b}", "\u{241b}", "tab\tnew\nline"])
    );
}

#[test]
fn copy_of_a_row_is_the_row() {
    let texts = names(&["a", "", "1,234", "\u{1b}"]);
    assert_eq!(copy_texts(&texts), texts);
    assert_eq!(copy_texts(&Vec::new()), Vec::<String>::new());
}

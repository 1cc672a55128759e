use sheet_query::text::{chars_of, is_space_char, printable_text, strip_commas};

#[test]
fn commas_are_removed_and_nothing_else() {
    assert_eq!(strip_commas("1,234"), "1234");
    assert_eq!(strip_commas(",,a, b;c,"), "a b;c");
    assert_eq!(strip_commas(""), "");
    assert_eq!(strip_commas("1.234"), "1.234");
    assert_eq!(strip_commas("，"), "，");
}

#[test]
fn chars_are_given_in_order() {
    assert_eq!(chars_of("aé웃z"), vec!['a', 'é', '웃', 'z']);
    assert_eq!(chars_of(""), Vec::<char>::new());
}

#[test]
fn white_space_is_what_std_calls_white_space() {
    let mut code: u32 = 0;
    while code <= 0x10FFFF {
        if let Some(c) = char::from_u32(code) {
            assert_eq!(is_space_char(c), c.is_whitespace(), "U+{:04X}", code);
        }
        code += 1;
    }
}

#[test]
fn escape_is_replaced_and_nothing_else() {
    assert_eq!(printable_text("\u{1b}[0m"), "\u{241b}[0m");
    assert_eq!(printable_text("no escape, 1,234\r\n"), "no escape, 1,234\r\n");
    assert_eq!(printable_text(""), "");
    assert_eq!(printable_text("\u{1b}\u{1b}"), "\u{241b}\u{241b}");
}

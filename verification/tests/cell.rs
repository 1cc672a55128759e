use sheet_query::cell::{decimal, normalize, Cell};

#[test]
fn every_tag_has_a_display_text() {
    assert_eq!(normalize(&Cell::Null), "NULL");
    assert_eq!(normalize(&Cell::Integer(42)), "42");
    assert_eq!(normalize(&Cell::Real("2.5".to_string())), "2.5");
    assert_eq!(normalize(&Cell::Text("hello".to_string())), "hello");
    assert_eq!(normalize(&Cell::Binary(vec![1, 2, 3])), "BLOB");
    assert_eq!(normalize(&Cell::Binary(Vec::new())), "BLOB");
}

#[test]
fn integer_is_grouped_by_threes_from_the_right() {
    assert_eq!(normalize(&Cell::Integer(0)), "0");
    assert_eq!(normalize(&Cell::Integer(999)), "999");
    assert_eq!(normalize(&Cell::Integer(1000)), "1,000");
    assert_eq!(normalize(&Cell::Integer(1234)), "1,234");
    assert_eq!(normalize(&Cell::Integer(123456)), "123,456");
    assert_eq!(normalize(&Cell::Integer(1234567)), "1,234,567");
    assert_eq!(normalize(&Cell::Integer(-1234567)), "-1,234,567");
    assert_eq!(normalize(&Cell::Integer(-100)), "-100");
    assert_eq!(normalize(&Cell::Integer(i64::MAX)), "9,223,372,036,854,775,807");
    assert_eq!(normalize(&Cell::Integer(i64::MIN)), "-9,223,372,036,854,775,808");
}

#[test]
fn real_has_its_integer_part_grouped() {
    let real = |x: f64| normalize(&Cell::Real(x.to_string()));
    assert_eq!(real(1234.5), "1,234.5");
    assert_eq!(real(-1234567.25), "-1,234,567.25");
    assert_eq!(real(0.123456), "0.123456");
    assert_eq!(real(12.0), "12");
    assert_eq!(real(1e21), "1,000,000,000,000,000,000,000");
    assert_eq!(real(f64::NAN), "NaN");
    assert_eq!(real(f64::INFINITY), "inf");
    assert_eq!(real(0.5), "0.5");
    assert_eq!(real(9876.54321), "9,876.54321");
}

#[test]
fn text_is_shown_verbatim() {
    for text in ["", "1234567", "a,b", " padded ", "line\nbreak", "NULL", "tab\there"] {
        assert_eq!(normalize(&Cell::Text(text.to_string())), text);
    }
}

#[test]
fn decimal_matches_std() {
    for i in [0, 1, -1, 9, 10, 11, 99, 100, -100, 1234567890, i64::MAX, i64::MIN, i64::MIN + 1] {
        assert_eq!(decimal(i), i.to_string());
    }
    assert_eq!(decimal(-9223372036854775808), "-9223372036854775808");
    assert_eq!(decimal(705), "705");
}

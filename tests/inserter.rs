use csv_inserter::inserter::{join_columns, ClickHouseInserter};

fn inserter(fields: Option<Vec<String>>, has_header: bool) -> ClickHouseInserter {
    ClickHouseInserter::new(
        "http://localhost:8123",
        "db",
        "default",
        "",
        "events".to_string(),
        fields,
        has_header,
        false,
    )
}

#[test]
fn chosen_fields_with_header() {
    let i = inserter(Some(vec!["a".to_string(), "b".to_string()]), true);
    assert_eq!(i.insert_query(), "INSERT INTO events (a, b) FORMAT CSVWithNames");
}

#[test]
fn all_fields_without_header() {
    let i = inserter(None, false);
    assert_eq!(i.insert_query(), "INSERT INTO events FORMAT CSV");
}

#[test]
fn all_fields_with_header() {
    let i = inserter(None, true);
    assert_eq!(i.insert_query(), "INSERT INTO events FORMAT CSVWithNames");
}

#[test]
fn async_insert_session_builds() {
    let i = ClickHouseInserter::new(
        "http://localhost:8123",
        "db",
        "u",
        "p",
        "t".to_string(),
        Some(vec!["x".to_string()]),
        false,
        true,
    );
    assert_eq!(i.insert_query(), "INSERT INTO t (x) FORMAT CSV");
}

#[test]
fn columns_are_joined_with_comma_and_space() {
    assert_eq!(join_columns(&vec![]), "");
    assert_eq!(join_columns(&vec!["a".to_string()]), "a");
    assert_eq!(join_columns(&vec!["a".to_string(), "b".to_string(), "c".to_string()]), "a, b, c");
}

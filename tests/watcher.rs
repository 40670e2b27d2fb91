use csv_inserter::watcher::{csv_events, is_csv_file, ChangeKind};

fn strings(v: &[&str]) -> Vec<String> {
    v.iter().map(|s| s.to_string()).collect()
}

#[test]
fn csv_extension_in_any_case_is_accepted() {
    assert!(is_csv_file("/watch/a.csv"));
    assert!(is_csv_file("/watch/a.CSV"));
    assert!(is_csv_file("/watch/a.CsV"));
    assert!(is_csv_file("a.csv"));
    assert!(is_csv_file("/watch/data.2024.csv"));
}

#[test]
fn other_extensions_are_refused() {
    assert!(!is_csv_file("/watch/a.txt"));
    assert!(!is_csv_file("/watch/a.csv.tmp"));
    assert!(!is_csv_file("/watch/a.csvx"));
    assert!(!is_csv_file("/watch/acsv"));
    assert!(!is_csv_file("/watch/a"));
    assert!(!is_csv_file(""));
}

#[test]
fn hidden_file_named_csv_has_no_extension() {
    assert!(!is_csv_file("/watch/.csv"));
    assert!(!is_csv_file(".csv"));
    assert!(is_csv_file("/watch/.a.csv"));
}

#[test]
fn dot_in_directory_is_not_an_extension() {
    assert!(!is_csv_file("/data.csv/readme"));
}

#[test]
fn trailing_slash_and_dot_parts_are_passed_over() {
    assert!(is_csv_file("/w/a.csv/"));
    assert!(is_csv_file("/w/a.csv//"));
    assert!(is_csv_file("/w/a.csv/."));
    assert!(is_csv_file("/w/a.CSV/./"));
    assert!(!is_csv_file("/w/a.csv/.."));
    assert!(!is_csv_file("/"));
    assert!(!is_csv_file("."));
}

#[test]
fn closed_write_hands_on_each_csv_path_in_order() {
    let paths = strings(&["/w/b.csv", "/w/x.txt", "/w/A.CSV", "/w/c.Csv"]);
    let events = csv_events(ChangeKind::WriteClosed, &paths);
    assert_eq!(events, strings(&["/w/b.csv", "/w/A.CSV", "/w/c.Csv"]));
}

#[test]
fn single_csv_file_gives_exactly_one_event() {
    let events = csv_events(ChangeKind::WriteClosed, &strings(&["/w/a.csv"]));
    assert_eq!(events, strings(&["/w/a.csv"]));
}

#[test]
fn non_csv_file_gives_no_event() {
    let events = csv_events(ChangeKind::WriteClosed, &strings(&["/w/a.json"]));
    assert!(events.is_empty());
}

#[test]
fn other_changes_give_no_event() {
    let events = csv_events(ChangeKind::Other, &strings(&["/w/a.csv", "/w/b.csv"]));
    assert!(events.is_empty());
}

#[test]
fn empty_notification_gives_no_event() {
    assert!(csv_events(ChangeKind::WriteClosed, &Vec::new()).is_empty());
}

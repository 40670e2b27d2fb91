use csv_inserter::cli::{missing_watch_dir_message, Args, FileAction, PathFacts};

fn args() -> Args {
    Args {
        watch_dir: "in".to_string(),
        clickhouse_url: "http://localhost:8123".to_string(),
        database: "db".to_string(),
        table: "t".to_string(),
        user: "default".to_string(),
        password: String::new(),
        on_success: FileAction::Remove,
        success_dir: None,
        on_error: FileAction::Remove,
        error_dir: None,
        fields: None,
        no_header: false,
        async_insert: false,
    }
}

fn facts() -> PathFacts {
    PathFacts {
        watch_dir_exists: true,
        watch_dir: Ok("/abs/in".to_string()),
        success_dir: Ok("/abs/done".to_string()),
        error_dir: Ok("/abs/failed".to_string()),
    }
}

#[test]
fn move_on_success_without_directory_is_refused() {
    let mut a = args();
    a.on_success = FileAction::Move;
    let r = a.validate(&facts());
    assert_eq!(r, Err("--success-dir is required when --on-success=move".to_string()));
    assert_eq!(a.watch_dir, "in");
}

#[test]
fn move_on_error_without_directory_is_refused() {
    let mut a = args();
    a.on_error = FileAction::Move;
    let r = a.validate(&facts());
    assert_eq!(r, Err("--error-dir is required when --on-error=move".to_string()));
}

#[test]
fn success_directory_is_checked_before_error_directory() {
    let mut a = args();
    a.on_success = FileAction::Move;
    a.on_error = FileAction::Move;
    let r = a.validate(&facts());
    assert_eq!(r, Err("--success-dir is required when --on-success=move".to_string()));
}

#[test]
fn missing_watch_directory_is_refused() {
    let mut a = args();
    let mut f = facts();
    f.watch_dir_exists = false;
    assert_eq!(a.validate(&f), Err("Watch directory does not exist: \"in\"".to_string()));
}

#[test]
fn missing_watch_directory_is_shown_escaped() {
    let mut a = args();
    a.watch_dir = "in\"x\\y\n".to_string();
    let mut f = facts();
    f.watch_dir_exists = false;
    assert_eq!(
        a.validate(&f),
        Err("Watch directory does not exist: \"in\\\"x\\\\y\\n\"".to_string())
    );
}

#[test]
fn missing_watch_directory_message_takes_quoted_form() {
    assert_eq!(missing_watch_dir_message("\"/w\""), "Watch directory does not exist: \"/w\"");
}

#[test]
fn unresolvable_watch_directory_is_refused() {
    let mut a = args();
    let mut f = facts();
    f.watch_dir = Err("denied".to_string());
    assert_eq!(a.validate(&f), Err("Failed to resolve watch_dir: denied".to_string()));
    assert_eq!(a.watch_dir, "in");
}

#[test]
fn unresolvable_success_directory_keeps_resolved_watch_directory() {
    let mut a = args();
    a.success_dir = Some("done".to_string());
    let mut f = facts();
    f.success_dir = Err("gone".to_string());
    assert_eq!(a.validate(&f), Err("Failed to resolve success_dir: gone".to_string()));
    assert_eq!(a.watch_dir, "/abs/in");
    assert_eq!(a.success_dir, Some("done".to_string()));
}

#[test]
fn unresolvable_error_directory_is_refused() {
    let mut a = args();
    a.error_dir = Some("failed".to_string());
    let mut f = facts();
    f.error_dir = Err("gone".to_string());
    assert_eq!(a.validate(&f), Err("Failed to resolve error_dir: gone".to_string()));
}

#[test]
fn valid_configuration_resolves_all_directories() {
    let mut a = args();
    a.on_success = FileAction::Move;
    a.success_dir = Some("done".to_string());
    a.error_dir = Some("failed".to_string());
    assert_eq!(a.validate(&facts()), Ok(()));
    assert_eq!(a.watch_dir, "/abs/in");
    assert_eq!(a.success_dir, Some("/abs/done".to_string()));
    assert_eq!(a.error_dir, Some("/abs/failed".to_string()));
    assert_eq!(a.table, "t");
}

#[test]
fn unset_directories_are_not_resolved() {
    let mut a = args();
    let mut f = facts();
    f.success_dir = Err("unused".to_string());
    f.error_dir = Err("unused".to_string());
    assert_eq!(a.validate(&f), Ok(()));
    assert_eq!(a.success_dir, None);
    assert_eq!(a.error_dir, None);
}

#[test]
fn fields_are_split_and_trimmed() {
    let mut a = args();
    a.fields = Some(" a , b,c\t".to_string());
    assert_eq!(a.selected_fields(), Some(vec!["a".to_string(), "b".to_string(), "c".to_string()]));
}

#[test]
fn no_fields_means_all_fields() {
    assert_eq!(args().selected_fields(), None);
}

#[test]
fn empty_pieces_are_kept() {
    let mut a = args();
    a.fields = Some("a,,b,".to_string());
    assert_eq!(
        a.selected_fields(),
        Some(vec!["a".to_string(), String::new(), "b".to_string(), String::new()])
    );
    a.fields = Some(String::new());
    assert_eq!(a.selected_fields(), Some(vec![String::new()]));
}

#[test]
fn unicode_white_space_is_trimmed() {
    let mut a = args();
    a.fields = Some("\u{A0}x\u{3000}, y z ".to_string());
    assert_eq!(a.selected_fields(), Some(vec!["x".to_string(), "y z".to_string()]));
}

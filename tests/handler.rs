use csv_inserter::cli::FileAction;
use csv_inserter::handler::{DirState, Disposal, FileHandler, HandlerError};

fn handler(success: FileAction, sdir: Option<&str>, error: FileAction, edir: Option<&str>) -> FileHandler {
    FileHandler::new(
        success,
        sdir.map(|s| s.to_string()),
        DirState::Writable,
        error,
        edir.map(|s| s.to_string()),
        DirState::Writable,
    )
    .unwrap()
}

#[test]
fn success_move_goes_into_success_directory() {
    let h = handler(FileAction::Move, Some("/done"), FileAction::Remove, None);
    match h.handle_success("/watch/a.csv") {
        Ok(Disposal::Move { from, to }) => {
            assert_eq!(from, "/watch/a.csv");
            assert_eq!(to, "/done/a.csv");
        }
        other => panic!("unexpected {:?}", other),
    }
}

#[test]
fn directory_with_trailing_slash_gets_no_second_one() {
    let h = handler(FileAction::Move, Some("/done/"), FileAction::Move, Some("/failed"));
    match h.handle_success("/watch/a.csv") {
        Ok(Disposal::Move { to, .. }) => assert_eq!(to, "/done/a.csv"),
        other => panic!("unexpected {:?}", other),
    }
    match h.handle_error("/watch/b.csv") {
        Ok(Disposal::Move { to, .. }) => assert_eq!(to, "/failed/b.csv"),
        other => panic!("unexpected {:?}", other),
    }
}

#[test]
fn error_remove_removes_the_file() {
    let h = handler(FileAction::Move, Some("/done"), FileAction::Remove, None);
    match h.handle_error("/watch/b.csv") {
        Ok(Disposal::Remove(p)) => assert_eq!(p, "/watch/b.csv"),
        other => panic!("unexpected {:?}", other),
    }
}

#[test]
fn moving_a_path_without_file_name_is_refused() {
    let h = handler(FileAction::Move, Some("/done"), FileAction::Remove, None);
    assert!(matches!(h.handle_success("/"), Err(HandlerError::NoFileName(p)) if p == "/"));
    assert!(matches!(h.handle_success("/watch/.."), Err(HandlerError::NoFileName(_))));
}

#[test]
fn trailing_slash_keeps_the_file_name() {
    let h = handler(FileAction::Move, Some("/done"), FileAction::Remove, None);
    match h.handle_success("/watch/a.csv/") {
        Ok(Disposal::Move { from, to }) => {
            assert_eq!(from, "/watch/a.csv/");
            assert_eq!(to, "/done/a.csv");
        }
        other => panic!("unexpected {:?}", other),
    }
}

#[test]
fn missing_destination_is_refused() {
    let r = FileHandler::new(
        FileAction::Move,
        Some("/nope".to_string()),
        DirState::Missing,
        FileAction::Remove,
        None,
        DirState::Missing,
    );
    assert!(matches!(r, Err(HandlerError::DirNotFound(p)) if p == "/nope"));
}

#[test]
fn file_as_destination_is_refused() {
    let r = FileHandler::new(
        FileAction::Remove,
        None,
        DirState::Missing,
        FileAction::Move,
        Some("/f".to_string()),
        DirState::NotDir,
    );
    assert!(matches!(r, Err(HandlerError::DirNotFound(p)) if p == "/f"));
}

#[test]
fn read_only_destination_is_refused() {
    let r = FileHandler::new(
        FileAction::Move,
        Some("/ro".to_string()),
        DirState::ReadOnly,
        FileAction::Remove,
        None,
        DirState::Missing,
    );
    assert!(matches!(r, Err(HandlerError::DirNotWritable(p)) if p == "/ro"));
}

#[test]
fn unreadable_destination_gives_io_error() {
    let r = FileHandler::new(
        FileAction::Move,
        Some("/x".to_string()),
        DirState::Unreadable("denied".to_string()),
        FileAction::Remove,
        None,
        DirState::Missing,
    );
    assert!(matches!(r, Err(HandlerError::Io(m)) if m == "denied"));
}

#[test]
fn move_without_directory_is_refused_at_construction() {
    let r = FileHandler::new(
        FileAction::Move,
        None,
        DirState::Writable,
        FileAction::Remove,
        None,
        DirState::Writable,
    );
    assert!(matches!(r, Err(HandlerError::DirNotGiven)));
}

#[test]
fn remove_rules_ignore_directory_state() {
    let r = FileHandler::new(
        FileAction::Remove,
        Some("/nope".to_string()),
        DirState::Missing,
        FileAction::Remove,
        None,
        DirState::ReadOnly,
    );
    assert!(r.is_ok());
}

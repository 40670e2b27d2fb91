use vstd::prelude::*;

use crate::cli::FileAction;
use crate::paths::{file_name, file_name_of, join, join_path};

verus! {

/// Why a directory was refused, or a file could not be disposed of.
#[derive(Debug)]
pub enum HandlerError {
    /// An I/O operation failed; the text is the system's message.
    Io(String),
    /// The directory does not exist, or is not a directory.
    DirNotFound(String),
    /// The directory is read-only.
    DirNotWritable(String),
    /// `Move` was chosen without a directory to move to.
    DirNotGiven,
    /// The path names no file that could be moved.
    NoFileName(String),
}

/// What the file system says of a directory.
#[derive(Debug)]
pub enum DirState {
    /// Nothing exists at the path.
    Missing,
    /// Something that is not a directory exists at the path.
    NotDir,
    /// A directory whose metadata could not be read; the text is the system's message.
    Unreadable(String),
    /// A read-only directory.
    ReadOnly,
    /// A writable directory.
    Writable,
}

/// The disposal rule for one class of outcome, as a value.
pub enum Policy {
    Remove,
    MoveTo(Seq<char>),
}

/// A disposal to perform on the file system.
#[derive(Debug)]
pub enum Disposal {
    /// Delete the file at this path.
    Remove(String),
    /// Rename the file at `from` to `to`.
    Move { from: String, to: String },
}

pub enum DisposalView {
    Remove(Seq<char>),
    Move(Seq<char>, Seq<char>),
}

impl View for Disposal {
    type V = DisposalView;

    open spec fn view(&self) -> DisposalView {
        match self {
            Disposal::Remove(p) => DisposalView::Remove(p@),
            Disposal::Move { from, to } => DisposalView::Move(from@, to@),
        }
    }
}

/// The disposal that `policy` asks for on `path`; none where it would move
/// a path that names no file.
pub open spec fn disposal_for(policy: Policy, path: Seq<char>) -> Option<DisposalView> {
    match policy {
        Policy::Remove => Some(DisposalView::Remove(path)),
        Policy::MoveTo(d) => match file_name(path) {
            Some(n) => Some(DisposalView::Move(path, join(d, n))),
            None => None,
        },
    }
}


/// The error that checking directory `dir` in `state` gives, if any.
pub open spec fn dir_error_matches(dir: Seq<char>, state: DirState, e: HandlerError) -> bool {
    match state {
        DirState::Missing | DirState::NotDir => e matches HandlerError::DirNotFound(p) && p@ == dir,
        DirState::Unreadable(m) => e matches HandlerError::Io(x) && x@ == m@,
        DirState::ReadOnly => e matches HandlerError::DirNotWritable(p) && p@ == dir,
        DirState::Writable => false,
    }
}

/// Checks that `dir`, found in `state`, can receive moved files.
pub fn validate_directory(dir: &str, state: &DirState) -> (r: Result<(), HandlerError>)
    ensures
        r is Ok <==> state is Writable,
        r matches Err(e) ==> dir_error_matches(dir@, *state, e),
{
    match state {
        DirState::Missing | DirState::NotDir => Err(HandlerError::DirNotFound(String::from_str(dir))),
        DirState::Unreadable(m) => Err(HandlerError::Io(m.clone())),
        DirState::ReadOnly => Err(HandlerError::DirNotWritable(String::from_str(dir))),
        DirState::Writable => Ok(()),
    }
}

/// The rule that `action` with `dir` gives, where `Move` has its directory.
pub open spec fn policy_of(action: FileAction, dir: Option<String>) -> Policy {
    match action {
        FileAction::Remove => Policy::Remove,
        FileAction::Move => Policy::MoveTo(dir->Some_0@),
    }
}

/// The checks that construction makes on one action and its directory pass.
pub open spec fn destination_ok(action: FileAction, dir: Option<String>, state: DirState) -> bool {
    action == FileAction::Move ==> (dir is Some && state is Writable)
}

/// The error of a failed destination check on one action and its directory.
pub open spec fn destination_error(action: FileAction, dir: Option<String>, state: DirState, e: HandlerError) -> bool {
    match dir {
        None => e is DirNotGiven,
        Some(d) => dir_error_matches(d@, state, e),
    }
}

/// Removes files, or moves them into a directory, after processing: one rule
/// for files that loaded and one for files that failed.
pub struct FileHandler {
    success_action: FileAction,
    success_dir: Option<String>,
    error_action: FileAction,
    error_dir: Option<String>,
}

impl FileHandler {
    /// Each `Move` rule has its directory.
    pub closed spec fn wf(&self) -> bool {
        &&& (self.success_action == FileAction::Move ==> self.success_dir is Some)
        &&& (self.error_action == FileAction::Move ==> self.error_dir is Some)
    }

    /// The rule for files that loaded.
    pub closed spec fn success_policy(&self) -> Policy {
        policy_of(self.success_action, self.success_dir)
    }

    /// The rule for files that failed.
    pub closed spec fn error_policy(&self) -> Policy {
        policy_of(self.error_action, self.error_dir)
    }

    fn check_destination(action: FileAction, dir: &Option<String>, state: &DirState) -> (r: Result<(), HandlerError>)
        ensures
            r is Ok <==> destination_ok(action, *dir, *state),
            r matches Err(e) ==> destination_error(action, *dir, *state, e),
    {
        if action == FileAction::Move {
            match dir {
                Some(d) => validate_directory(d.as_str(), state),
                None => Err(HandlerError::DirNotGiven),
            }
        } else {
            Ok(())
        }
    }

    /// Builds the handler, checking once that each `Move` rule has a
    /// directory and that the file system found it a writable directory
    /// (`success_state`, `error_state`); the success rule is checked first.
    pub fn new(
        success_action: FileAction,
        success_dir: Option<String>,
        success_state: DirState,
        error_action: FileAction,
        error_dir: Option<String>,
        error_state: DirState,
    ) -> (r: Result<Self, HandlerError>)
        ensures
            r is Ok <==> destination_ok(success_action, success_dir, success_state)
                && destination_ok(error_action, error_dir, error_state),
            r matches Ok(h) ==> h.wf() && h.success_policy() == policy_of(success_action, success_dir)
                && h.error_policy() == policy_of(error_action, error_dir),
            r matches Err(e) ==> if !destination_ok(success_action, success_dir, success_state) {
                destination_error(success_action, success_dir, success_state, e)
            } else {
                destination_error(error_action, error_dir, error_state, e)
            },
    {
        Self::check_destination(success_action, &success_dir, &success_state)?;
        Self::check_destination(error_action, &error_dir, &error_state)?;
        Ok(FileHandler { success_action, success_dir, error_action, error_dir })
    }

    fn dispose(action: FileAction, dir: &Option<String>, path: &str) -> (r: Result<Disposal, HandlerError>)
        requires
            action == FileAction::Move ==> dir is Some,
        ensures
            match disposal_for(policy_of(action, *dir), path@) {
                Some(d) => r matches Ok(x) && x@ == d,
                None => r matches Err(HandlerError::NoFileName(p)) && p@ == path@,
            },
    {
        match action {
            FileAction::Remove => Ok(Disposal::Remove(String::from_str(path))),
            FileAction::Move => {
                let d = match dir {
                    Some(d) => d,
                    None => {
                        return Err(HandlerError::NoFileName(String::from_str(path)));
                    },
                };
                let name = match file_name_of(path) {
                    Some(n) => n,
                    None => {
                        return Err(HandlerError::NoFileName(String::from_str(path)));
                    },
                };
                let to = join_path(d.as_str(), name.as_str());
                Ok(Disposal::Move { from: String::from_str(path), to })
            },
        }
    }

    /// The disposal of a file that loaded: its removal, or its move into the
    /// success directory under its own file name.
    pub fn handle_success(&self, path: &str) -> (r: Result<Disposal, HandlerError>)
        requires
            self.wf(),
        ensures
            match disposal_for(self.success_policy(), path@) {
                Some(d) => r matches Ok(x) && x@ == d,
                None => r matches Err(HandlerError::NoFileName(p)) && p@ == path@,
            },
    {
        Self::dispose(self.success_action, &self.success_dir, path)
    }

    /// The disposal of a file that failed: its removal, or its move into the
    /// error directory under its own file name.
    pub fn handle_error(&self, path: &str) -> (r: Result<Disposal, HandlerError>)
        requires
            self.wf(),
        ensures
            match disposal_for(self.error_policy(), path@) {
                Some(d) => r matches Ok(x) && x@ == d,
                None => r matches Err(HandlerError::NoFileName(p)) && p@ == path@,
            },
    {
        Self::dispose(self.error_action, &self.error_dir, path)
    }
}

} // verus!

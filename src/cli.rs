use vstd::prelude::*;

use crate::text::{split_commas, split_trimmed, trim};

verus! {

/// What to do with a file once it has been processed.
#[derive(Clone, Copy, Debug, PartialEq, Eq, Structural, Default)]
pub enum FileAction {
    /// Delete the file.
    #[default]
    Remove,
    /// Move the file into a configured directory.
    Move,
}

/// The startup configuration. Paths are held as text.
#[derive(Debug)]
pub struct Args {
    /// Directory to watch for new files.
    pub watch_dir: String,
    /// URL of the target store.
    pub clickhouse_url: String,
    /// Target database name.
    pub database: String,
    /// Target table name.
    pub table: String,
    /// User name for the target store.
    pub user: String,
    /// Password for the target store.
    pub password: String,
    /// Action after successful processing.
    pub on_success: FileAction,
    /// Directory that processed files move to (needed when `on_success` is `Move`).
    pub success_dir: Option<String>,
    /// Action on a processing error.
    pub on_error: FileAction,
    /// Directory that failed files move to (needed when `on_error` is `Move`).
    pub error_dir: Option<String>,
    /// Comma-separated list of fields to load; all fields when absent.
    pub fields: Option<String>,
    /// The CSV files have no header row.
    pub no_header: bool,
    /// Ask the store for server-side batching of inserts.
    pub async_insert: bool,
}

/// What the file system says of the configured directories, read before
/// validation: whether the watch directory exists, and the absolute,
/// canonical form of each directory, or the error that resolving it gave.
/// `success_dir` and `error_dir` are read only when the matching option is set.
#[derive(Debug)]
pub struct PathFacts {
    pub watch_dir_exists: bool,
    pub watch_dir: Result<String, String>,
    pub success_dir: Result<String, String>,
    pub error_dir: Result<String, String>,
}

/// The `Debug` form of a path: the path between double quotes, with quotes,
/// backslashes and unprintable characters escaped.
pub uninterp spec fn debug_path(p: Seq<char>) -> Seq<char>;

/// Relies on the `Debug` impl of `std::path::Path`: the quoted, escaped form
/// of a path, which depends on the path's text alone.
#[verifier::external_body]
fn debug_form(path: &str) -> (r: String)
    ensures
        r@ == debug_path(path@),
{
    format!("{:?}", std::path::Path::new(path))
}

/// The message for a watch directory that does not exist, given the
/// directory's quoted form.
pub open spec fn missing_watch_dir(shown: Seq<char>) -> Seq<char> {
    "Watch directory does not exist: "@ + shown
}

/// The message for a watch directory that does not exist, given the
/// directory's quoted form `shown`.
pub fn missing_watch_dir_message(shown: &str) -> (r: String)
    ensures
        r@ == missing_watch_dir(shown@),
{
    String::from_str("Watch directory does not exist: ").concat(shown)
}

pub open spec fn opt_view(o: Option<String>) -> Option<Seq<char>> {
    match o {
        Some(s) => Some(s@),
        None => None,
    }
}

pub open spec fn need_success_dir() -> Seq<char> {
    "--success-dir is required when --on-success=move"@
}

pub open spec fn need_error_dir() -> Seq<char> {
    "--error-dir is required when --on-error=move"@
}

/// The checks that need no resolved path pass.
pub open spec fn options_hold(a: Args, f: PathFacts) -> bool {
    &&& !(a.on_success == FileAction::Move && a.success_dir is None)
    &&& !(a.on_error == FileAction::Move && a.error_dir is None)
    &&& f.watch_dir_exists
}

/// Validation has got as far as a resolved watch directory.
pub open spec fn watch_resolved(a: Args, f: PathFacts) -> bool {
    options_hold(a, f) && f.watch_dir is Ok
}

/// Validation has got as far as a resolved success directory, where one is set.
pub open spec fn success_resolved(a: Args, f: PathFacts) -> bool {
    watch_resolved(a, f) && (a.success_dir is None || f.success_dir is Ok)
}

/// The first error that validation meets, if any, in the order in which the
/// checks are made.
pub open spec fn first_error(a: Args, f: PathFacts) -> Option<Seq<char>> {
    if a.on_success == FileAction::Move && a.success_dir is None {
        Some(need_success_dir())
    } else if a.on_error == FileAction::Move && a.error_dir is None {
        Some(need_error_dir())
    } else if !f.watch_dir_exists {
        Some(missing_watch_dir(debug_path(a.watch_dir@)))
    } else if f.watch_dir is Err {
        Some("Failed to resolve watch_dir: "@ + f.watch_dir->Err_0@)
    } else if a.success_dir is Some && f.success_dir is Err {
        Some("Failed to resolve success_dir: "@ + f.success_dir->Err_0@)
    } else if a.error_dir is Some && f.error_dir is Err {
        Some("Failed to resolve error_dir: "@ + f.error_dir->Err_0@)
    } else {
        None
    }
}

impl Args {
    /// Checks the configuration, and replaces each directory by its resolved
    /// form as validation reaches it. A `Move` action without its directory is
    /// refused before anything else.
    pub fn validate(&mut self, facts: &PathFacts) -> (r: Result<(), String>)
        ensures
            r is Ok <==> first_error(*old(self), *facts) is None,
            r matches Err(e) ==> first_error(*old(self), *facts) == Some(e@),
            final(self).watch_dir@ == if watch_resolved(*old(self), *facts) {
                facts.watch_dir->Ok_0@
            } else {
                old(self).watch_dir@
            },
            opt_view(final(self).success_dir) == if watch_resolved(*old(self), *facts)
                && old(self).success_dir is Some && facts.success_dir is Ok {
                Some(facts.success_dir->Ok_0@)
            } else {
                opt_view(old(self).success_dir)
            },
            opt_view(final(self).error_dir) == if success_resolved(*old(self), *facts)
                && old(self).error_dir is Some && facts.error_dir is Ok {
                Some(facts.error_dir->Ok_0@)
            } else {
                opt_view(old(self).error_dir)
            },
            final(self).clickhouse_url == old(self).clickhouse_url,
            final(self).database == old(self).database,
            final(self).table == old(self).table,
            final(self).user == old(self).user,
            final(self).password == old(self).password,
            final(self).on_success == old(self).on_success,
            final(self).on_error == old(self).on_error,
            final(self).fields == old(self).fields,
            final(self).no_header == old(self).no_header,
            final(self).async_insert == old(self).async_insert,
    {
        if self.on_success == FileAction::Move && self.success_dir.is_none() {
            return Err(String::from_str("--success-dir is required when --on-success=move"));
        }
        if self.on_error == FileAction::Move && self.error_dir.is_none() {
            return Err(String::from_str("--error-dir is required when --on-error=move"));
        }
        if !facts.watch_dir_exists {
            let shown = debug_form(self.watch_dir.as_str());
            return Err(missing_watch_dir_message(shown.as_str()));
        }
        match &facts.watch_dir {
            Ok(w) => {
                self.watch_dir = w.clone();
            },
            Err(e) => {
                return Err(String::from_str("Failed to resolve watch_dir: ").concat(e.as_str()));
            },
        }
        if self.success_dir.is_some() {
            match &facts.success_dir {
                Ok(d) => {
                    self.success_dir = Some(d.clone());
                },
                Err(e) => {
                    return Err(
                        String::from_str("Failed to resolve success_dir: ").concat(e.as_str()),
                    );
                },
            }
        }
        if self.error_dir.is_some() {
            match &facts.error_dir {
                Ok(d) => {
                    self.error_dir = Some(d.clone());
                },
                Err(e) => {
                    return Err(String::from_str("Failed to resolve error_dir: ").concat(e.as_str()));
                },
            }
        }
        Ok(())
    }

    /// The configured fields, split at commas and trimmed of white space.
    pub fn selected_fields(&self) -> (r: Option<Vec<String>>)
        ensures
            self.fields is None ==> r is None,
            self.fields matches Some(f) ==> r matches Some(v) && v.deep_view() == split_commas(
                f@,
            ).map_values(|p: Seq<char>| trim(p)),
    {
        match &self.fields {
            Some(f) => Some(split_trimmed(f.as_str())),
            None => None,
        }
    }
}

} // verus!

//! Writes a session cookie straight into a browser's own SQLite cookie store.
//!
//! Two browser families are supported, each with its own schema, on-disk
//! layout and epoch convention: a Chromium-derived browser (microseconds
//! since 1601-01-01) and a Gecko-derived browser (a mix of seconds and
//! microseconds since 1970-01-01). The pipeline for either family is:
//! locate the database, build the cookie record, decide insert vs. update
//! against the existing row, and perform the write.

use vstd::prelude::*;

pub mod chrome;
pub mod cookie_values;
pub mod db;
pub mod descriptor;
pub mod epoch;
pub mod firefox;
pub mod sys;
pub mod text;

verus! {

/// How a run can fail. The two browser pipelines convert every failure
/// into one of these; none is allowed to escape as a panic.
#[derive(Clone, Debug, PartialEq, Eq)]
pub enum CookieError {
    /// The operating system identifier matches neither supported family.
    UnsupportedPlatform,
    /// The expected cookie database (or profile root) is absent on disk.
    PathNotFound,
    /// The profile descriptor names no default-release profile.
    ProfileNotResolved,
    /// The local host name could not be read.
    HostUnavailable,
    /// An open, query or write on the database failed; carries the cause.
    Database(String),
}

/// The reconciler's verdict for a (host, name) pair.
#[derive(Clone, Copy, Debug, PartialEq, Eq, Structural)]
pub enum UpsertDecision {
    Insert,
    Update,
}

/// Decides insert vs. update from the number of rows that matched the
/// record's (host, name) pair exactly: zero matches mean insert, any
/// other count means update.
pub fn reconcile(match_count: i64) -> (d: UpsertDecision)
    ensures
        d == UpsertDecision::Insert <==> match_count == 0,
        d == UpsertDecision::Update <==> match_count != 0,
{
    if match_count == 0 {
        UpsertDecision::Insert
    } else {
        UpsertDecision::Update
    }
}

/// What resolution hands out: the composed candidate path, and only
/// when the file behind it exists.
pub open spec fn spec_resolve(candidate: Option<String>, file_exists: bool) -> Option<String> {
    if candidate is Some && file_exists {
        candidate
    } else {
        None
    }
}

/// Accepts a composed candidate path only when the file behind it exists.
/// The existence check itself is I/O and is made by the caller; this
/// function fixes how its outcome is honoured: no candidate or a missing
/// file yields no path.
pub fn resolve(candidate: Option<String>, file_exists: bool) -> (r: Option<String>)
    ensures
        r == spec_resolve(candidate, file_exists),
{
    if file_exists {
        candidate
    } else {
        None
    }
}

/// A path is resolved only over an existing file: whatever candidate
/// either browser family composed, an absent file forces the empty
/// result, and a present file passes the candidate through — so
/// deleting the file always flips the outcome from present to absent.
pub proof fn lemma_resolve_requires_existing_file(candidate: Option<String>)
    ensures
        spec_resolve(candidate, false) is None,
        spec_resolve(candidate, true) == candidate,
{
}

/// Maps the outcome of path discovery onto the error taxonomy: no
/// candidate means the operating system is unsupported, a candidate
/// without its file on disk means the database was not found, and
/// otherwise the path is handed through.
pub fn classify_path_outcome(candidate: Option<String>, file_exists: bool) -> (r: Result<
    String,
    CookieError,
>)
    ensures
        candidate is None ==> r == Err::<String, CookieError>(CookieError::UnsupportedPlatform),
        candidate is Some && !file_exists ==> r == Err::<String, CookieError>(
            CookieError::PathNotFound,
        ),
        candidate is Some && file_exists ==> r == Ok::<String, CookieError>(candidate->Some_0),
{
    match candidate {
        None => Err(CookieError::UnsupportedPlatform),
        Some(p) => {
            if file_exists {
                Ok(p)
            } else {
                Err(CookieError::PathNotFound)
            }
        },
    }
}

/// Maps the outcome of Gecko profile resolution onto the error
/// taxonomy: an empty resolved path means the descriptor named no
/// default profile (treated by callers exactly like a missing path), a
/// resolved path without its file on disk means the database was not
/// found, and otherwise the path is handed through.
pub fn classify_profile_outcome(db_path: String, file_exists: bool) -> (r: Result<
    String,
    CookieError,
>)
    ensures
        db_path@.len() == 0 ==> r == Err::<String, CookieError>(CookieError::ProfileNotResolved),
        db_path@.len() > 0 && !file_exists ==> r == Err::<String, CookieError>(
            CookieError::PathNotFound,
        ),
        db_path@.len() > 0 && file_exists ==> r == Ok::<String, CookieError>(db_path),
{
    if db_path.as_str().is_empty() {
        Err(CookieError::ProfileNotResolved)
    } else if file_exists {
        Ok(db_path)
    } else {
        Err(CookieError::PathNotFound)
    }
}

} // verus!

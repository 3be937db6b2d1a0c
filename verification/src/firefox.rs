//! The Gecko-family pipeline: locate the profile root, resolve the
//! default profile's `cookies.sqlite` through the profile descriptor,
//! build the 13-column record with Gecko's mixed units (expiry in Unix
//! seconds, creation and access in Unix microseconds), and insert or
//! update the row keyed by (host, name).

use crate::cookie_values::CookieValue;
use crate::db::{execute_sql, open_connection, query_single_i64, i64_to_string, spec_i64_string};
use crate::descriptor::{find_default_profile_dir, parse_entries, spec_profile_db_path};
use crate::epoch::MICROS_PER_SECOND;
use crate::sys::local_hostname;
use crate::text::{split_lines, str_eq};
use crate::{reconcile, CookieError, UpsertDecision};
use vstd::prelude::*;

verus! {

/// One row of the Gecko `moz_cookies` table, as this pipeline writes it.
pub struct Cookie {
    pub host: String,
    pub name: String,
    pub value: String,
    pub path: String,
    /// Unix seconds — never microseconds.
    pub expiry: i64,
    /// Unix microseconds.
    pub last_accessed: i64,
    /// Unix microseconds.
    pub creation_time: i64,
    pub is_secure: i64,
    pub is_http_only: i64,
    pub in_browser_element: i64,
    pub same_site: i64,
    pub raw_same_site: i64,
    pub scheme_map: i64,
}

/// Builds the record for one run. Expiry is stored truncated to Unix
/// seconds while creation stays in Unix microseconds; the cookie's
/// payload is the local host's name (a deliberate behaviour, not a
/// configured value); the remaining columns take this pipeline's fixed
/// defaults.
pub fn build_cookie(v: &CookieValue, hostname: String) -> (c: Cookie)
    requires
        v.wf(),
    ensures
        c.host == v.host,
        c.name == v.name,
        c.value == hostname,
        c.path == v.path,
        c.expiry == v.expiry as int / MICROS_PER_SECOND as int,
        c.creation_time == v.creation_time,
        c.last_accessed == 0,
        c.is_secure == v.is_secure as i64,
        c.is_http_only == 0,
        c.in_browser_element == 0,
        c.same_site == v.same_site as i64,
        c.raw_same_site == 0,
        c.scheme_map == 0,
{
    Cookie {
        host: v.host.clone(),
        name: v.name.clone(),
        value: hostname,
        path: v.path.clone(),
        expiry: v.expiry / MICROS_PER_SECOND,
        last_accessed: 0,
        creation_time: v.creation_time,
        is_secure: v.is_secure as i64,
        is_http_only: 0,
        in_browser_element: 0,
        same_site: v.same_site as i64,
        raw_same_site: 0,
        scheme_map: 0,
    }
}

/// The thirteen positional parameters of the insert statement, in the
/// order its placeholders number them.
pub fn insert_params(cookie: &Cookie) -> (r: Vec<String>)
    ensures
        r@.len() == 13,
        r@[0]@ == cookie.host@,
        r@[1]@ == cookie.name@,
        r@[2]@ == cookie.value@,
        r@[3]@ == cookie.path@,
        r@[4]@ == spec_i64_string(cookie.expiry as int),
        r@[5]@ == spec_i64_string(cookie.last_accessed as int),
        r@[6]@ == spec_i64_string(cookie.creation_time as int),
        r@[7]@ == spec_i64_string(cookie.is_secure as int),
        r@[8]@ == spec_i64_string(cookie.is_http_only as int),
        r@[9]@ == spec_i64_string(cookie.in_browser_element as int),
        r@[10]@ == spec_i64_string(cookie.same_site as int),
        r@[11]@ == spec_i64_string(cookie.raw_same_site as int),
        r@[12]@ == spec_i64_string(cookie.scheme_map as int),
{
    let mut r: Vec<String> = Vec::new();
    r.push(cookie.host.clone());
    r.push(cookie.name.clone());
    r.push(cookie.value.clone());
    r.push(cookie.path.clone());
    r.push(i64_to_string(cookie.expiry));
    r.push(i64_to_string(cookie.last_accessed));
    r.push(i64_to_string(cookie.creation_time));
    r.push(i64_to_string(cookie.is_secure));
    r.push(i64_to_string(cookie.is_http_only));
    r.push(i64_to_string(cookie.in_browser_element));
    r.push(i64_to_string(cookie.same_site));
    r.push(i64_to_string(cookie.raw_same_site));
    r.push(i64_to_string(cookie.scheme_map));
    r
}

/// Inserts the full row, all thirteen columns bound from the record.
pub fn insert(connection: &rusqlite::Connection, cookie: &Cookie) -> (r: Result<(), CookieError>)
    ensures
        r is Err ==> r->Err_0 is Database,
{
    let params = insert_params(cookie);
    let outcome = execute_sql(
        connection,
        "INSERT INTO moz_cookies (host, name, value, path, expiry, lastAccessed, creationTime, isSecure, isHttpOnly, inBrowserElement, sameSite, rawSameSite, schemeMap) VALUES (?1, ?2, ?3, ?4, ?5, ?6, ?7, ?8, ?9, ?10, ?11, ?12, ?13)",
        &params,
    );
    match outcome {
        Ok(_) => Ok(()),
        Err(e) => Err(CookieError::Database(e)),
    }
}

/// The four positional parameters of the update statement, in the
/// order its placeholders number them: the new expiry, the new value,
/// then the (host, name) key of the row to touch.
pub fn update_params(cookie: &Cookie) -> (r: Vec<String>)
    ensures
        r@.len() == 4,
        r@[0]@ == spec_i64_string(cookie.expiry as int),
        r@[1]@ == cookie.value@,
        r@[2]@ == cookie.host@,
        r@[3]@ == cookie.name@,
{
    let mut r: Vec<String> = Vec::new();
    r.push(i64_to_string(cookie.expiry));
    r.push(cookie.value.clone());
    r.push(cookie.host.clone());
    r.push(cookie.name.clone());
    r
}

/// Updates only `expiry` and `value` of the row keyed by the exact
/// (host, name) pair; every other column is left untouched.
pub fn update(connection: &rusqlite::Connection, cookie: &Cookie) -> (r: Result<(), CookieError>)
    ensures
        r is Err ==> r->Err_0 is Database,
{
    let params = update_params(cookie);
    let outcome = execute_sql(
        connection,
        "UPDATE moz_cookies SET expiry = ?1, value = ?2 WHERE host = ?3 AND name = ?4",
        &params,
    );
    match outcome {
        Ok(_) => Ok(()),
        Err(e) => Err(CookieError::Database(e)),
    }
}

/// Queries for rows matching the record's (host, name) exactly, decides
/// insert against update from the count, and performs the write on the
/// given connection.
pub fn apply_cookie(connection: &rusqlite::Connection, cookie: &Cookie) -> (r: Result<
    UpsertDecision,
    CookieError,
>)
    ensures
        r is Err ==> r->Err_0 is Database,
{
    let counted = query_single_i64(
        connection,
        "SELECT COUNT(*) FROM moz_cookies WHERE host = ?1 AND name = ?2",
        cookie.host.as_str(),
        cookie.name.as_str(),
    );
    let count = match counted {
        Ok(c) => c,
        Err(e) => {
            return Err(CookieError::Database(e));
        },
    };
    let decision = reconcile(count);
    let written = match decision {
        UpsertDecision::Insert => insert(connection, cookie),
        UpsertDecision::Update => update(connection, cookie),
    };
    match written {
        Ok(()) => Ok(decision),
        Err(e) => Err(e),
    }
}

/// Opens the database behind the path, builds the record for this run
/// (its payload the local host name) and reconciles it against the
/// existing row. Path discovery happens before this point, so neither
/// path error can come out of it.
pub fn handle_cookie(db_path: &str, values: &CookieValue) -> (r: Result<
    UpsertDecision,
    CookieError,
>)
    requires
        values.wf(),
    ensures
        r is Err ==> r->Err_0 is Database || r->Err_0 is HostUnavailable,
{
    let connection = match open_connection(db_path) {
        Ok(c) => c,
        Err(e) => {
            return Err(CookieError::Database(e));
        },
    };
    let hostname = match local_hostname() {
        Some(h) => h,
        None => {
            return Err(CookieError::HostUnavailable);
        },
    };
    let cookie = build_cookie(values, hostname);
    apply_cookie(&connection, &cookie)
}

/// The OS-specific profile root of the Gecko browser under the home
/// directory, with its trailing separator. Unsupported operating
/// systems yield no path; whether the directory exists is the caller's
/// check (see `crate::resolve`).
pub fn get_firefox_path(os_id: &str, home_dir: &str) -> (r: Option<String>)
    ensures
        os_id@ == "linux"@ ==> r is Some && r->Some_0@ == home_dir@ + "/.mozilla/firefox/"@,
        os_id@ == "windows"@ ==> r is Some && r->Some_0@ == home_dir@
            + "/AppData/Roaming/Mozilla/Firefox/"@,
        os_id@ != "linux"@ && os_id@ != "windows"@ ==> r is None,
{
    proof {
        reveal_strlit("linux");
        reveal_strlit("windows");
        assert("linux"@.len() == 5);
        assert("windows"@.len() == 7);
        assert("linux"@ != "windows"@);
    }
    if str_eq(os_id, "linux") {
        Some(String::from_str(home_dir).concat("/.mozilla/firefox/"))
    } else if str_eq(os_id, "windows") {
        Some(String::from_str(home_dir).concat("/AppData/Roaming/Mozilla/Firefox/"))
    } else {
        None
    }
}

/// Resolves the default profile's cookie database under the profile
/// root `path` from the text of its `profiles.ini`. An unresolved
/// profile yields the empty string, which callers must treat as
/// "database not found" rather than a crash.
pub fn firefox_get_database_path(path: &str, descriptor: &str) -> (r: String)
    ensures
        r@ == spec_profile_db_path(path@, descriptor@),
{
    let lines = split_lines(descriptor);
    let entries = parse_entries(&lines);
    match find_default_profile_dir(&entries) {
        None => String::new(),
        Some(dir) => {
            let mut out = String::from_str(path);
            out.append(dir.as_str());
            out.append("/cookies.sqlite");
            proof {
                assert(out@ =~= path@ + dir@ + "/cookies.sqlite"@);
            }
            out
        },
    }
}

} // verus!

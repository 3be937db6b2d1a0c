//! The Chromium-family pipeline: locate the `Cookies` database under the
//! home directory, build the 19-column cookie record in the Chromium
//! epoch, and insert or update the row keyed by (host_key, name).

use crate::cookie_values::CookieValue;
use crate::db::{execute_sql, open_connection, query_single_i64, i64_to_string, spec_i64_string};
use crate::epoch::CHROMIUM_EPOCH_OFFSET_MICROS;
use crate::sys::local_hostname;
use crate::text::str_eq;
use crate::{reconcile, CookieError, UpsertDecision};
use vstd::prelude::*;

verus! {

/// One row of the Chromium `cookies` table, as this pipeline writes it.
pub struct Cookie {
    pub creation_utc: i64,
    pub host_key: String,
    pub top_frame_site: String,
    pub name: String,
    pub value: String,
    pub encrypted_value: String,
    pub path: String,
    pub expires_utc: i64,
    pub is_secure: i64,
    pub is_httponly: i64,
    pub last_access_utc: i64,
    pub has_expires: i64,
    pub is_persistent: i64,
    pub priority: i64,
    pub samesite: i64,
    pub source_scheme: i64,
    pub source_port: i64,
    pub is_same_party: i64,
    pub last_update_utc: i64,
}

/// Builds the record for one run. Creation and expiry move into the
/// Chromium epoch by the fixed offset; the cookie's payload is the local
/// host's name (a deliberate behaviour, not a configured value); the
/// remaining columns take this pipeline's fixed defaults.
pub fn build_cookie(v: &CookieValue, hostname: String) -> (c: Cookie)
    requires
        v.wf(),
    ensures
        c.creation_utc == v.creation_time + CHROMIUM_EPOCH_OFFSET_MICROS,
        c.expires_utc == v.expiry + CHROMIUM_EPOCH_OFFSET_MICROS,
        c.host_key == v.host,
        c.name == v.name,
        c.value == hostname,
        c.path == v.path,
        c.is_secure == v.is_secure as i64,
        c.samesite == v.same_site as i64,
        c.is_httponly == 0,
        c.last_access_utc == 0,
        c.has_expires == 1,
        c.is_persistent == 1,
        c.priority == 1,
        c.top_frame_site@ == Seq::<char>::empty(),
        c.encrypted_value@ == Seq::<char>::empty(),
        c.source_scheme == 0,
        c.source_port == 0,
        c.is_same_party == 1,
        c.last_update_utc == 0,
{
    Cookie {
        creation_utc: v.creation_time + CHROMIUM_EPOCH_OFFSET_MICROS,
        host_key: v.host.clone(),
        name: v.name.clone(),
        value: hostname,
        path: v.path.clone(),
        expires_utc: v.expiry + CHROMIUM_EPOCH_OFFSET_MICROS,
        is_secure: v.is_secure as i64,
        is_httponly: 0,
        last_access_utc: 0,
        has_expires: 1,
        samesite: v.same_site as i64,
        top_frame_site: String::new(),
        encrypted_value: String::new(),
        is_persistent: 1,
        priority: 1,
        source_scheme: 0,
        source_port: 0,
        is_same_party: 1,
        last_update_utc: 0,
    }
}

/// The thirteen positional parameters of the insert statement, in the
/// order its placeholders number them.
pub fn insert_params(cookie: &Cookie) -> (r: Vec<String>)
    ensures
        r@.len() == 13,
        r@[0]@ == spec_i64_string(cookie.creation_utc as int),
        r@[1]@ == cookie.host_key@,
        r@[2]@ == cookie.name@,
        r@[3]@ == cookie.value@,
        r@[4]@ == cookie.path@,
        r@[5]@ == spec_i64_string(cookie.expires_utc as int),
        r@[6]@ == spec_i64_string(cookie.is_secure as int),
        r@[7]@ == spec_i64_string(cookie.is_httponly as int),
        r@[8]@ == spec_i64_string(cookie.last_access_utc as int),
        r@[9]@ == spec_i64_string(cookie.has_expires as int),
        r@[10]@ == spec_i64_string(cookie.samesite as int),
        r@[11]@ == cookie.top_frame_site@,
        r@[12]@ == cookie.encrypted_value@,
{
    let mut r: Vec<String> = Vec::new();
    r.push(i64_to_string(cookie.creation_utc));
    r.push(cookie.host_key.clone());
    r.push(cookie.name.clone());
    r.push(cookie.value.clone());
    r.push(cookie.path.clone());
    r.push(i64_to_string(cookie.expires_utc));
    r.push(i64_to_string(cookie.is_secure));
    r.push(i64_to_string(cookie.is_httponly));
    r.push(i64_to_string(cookie.last_access_utc));
    r.push(i64_to_string(cookie.has_expires));
    r.push(i64_to_string(cookie.samesite));
    r.push(cookie.top_frame_site.clone());
    r.push(cookie.encrypted_value.clone());
    r
}

/// Inserts the full row. Four columns are written as fixed literals in
/// the statement itself, whatever the record holds: `source_scheme` 2,
/// `source_port` 0, `is_same_party` 0 and `last_update_utc` 0 (and
/// `is_persistent` and `priority` as the literal 1); browsers may
/// validate these, so they are kept exactly as the schema expects.
pub fn insert_cookie(connection: &rusqlite::Connection, cookie: &Cookie) -> (r: Result<
    (),
    CookieError,
>)
    ensures
        r is Err ==> r->Err_0 is Database,
{
    let params = insert_params(cookie);
    let outcome = execute_sql(
        connection,
        "INSERT INTO cookies (creation_utc, host_key, top_frame_site_key, name, value, encrypted_value, path, expires_utc, is_secure, is_httponly, last_access_utc, has_expires, is_persistent, priority, samesite, source_scheme, source_port, is_same_party, last_update_utc) VALUES (?1, ?2, ?12, ?3, ?4, ?13, ?5, ?6, ?7, ?8, ?9, ?10, 1, 1, ?11, 2, 0, 0, 0)",
        &params,
    );
    match outcome {
        Ok(_) => Ok(()),
        Err(e) => Err(CookieError::Database(e)),
    }
}

/// The four positional parameters of the update statement, in the
/// order its placeholders number them: the new value, the new expiry,
/// then the (host_key, name) key of the row to touch.
pub fn update_params(cookie: &Cookie) -> (r: Vec<String>)
    ensures
        r@.len() == 4,
        r@[0]@ == cookie.value@,
        r@[1]@ == spec_i64_string(cookie.expires_utc as int),
        r@[2]@ == cookie.host_key@,
        r@[3]@ == cookie.name@,
{
    let mut r: Vec<String> = Vec::new();
    r.push(cookie.value.clone());
    r.push(i64_to_string(cookie.expires_utc));
    r.push(cookie.host_key.clone());
    r.push(cookie.name.clone());
    r
}

/// Updates only `value` and `expires_utc` of the row keyed by the exact
/// (host_key, name) pair; every other column is left untouched.
pub fn update_cookie(connection: &rusqlite::Connection, cookie: &Cookie) -> (r: Result<
    (),
    CookieError,
>)
    ensures
        r is Err ==> r->Err_0 is Database,
{
    let params = update_params(cookie);
    let outcome = execute_sql(
        connection,
        "UPDATE cookies SET value = ?1, expires_utc = ?2 WHERE host_key = ?3 AND name = ?4",
        &params,
    );
    match outcome {
        Ok(_) => Ok(()),
        Err(e) => Err(CookieError::Database(e)),
    }
}

/// Queries for rows matching the record's (host_key, name) exactly,
/// decides insert against update from the count, and performs the write
/// on the given connection.
pub fn apply_cookie(connection: &rusqlite::Connection, cookie: &Cookie) -> (r: Result<
    UpsertDecision,
    CookieError,
>)
    ensures
        r is Err ==> r->Err_0 is Database,
{
    let counted = query_single_i64(
        connection,
        "SELECT COUNT(*) FROM cookies WHERE host_key = ?1 AND name = ?2",
        cookie.host_key.as_str(),
        cookie.name.as_str(),
    );
    let count = match counted {
        Ok(c) => c,
        Err(e) => {
            return Err(CookieError::Database(e));
        },
    };
    let decision = reconcile(count);
    let written = match decision {
        UpsertDecision::Insert => insert_cookie(connection, cookie),
        UpsertDecision::Update => update_cookie(connection, cookie),
    };
    match written {
        Ok(()) => Ok(decision),
        Err(e) => Err(e),
    }
}

/// Opens the database behind the path, builds the record for this run
/// (its payload the local host name) and reconciles it against the
/// existing row. Path discovery happens before this point, so neither
/// path error can come out of it.
pub fn handle_cookie(db_path: &str, values: &CookieValue) -> (r: Result<
    UpsertDecision,
    CookieError,
>)
    requires
        values.wf(),
    ensures
        r is Err ==> r->Err_0 is Database || r->Err_0 is HostUnavailable,
{
    let connection = match open_connection(db_path) {
        Ok(c) => c,
        Err(e) => {
            return Err(CookieError::Database(e));
        },
    };
    let hostname = match local_hostname() {
        Some(h) => h,
        None => {
            return Err(CookieError::HostUnavailable);
        },
    };
    let cookie = build_cookie(values, hostname);
    apply_cookie(&connection, &cookie)
}

/// The OS-specific location of the Chromium cookie database under the
/// home directory. Unsupported operating systems yield no path; whether
/// the file exists is the caller's check (see `crate::resolve`).
pub fn get_chrome_path(os_id: &str, home_dir: &str) -> (r: Option<String>)
    ensures
        os_id@ == "linux"@ ==> r is Some && r->Some_0@ == home_dir@
            + "/.config/google-chrome/Default/Cookies"@,
        os_id@ == "windows"@ ==> r is Some && r->Some_0@ == home_dir@
            + "/AppData/Local/Google/Chrome/User Data/Default/Network/Cookies"@,
        os_id@ != "linux"@ && os_id@ != "windows"@ ==> r is None,
{
    proof {
        reveal_strlit("linux");
        reveal_strlit("windows");
        assert("linux"@.len() == 5);
        assert("windows"@.len() == 7);
        assert("linux"@ != "windows"@);
    }
    if str_eq(os_id, "linux") {
        Some(String::from_str(home_dir).concat("/.config/google-chrome/Default/Cookies"))
    } else if str_eq(os_id, "windows") {
        Some(
            String::from_str(home_dir).concat(
                "/AppData/Local/Google/Chrome/User Data/Default/Network/Cookies",
            ),
        )
    } else {
        None
    }
}

} // verus!

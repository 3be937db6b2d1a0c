use cookie_upsert::chrome;
use cookie_upsert::cookie_values::CookieValue;
use cookie_upsert::epoch::{
    from_chromium_micros, to_chromium_micros, unix_micros_to_seconds, CHROMIUM_EPOCH_OFFSET_MICROS,
    THIRTY_DAYS_MICROS,
};
use cookie_upsert::firefox;

// 2024-01-01T00:00:00Z in Unix microseconds.
const FIXED_NOW_MICROS: i64 = 1_704_067_200_000_000;

fn fixed_values() -> CookieValue {
    CookieValue::get_values(
        String::from("example.com"),
        String::from("session"),
        String::from("/"),
        1,
        1,
        FIXED_NOW_MICROS,
    )
}

#[test]
fn chromium_epoch_conversion_is_the_fixed_offset() {
    assert_eq!(to_chromium_micros(0), 11_644_473_600_000_000);
    assert_eq!(
        to_chromium_micros(FIXED_NOW_MICROS),
        13_348_540_800_000_000
    );
}

#[test]
fn chromium_epoch_conversion_round_trips() {
    let t = FIXED_NOW_MICROS;
    assert_eq!(from_chromium_micros(to_chromium_micros(t)), t);
    assert_eq!(from_chromium_micros(CHROMIUM_EPOCH_OFFSET_MICROS), 0);
}

#[test]
fn unix_seconds_are_the_truncation() {
    assert_eq!(unix_micros_to_seconds(0), 0);
    assert_eq!(unix_micros_to_seconds(999_999), 0);
    assert_eq!(unix_micros_to_seconds(1_000_000), 1);
    assert_eq!(unix_micros_to_seconds(FIXED_NOW_MICROS), 1_704_067_200);
}

#[test]
fn gecko_units_stay_distinct() {
    // For a nonzero instant the second count never equals the
    // microsecond count.
    for t in [1i64, 999_999, 1_000_000, FIXED_NOW_MICROS] {
        assert_ne!(unix_micros_to_seconds(t), t);
    }
}

#[test]
fn get_values_applies_the_thirty_day_horizon() {
    let v = fixed_values();
    assert_eq!(v.creation_time, FIXED_NOW_MICROS);
    assert_eq!(v.expiry, FIXED_NOW_MICROS + THIRTY_DAYS_MICROS);
    assert_eq!(v.expiry, 1_706_659_200_000_000);
    assert_eq!(v.host, "example.com");
    assert_eq!(v.name, "session");
    assert_eq!(v.path, "/");
    assert_eq!(v.is_secure, 1);
    assert_eq!(v.same_site, 1);
}

#[test]
fn chrome_record_uses_chromium_epoch_and_hostname_payload() {
    let v = fixed_values();
    let c = chrome::build_cookie(&v, String::from("build-host"));
    assert_eq!(c.creation_utc, 13_348_540_800_000_000);
    assert_eq!(c.expires_utc, 13_351_132_800_000_000);
    assert_eq!(c.host_key, "example.com");
    assert_eq!(c.name, "session");
    // The payload is the machine's name, never a configured value.
    assert_eq!(c.value, "build-host");
    assert_eq!(c.path, "/");
    assert_eq!(c.is_secure, 1);
    assert_eq!(c.samesite, 1);
    assert_eq!(c.is_httponly, 0);
    assert_eq!(c.last_access_utc, 0);
    assert_eq!(c.has_expires, 1);
    assert_eq!(c.is_persistent, 1);
    assert_eq!(c.priority, 1);
    assert_eq!(c.top_frame_site, "");
    assert_eq!(c.encrypted_value, "");
    assert_eq!(c.source_scheme, 0);
    assert_eq!(c.source_port, 0);
    assert_eq!(c.is_same_party, 1);
    assert_eq!(c.last_update_utc, 0);
}

#[test]
fn chrome_insert_params_bind_in_statement_order() {
    let v = fixed_values();
    let c = chrome::build_cookie(&v, String::from("build-host"));
    let p = chrome::insert_params(&c);
    assert_eq!(
        p,
        vec![
            String::from("13348540800000000"),
            String::from("example.com"),
            String::from("session"),
            String::from("build-host"),
            String::from("/"),
            String::from("13351132800000000"),
            String::from("1"),
            String::from("0"),
            String::from("0"),
            String::from("1"),
            String::from("1"),
            String::from(""),
            String::from(""),
        ]
    );
}

#[test]
fn chrome_update_params_bind_in_statement_order() {
    let v = fixed_values();
    let c = chrome::build_cookie(&v, String::from("build-host"));
    let p = chrome::update_params(&c);
    assert_eq!(
        p,
        vec![
            String::from("build-host"),
            String::from("13351132800000000"),
            String::from("example.com"),
            String::from("session"),
        ]
    );
}

#[test]
fn firefox_update_params_bind_in_statement_order() {
    let v = fixed_values();
    let c = firefox::build_cookie(&v, String::from("build-host"));
    let p = firefox::update_params(&c);
    assert_eq!(
        p,
        vec![
            String::from("1706659200"),
            String::from("build-host"),
            String::from("example.com"),
            String::from("session"),
        ]
    );
}

#[test]
fn values_at_decides_the_admissible_instants() {
    let v = CookieValue::values_at(
        String::from("example.com"),
        String::from("session"),
        String::from("/"),
        1,
        1,
        FIXED_NOW_MICROS,
    )
    .expect("an ordinary instant is admissible");
    assert_eq!(v.creation_time, FIXED_NOW_MICROS);
    assert_eq!(v.expiry, FIXED_NOW_MICROS + THIRTY_DAYS_MICROS);
    // An instant before the epoch is refused...
    assert!(CookieValue::values_at(
        String::from("example.com"),
        String::from("session"),
        String::from("/"),
        1,
        1,
        -1,
    )
    .is_none());
    // ...and so is one too close to the representable maximum.
    assert!(CookieValue::values_at(
        String::from("example.com"),
        String::from("session"),
        String::from("/"),
        1,
        1,
        i64::MAX - 1,
    )
    .is_none());
}

#[test]
fn firefox_record_mixes_seconds_and_microseconds() {
    let v = fixed_values();
    let c = firefox::build_cookie(&v, String::from("build-host"));
    // Expiry in Unix seconds; creation in Unix microseconds.
    assert_eq!(c.expiry, 1_706_659_200);
    assert_eq!(c.creation_time, 1_704_067_200_000_000);
    assert_ne!(c.expiry, c.creation_time);
    assert_eq!(c.host, "example.com");
    assert_eq!(c.name, "session");
    assert_eq!(c.value, "build-host");
    assert_eq!(c.path, "/");
    assert_eq!(c.last_accessed, 0);
    assert_eq!(c.is_secure, 1);
    assert_eq!(c.is_http_only, 0);
    assert_eq!(c.in_browser_element, 0);
    assert_eq!(c.same_site, 1);
    assert_eq!(c.raw_same_site, 0);
    assert_eq!(c.scheme_map, 0);
}

#[test]
fn firefox_insert_params_bind_in_statement_order() {
    let v = fixed_values();
    let c = firefox::build_cookie(&v, String::from("build-host"));
    let p = firefox::insert_params(&c);
    assert_eq!(
        p,
        vec![
            String::from("example.com"),
            String::from("session"),
            String::from("build-host"),
            String::from("/"),
            String::from("1706659200"),
            String::from("0"),
            String::from("1704067200000000"),
            String::from("1"),
            String::from("0"),
            String::from("0"),
            String::from("1"),
            String::from("0"),
            String::from("0"),
        ]
    );
}

#[test]
fn current_values_carry_the_configuration() {
    let v = CookieValue::current_values(
        String::from("example.org"),
        String::from("sid"),
        String::from("/app"),
        0,
        2,
    )
    .expect("the clock reads an ordinary instant");
    assert_eq!(v.host, "example.org");
    assert_eq!(v.name, "sid");
    assert_eq!(v.path, "/app");
    assert_eq!(v.is_secure, 0);
    assert_eq!(v.same_site, 2);
    assert_eq!(v.expiry, v.creation_time + THIRTY_DAYS_MICROS);
}

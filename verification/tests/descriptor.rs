use cookie_upsert::firefox::firefox_get_database_path;

#[test]
fn resolves_second_of_three_sections() {
    // Only the second section names the default-release profile.
    let descriptor = "[Install4F96D1932A9F858E]\nDefault=abc.other\n\n[Profile1]\nName=default-release\nIsRelative=1\nPath=xyz.default\n\n[Profile0]\nName=default\nPath=abc.other\n";
    let r = firefox_get_database_path("/home/alice/.mozilla/firefox/", descriptor);
    assert_eq!(r, "/home/alice/.mozilla/firefox/xyz.default/cookies.sqlite");
    assert!(r.ends_with("xyz.default/cookies.sqlite"));
}

#[test]
fn no_matching_section_yields_empty_path() {
    let descriptor = "[Profile0]\nName=default\nPath=abc.other\n";
    let r = firefox_get_database_path("/home/alice/.mozilla/firefox/", descriptor);
    assert_eq!(r, "");
}

#[test]
fn empty_descriptor_yields_empty_path() {
    assert_eq!(firefox_get_database_path("/root/", ""), "");
}

#[test]
fn marker_without_path_key_yields_empty_path() {
    let descriptor = "[Profile0]\nName=default-release\n";
    let r = firefox_get_database_path("/home/alice/.mozilla/firefox/", descriptor);
    assert_eq!(r, "");
}

#[test]
fn path_key_may_precede_name_key() {
    let descriptor = "[Profile0]\nPath=first.default\nName=default-release\n";
    let r = firefox_get_database_path("/p/", descriptor);
    assert_eq!(r, "/p/first.default/cookies.sqlite");
}

#[test]
fn keys_match_without_regard_to_ascii_case() {
    // Real descriptors capitalise the keys; matching ignores ASCII case.
    let descriptor = "[Profile0]\nNAME=default-release\nPATH=cased.default\n";
    let r = firefox_get_database_path("/p/", descriptor);
    assert_eq!(r, "/p/cased.default/cookies.sqlite");
}

#[test]
fn values_are_matched_case_sensitively() {
    let descriptor = "[Profile0]\nName=Default-Release\nPath=xyz.default\n";
    let r = firefox_get_database_path("/p/", descriptor);
    assert_eq!(r, "");
}

#[test]
fn windows_line_endings_are_tolerated() {
    let descriptor = "[Profile0]\r\nName=default-release\r\nPath=win.default\r\n";
    let r = firefox_get_database_path("/p/", descriptor);
    assert_eq!(r, "/p/win.default/cookies.sqlite");
}

#[test]
fn whitespace_around_keys_and_values_is_trimmed() {
    let descriptor = "[Profile0]\n  Name = default-release  \n  Path = padded.default  \n";
    let r = firefox_get_database_path("/p/", descriptor);
    assert_eq!(r, "/p/padded.default/cookies.sqlite");
}

#[test]
fn value_may_contain_equals_sign() {
    // Only the first '=' splits a pair; the rest belongs to the value.
    let descriptor = "[Profile0]\nName=default-release\nPath=odd=name.default\n";
    let r = firefox_get_database_path("/p/", descriptor);
    assert_eq!(r, "/p/odd=name.default/cookies.sqlite");
}

#[test]
fn first_matching_section_wins() {
    let descriptor =
        "[Profile0]\nName=default-release\nPath=one.default\n[Profile1]\nName=default-release\nPath=two.default\n";
    let r = firefox_get_database_path("/p/", descriptor);
    assert_eq!(r, "/p/one.default/cookies.sqlite");
}

#[test]
fn path_of_another_section_is_not_borrowed() {
    // The sibling path must come from the matching section itself.
    let descriptor = "[Profile0]\nPath=stray.default\n[Profile1]\nName=default-release\n";
    let r = firefox_get_database_path("/p/", descriptor);
    assert_eq!(r, "");
}

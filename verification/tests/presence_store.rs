use toznyauth_pam::presence::PresenceToken;
use toznyauth_pam::presence::cache_dir;
use toznyauth_pam::presence::get_id;
use toznyauth_pam::presence::get_presence;
use toznyauth_pam::presence::get_presence_file;
use toznyauth_pam::presence::save_presence_content;

#[test]
fn presence_file_sits_under_the_cache_directory() {
    assert_eq!(cache_dir("/home/u"), "/home/u/.cache");
    assert_eq!(get_presence_file("/home/u"), "/home/u/.cache/toznyauth_pam_presence");
}

#[test]
fn save_then_load_returns_the_exact_bytes_written() {
    let token = PresenceToken { token: "opaque-presence-value-123".to_string() };
    let written = save_presence_content(&token);
    assert_eq!(written, "opaque-presence-value-123");
    let loaded = get_presence(Some(written)).unwrap();
    assert_eq!(loaded.token, token.token);
}

#[test]
fn missing_or_unreadable_cache_yields_no_token() {
    assert_eq!(get_presence(None), None);
}

#[test]
fn empty_cache_file_is_an_empty_token() {
    assert_eq!(
        get_presence(Some(String::new())),
        Some(PresenceToken { token: String::new() })
    );
}

#[test]
fn id_parsing_accepts_plain_decimals() {
    assert_eq!(get_id("1000"), Some(1000));
    assert_eq!(get_id("0"), Some(0));
    assert_eq!(get_id("-5"), Some(-5));
    assert_eq!(get_id("+7"), Some(7));
    assert_eq!(get_id("007"), Some(7));
}

#[test]
fn id_parsing_rejects_stray_text() {
    // The identity database's output ends with a newline, which the
    // strict parser rejects.
    assert_eq!(get_id("1000\n"), None);
    assert_eq!(get_id(""), None);
    assert_eq!(get_id("-"), None);
    assert_eq!(get_id("+"), None);
    assert_eq!(get_id(" 12"), None);
    assert_eq!(get_id("12a"), None);
}

#[test]
fn id_parsing_is_exact_at_the_type_bounds() {
    assert_eq!(get_id("9223372036854775807"), Some(i64::MAX));
    assert_eq!(get_id("9223372036854775808"), None);
    assert_eq!(get_id("-9223372036854775808"), Some(i64::MIN));
    assert_eq!(get_id("-9223372036854775809"), None);
    assert_eq!(get_id("99999999999999999999999999999999"), None);
}

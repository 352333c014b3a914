use libby::config::{load_or_default, Config, CONFIG_VERSION};
use libby::text::{commit_url, display_username, short_hash, window_title};

#[test]
fn window_title_joins_app_and_page() {
    assert_eq!(window_title("Libby", "Page 1"), "Libby — Page 1");
}

#[test]
fn configured_username_wins() {
    let name = display_username(
        "custom",
        Some(String::from("osuser")),
        Some(String::from("osname")),
    );
    assert_eq!(name, "custom");
}

#[test]
fn os_user_is_first_fallback() {
    let name = display_username("", Some(String::from("osuser")), Some(String::from("osname")));
    assert_eq!(name, "osuser");
}

#[test]
fn os_username_is_second_fallback() {
    let name = display_username("", None, Some(String::from("osname")));
    assert_eq!(name, "osname");
}

#[test]
fn unknown_user_is_last_resort() {
    assert_eq!(display_username("", None, None), "Unknown User");
}

#[test]
fn short_hash_keeps_seven_characters() {
    assert_eq!(short_hash("0123456789abcdef"), "0123456");
    assert_eq!(short_hash("abc"), "abc");
    assert_eq!(short_hash(""), "");
}

#[test]
fn commit_url_appends_the_hash() {
    assert_eq!(
        commit_url("https://example.org/repo", "deadbeef"),
        "https://example.org/repo/commits/deadbeef"
    );
}

#[test]
fn missing_config_falls_back_to_default() {
    assert!(load_or_default(None).username.is_empty());
    let c = load_or_default(Some(Config { username: String::from("mara") }));
    assert_eq!(c.username, "mara");
    assert_eq!(CONFIG_VERSION, 1);
}

use docklett::config::{config_path, parse_root_path};
use docklett::text::trim_spaces;

#[test]
fn config_file_sits_under_home() {
    assert_eq!(
        config_path("/home/user"),
        "/home/user/.config/docklett.config"
    );
}

#[test]
fn root_path_is_the_trimmed_line() {
    assert_eq!(parse_root_path("/home/user/dock\n"), "/home/user/dock");
    assert_eq!(parse_root_path("  /srv/files \t\r\n"), "/srv/files");
    assert_eq!(parse_root_path("/plain"), "/plain");
}

#[test]
fn trim_handles_empty_and_all_space() {
    assert_eq!(trim_spaces(""), "");
    assert_eq!(trim_spaces(" \n\t "), "");
    assert_eq!(trim_spaces("a b"), "a b");
}

#[test]
fn trim_strips_unicode_whitespace() {
    assert_eq!(parse_root_path("\u{000B}/x\u{000C}"), "/x");
    assert_eq!(parse_root_path("\u{00A0}\u{2003}/y\u{3000}\u{0085}"), "/y");
    // interior whitespace stays
    assert_eq!(trim_spaces("\u{2028}a\u{00A0}b\u{2029}"), "a\u{00A0}b");
}

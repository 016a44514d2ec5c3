use docklett::drop_target::{display_name, handle_drop};

#[test]
fn local_uri_displays_as_path() {
    assert_eq!(display_name("file:///home/u/a.txt"), "/home/u/a.txt");
}

#[test]
fn remote_uri_displays_as_itself() {
    assert_eq!(
        display_name("https://example.org/a.txt"),
        "https://example.org/a.txt"
    );
    assert_eq!(display_name("not a uri"), "not a uri");
}

#[test]
fn drop_reports_each_uri_in_order() {
    let uris = vec![
        "file:///home/u/a.txt".to_string(),
        "https://example.org/b".to_string(),
        "file:///tmp/c.png".to_string(),
    ];
    let report = handle_drop(&uris);
    assert_eq!(
        report,
        vec![
            "/home/u/a.txt".to_string(),
            "https://example.org/b".to_string(),
            "/tmp/c.png".to_string(),
        ]
    );
}

#[test]
fn empty_drop_is_a_noop() {
    let report = handle_drop(&Vec::new());
    assert!(report.is_empty());
}

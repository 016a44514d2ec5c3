use docklett::mime::get_mimetypes;

#[test]
fn resolve_known_extensions() {
    assert_eq!(
        get_mimetypes("apk"),
        "application-vnd.android.package-archive"
    );
    assert_eq!(get_mimetypes("blend"), "application-x-blender");
    assert_eq!(get_mimetypes("dart"), "application-dart");
    assert_eq!(get_mimetypes("mp3"), "audio-x-generic");
    assert_eq!(get_mimetypes("ogg"), "audio-x-generic");
    assert_eq!(get_mimetypes("wav"), "audio-x-generic");
    assert_eq!(get_mimetypes("mkv"), "video-x-generic");
    assert_eq!(get_mimetypes("mp4"), "video-x-generic");
    assert_eq!(get_mimetypes("rs"), "text-x-rust");
}

#[test]
fn resolve_unknown_falls_back() {
    assert_eq!(get_mimetypes("exe"), "text-x-generic");
    assert_eq!(get_mimetypes(""), "text-x-generic");
    assert_eq!(get_mimetypes("tar.gz"), "text-x-generic");
}

#[test]
fn resolve_is_case_sensitive() {
    assert_eq!(get_mimetypes("APK"), "text-x-generic");
    assert_eq!(get_mimetypes("Mp3"), "text-x-generic");
}

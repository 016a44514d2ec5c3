use vstd::prelude::*;
use crate::text::str_eq;

verus! {

/// The icon identifier a file extension resolves to. The table is a
/// fixed piece of data: a handful of known extensions, everything else
/// degrades to the generic text icon. Matching is case-sensitive.
pub open spec fn mime_icon(ext: Seq<char>) -> Seq<char> {
    if ext == "apk"@ {
        "application-vnd.android.package-archive"@
    } else if ext == "blend"@ {
        "application-x-blender"@
    } else if ext == "dart"@ {
        "application-dart"@
    } else if ext == "mp3"@ || ext == "ogg"@ || ext == "wav"@ {
        "audio-x-generic"@
    } else if ext == "mkv"@ || ext == "mp4"@ {
        "video-x-generic"@
    } else if ext == "rs"@ {
        "text-x-rust"@
    } else {
        "text-x-generic"@
    }
}

/// Resolve a file extension to a themed icon identifier. Pure and
/// total: an unknown extension (including the empty string) never
/// fails, it falls back to `"text-x-generic"`.
pub fn get_mimetypes(extension: &str) -> (r: &'static str)
    ensures
        r@ == mime_icon(extension@),
{
    if str_eq(extension, "apk") {
        "application-vnd.android.package-archive"
    } else if str_eq(extension, "blend") {
        "application-x-blender"
    } else if str_eq(extension, "dart") {
        "application-dart"
    } else if str_eq(extension, "mp3") || str_eq(extension, "ogg") || str_eq(extension, "wav") {
        "audio-x-generic"
    } else if str_eq(extension, "mkv") || str_eq(extension, "mp4") {
        "video-x-generic"
    } else if str_eq(extension, "rs") {
        "text-x-rust"
    } else {
        "text-x-generic"
    }
}

/// Every extension of the table resolves to its documented identifier.
pub proof fn lemma_resolve_known()
    ensures
        mime_icon("apk"@) == "application-vnd.android.package-archive"@,
        mime_icon("blend"@) == "application-x-blender"@,
        mime_icon("dart"@) == "application-dart"@,
        mime_icon("mp3"@) == "audio-x-generic"@,
        mime_icon("ogg"@) == "audio-x-generic"@,
        mime_icon("wav"@) == "audio-x-generic"@,
        mime_icon("mkv"@) == "video-x-generic"@,
        mime_icon("mp4"@) == "video-x-generic"@,
        mime_icon("rs"@) == "text-x-rust"@,
{
    reveal_strlit("apk");
    reveal_strlit("blend");
    reveal_strlit("dart");
    reveal_strlit("mp3");
    reveal_strlit("ogg");
    reveal_strlit("wav");
    reveal_strlit("mkv");
    reveal_strlit("mp4");
    reveal_strlit("rs");
    assert("apk"@.len() == 3 && "blend"@.len() == 5 && "dart"@.len() == 4);
    assert("mp3"@.len() == 3 && "ogg"@.len() == 3 && "wav"@.len() == 3);
    assert("mkv"@.len() == 3 && "mp4"@.len() == 3 && "rs"@.len() == 2);
    assert("apk"@[0] == 'a' && "apk"@[1] == 'p' && "apk"@[2] == 'k');
    assert("mp3"@[0] == 'm' && "mp3"@[1] == 'p' && "mp3"@[2] == '3');
    assert("ogg"@[0] == 'o' && "ogg"@[1] == 'g' && "ogg"@[2] == 'g');
    assert("wav"@[0] == 'w' && "wav"@[1] == 'a' && "wav"@[2] == 'v');
    assert("mkv"@[0] == 'm' && "mkv"@[1] == 'k' && "mkv"@[2] == 'v');
    assert("mp4"@[0] == 'm' && "mp4"@[1] == 'p' && "mp4"@[2] == '4');
}

/// Every string outside the table, the empty string included, resolves
/// to the generic fallback identifier.
pub proof fn lemma_resolve_fallback(ext: Seq<char>)
    requires
        ext != "apk"@,
        ext != "blend"@,
        ext != "dart"@,
        ext != "mp3"@,
        ext != "ogg"@,
        ext != "wav"@,
        ext != "mkv"@,
        ext != "mp4"@,
        ext != "rs"@,
    ensures
        mime_icon(ext) == "text-x-generic"@,
{
}

} // verus!

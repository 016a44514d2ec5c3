use vstd::prelude::*;
use crate::text::str_eq;

verus! {

/// A local URI starts with the `file://` scheme prefix.
pub open spec fn has_file_prefix(s: Seq<char>) -> bool {
    s.len() >= 7 && s.subrange(0, 7) == "file://"@
}

/// The filesystem path carried by a `file://` URI: everything after
/// the seven characters of the scheme prefix.
pub open spec fn strip_file_prefix(s: Seq<char>) -> Seq<char> {
    s.subrange(7, s.len() as int)
}

/// The path of a directory entry: the parent path and the entry name,
/// separated by exactly one slash unless the parent already ends in
/// one.
pub open spec fn path_join(root: Seq<char>, name: Seq<char>) -> Seq<char> {
    if root.len() > 0 && root.last() == '/' {
        root + name
    } else {
        root + "/"@ + name
    }
}

/// Whether a string is a `file://`-prefixed URI.
pub fn is_file_uri(s: &str) -> (r: bool)
    ensures
        r == has_file_prefix(s@),
{
    let n = s.unicode_len();
    if n < 7 {
        false
    } else {
        let p = s.substring_char(0, 7);
        str_eq(p, "file://")
    }
}

/// The filesystem path of a `file://` URI, the scheme prefix removed.
pub fn local_path(s: &str) -> (r: String)
    requires
        has_file_prefix(s@),
    ensures
        r@ == strip_file_prefix(s@),
{
    let n = s.unicode_len();
    s.substring_char(7, n).to_owned()
}

/// Prefix a filesystem path with the `file://` scheme.
pub fn make_file_uri(path: &str) -> (r: String)
    ensures
        r@ == "file://"@ + path@,
        has_file_prefix(r@),
        strip_file_prefix(r@) == path@,
{
    let mut r: String = String::from_str("file://");
    r.append(path);
    proof {
        reveal_strlit("file://");
        assert(r@.subrange(0, 7) =~= "file://"@);
        assert(strip_file_prefix(r@) =~= path@);
    }
    r
}

/// Join a parent path and an entry name with a slash.
pub fn join_path(root: &str, name: &str) -> (r: String)
    ensures
        r@ == path_join(root@, name@),
{
    let n = root.unicode_len();
    if n > 0 && root.get_char(n - 1) == '/' {
        let mut r: String = root.to_owned();
        r.append(name);
        r
    } else {
        let mut r: String = root.to_owned();
        r.append("/");
        r.append(name);
        r
    }
}

} // verus!

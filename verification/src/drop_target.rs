use vstd::prelude::*;
use crate::uri::{has_file_prefix, strip_file_prefix, is_file_uri, local_path};

verus! {

/// The display form of one dropped URI: the filesystem path when the
/// resource is local (a `file://` URI), the URI itself otherwise. The
/// characters are kept exactly as they stand: percent-escapes are not
/// decoded, so a path whose bytes were escaped by the sending
/// application displays in its escaped form.
pub open spec fn display_spec(uri: Seq<char>) -> Seq<char> {
    if has_file_prefix(uri) {
        strip_file_prefix(uri)
    } else {
        uri
    }
}

/// Resolve one dropped URI to its display form.
pub fn display_name(uri: &str) -> (r: String)
    ensures
        r@ == display_spec(uri@),
{
    if is_file_uri(uri) {
        local_path(uri)
    } else {
        uri.to_owned()
    }
}

/// Report a received drop: the display form of every URI of the
/// payload, in order. An empty payload (how a malformed one arrives
/// here) yields an empty report — a drop is never an error, and no
/// file is copied.
pub fn handle_drop(uris: &Vec<String>) -> (r: Vec<String>)
    ensures
        r.deep_view() == uris.deep_view().map_values(|u: Seq<char>| display_spec(u)),
{
    let ghost f = |u: Seq<char>| display_spec(u);
    let mut r: Vec<String> = Vec::new();
    let mut i: usize = 0;
    while i < uris.len()
        invariant
            i <= uris@.len(),
            r.deep_view() == uris.deep_view().take(i as int).map_values(f),
            f == (|u: Seq<char>| display_spec(u)),
        decreases uris@.len() - i,
    {
        let ghost pre = r.deep_view();
        let d = display_name(uris[i].as_str());
        r.push(d);
        proof {
            assert(r.deep_view() =~= pre.push(d@));
            assert(r.deep_view() =~= uris.deep_view().take(i as int + 1).map_values(f));
        }
        i = i + 1;
    }
    proof {
        assert(uris.deep_view().take(uris.deep_view().len() as int) =~= uris.deep_view());
    }
    r
}

} // verus!

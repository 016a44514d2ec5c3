use vstd::prelude::*;
use crate::item::{Item, ItemV};
use crate::mime::{mime_icon, get_mimetypes};
use crate::text::str_eq;
use crate::uri::{path_join, join_path, make_file_uri};

verus! {

/// One filesystem directory entry, as listed by the caller: the
/// entry's file name and whether it is a directory.
pub struct DirEntry {
    pub name: String,
    pub is_dir: bool,
}

/// Ghost shape of a directory entry.
#[verifier::ext_equal]
pub struct EntryV {
    pub name: Seq<char>,
    pub is_dir: bool,
}

impl View for DirEntry {
    type V = EntryV;

    open spec fn view(&self) -> EntryV {
        EntryV { name: self.name@, is_dir: self.is_dir }
    }
}

impl DeepView for DirEntry {
    type V = EntryV;

    open spec fn deep_view(&self) -> EntryV {
        self@
    }
}

/// Hidden by convention: the file name starts with a dot.
pub open spec fn hidden(name: Seq<char>) -> bool {
    name.len() > 0 && name[0] == '.'
}

/// Index of the last `'.'` in a name, `-1` if there is none.
pub open spec fn last_dot(name: Seq<char>) -> int
    decreases name.len(),
{
    if name.len() == 0 {
        -1
    } else if name.last() == '.' {
        name.len() - 1
    } else {
        last_dot(name.drop_last())
    }
}

/// The extension of a file name: the part after the last dot, provided
/// that dot is not the leading character. A name without such a dot
/// has no extension.
pub open spec fn extension_of(name: Seq<char>) -> Option<Seq<char>> {
    let i = last_dot(name);
    if i >= 1 {
        Some(name.subrange(i + 1, name.len() as int))
    } else {
        None
    }
}

/// How one visible directory entry is classified: directories become
/// folders; `jpg`/`png` files show as their own thumbnail; every other
/// file gets the themed icon of its extension, or the generic icon if
/// it has none. The URI is always the entry's path behind `file://`.
pub open spec fn classify(root: Seq<char>, e: EntryV) -> ItemV {
    let uri = "file://"@ + path_join(root, e.name);
    if e.is_dir {
        ItemV::Folder { uri }
    } else {
        match extension_of(e.name) {
            Some(ext) => if ext == "jpg"@ || ext == "png"@ {
                ItemV::FileThumbnail { uri }
            } else {
                ItemV::File { uri, icon: mime_icon(ext) }
            },
            None => ItemV::File { uri, icon: "text-x-generic"@ },
        }
    }
}

/// What a scan of `root` produces from the listed entries: hidden
/// entries are dropped, every other entry is classified in listing
/// order.
pub open spec fn scan_spec(root: Seq<char>, entries: Seq<EntryV>) -> Seq<ItemV> {
    entries.filter_map(
        |e: EntryV| if hidden(e.name) {
            None
        } else {
            Some(classify(root, e))
        },
    )
}

/// How many entries of a listing are visible (not hidden).
pub open spec fn visible_count(entries: Seq<EntryV>) -> nat
    decreases entries.len(),
{
    if entries.len() == 0 {
        0
    } else {
        visible_count(entries.drop_last()) + if hidden(entries.last().name) {
            0nat
        } else {
            1nat
        }
    }
}

/// Law: hidden entries contribute nothing to a scan, and every other
/// entry contributes exactly one item.
pub proof fn lemma_scan_len(root: Seq<char>, entries: Seq<EntryV>)
    ensures
        scan_spec(root, entries).len() == visible_count(entries),
    decreases entries.len(),
{
    if entries.len() > 0 {
        lemma_scan_len(root, entries.drop_last());
    }
}

proof fn lemma_last_dot_found(s: Seq<char>, j: int)
    requires
        0 <= j < s.len(),
        s[j] == '.',
        forall|k: int| j < k < s.len() ==> s[k] != '.',
    ensures
        last_dot(s) == j,
    decreases s.len(),
{
    if j < s.len() - 1 {
        assert(forall|k: int| j < k < s.drop_last().len() ==> s.drop_last()[k] != '.');
        lemma_last_dot_found(s.drop_last(), j);
    }
}

proof fn lemma_last_dot_none(s: Seq<char>)
    requires
        forall|k: int| 0 <= k < s.len() ==> s[k] != '.',
    ensures
        last_dot(s) == -1,
    decreases s.len(),
{
    if s.len() > 0 {
        assert(forall|k: int| 0 <= k < s.drop_last().len() ==> s.drop_last()[k] != '.');
        lemma_last_dot_none(s.drop_last());
    }
}

/// Whether a file name is hidden (starts with a dot).
pub fn is_hidden(name: &str) -> (r: bool)
    ensures
        r == hidden(name@),
{
    let n = name.unicode_len();
    n > 0 && name.get_char(0) == '.'
}

/// The extension of a file name, if it has one.
pub fn extension(name: &str) -> (r: Option<String>)
    ensures
        r.deep_view() == extension_of(name@),
{
    let n = name.unicode_len();
    let mut i: usize = n;
    while i > 0
        invariant
            i <= n,
            n == name@.len(),
            forall|k: int| i <= k < n ==> name@[k] != '.',
        decreases i,
    {
        if name.get_char(i - 1) == '.' {
            proof {
                lemma_last_dot_found(name@, i - 1);
            }
            if i >= 2 {
                return Some(name.substring_char(i, n).to_owned());
            } else {
                return None;
            }
        }
        i = i - 1;
    }
    proof {
        lemma_last_dot_none(name@);
    }
    None
}

/// Classify a directory listing into dock items. Entries whose name
/// starts with a dot are skipped; every other entry yields one item in
/// listing order, its URI built as `file://` plus the entry's path
/// under `root`. Pure: the caller lists the directory and hands the
/// entries in.
pub fn scan(root: &str, entries: &Vec<DirEntry>) -> (items: Vec<Item>)
    ensures
        items.deep_view() == scan_spec(root@, entries.deep_view()),
        forall|j: int| 0 <= j < items@.len() ==> (#[trigger] items@[j]).wf(),
{
    let ghost f = |e: EntryV| if hidden(e.name) {
        None
    } else {
        Some(classify(root@, e))
    };
    let mut items: Vec<Item> = Vec::new();
    let mut idx: usize = 0;
    while idx < entries.len()
        invariant
            idx <= entries@.len(),
            items.deep_view() == entries.deep_view().take(idx as int).filter_map(f),
            f == (|e: EntryV| if hidden(e.name) {
                None
            } else {
                Some(classify(root@, e))
            }),
            forall|j: int| 0 <= j < items@.len() ==> (#[trigger] items@[j]).wf(),
        decreases entries@.len() - idx,
    {
        let e = &entries[idx];
        let ghost pre = items.deep_view();
        if !is_hidden(e.name.as_str()) {
            let joined = join_path(root, e.name.as_str());
            let uri = make_file_uri(joined.as_str());
            let item: Item;
            if e.is_dir {
                item = Item::folder(uri);
            } else {
                match extension(e.name.as_str()) {
                    Some(ext) => {
                        if str_eq(ext.as_str(), "jpg") || str_eq(ext.as_str(), "png") {
                            item = Item::file_thumbnail(uri);
                        } else {
                            let icon = get_mimetypes(ext.as_str());
                            item = Item::file(uri, icon.to_owned());
                        }
                    },
                    None => {
                        item = Item::file(uri, "text-x-generic".to_owned());
                    },
                }
            }
            proof {
                assert(item@ == classify(root@, entries.deep_view()[idx as int]));
            }
            items.push(item);
            proof {
                assert(items.deep_view() =~= pre.push(item@));
            }
        }
        proof {
            entries.deep_view().lemma_filter_map_take_succ(f, idx as int);
            assert(items.deep_view() =~= entries.deep_view().take(idx as int + 1).filter_map(f));
        }
        idx = idx + 1;
    }
    proof {
        assert(entries.deep_view().take(entries.deep_view().len() as int) =~= entries.deep_view());
    }
    items
}

} // verus!

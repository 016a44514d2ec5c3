use vstd::prelude::*;
use crate::uri::{has_file_prefix, strip_file_prefix, is_file_uri, local_path};

verus! {

/// Pixel size of dock icons and generated thumbnails.
pub const ICON_SIZE: i32 = 32;

/// The kind of one dock entry. Exactly one variant is active per item;
/// the three file-like variants carry the item's `file://` URI.
pub enum ItemKind {
    /// Trash bin.
    Bin,
    /// Click to open an app.
    App,
    /// A plain file: its URI and the icon identifier of its mimetype.
    File(String, String),
    /// An image file whose own contents serve as its thumbnail.
    FileThumbnail(String),
    /// A sub-directory.
    Folder(String),
}

/// Ghost shape of an item: the same variants over character sequences.
#[verifier::ext_equal]
pub enum ItemV {
    Bin,
    App,
    File { uri: Seq<char>, icon: Seq<char> },
    FileThumbnail { uri: Seq<char> },
    Folder { uri: Seq<char> },
}

/// One entry shown in the dock, classified from a directory listing.
pub struct Item {
    pub kind: ItemKind,
}

impl View for ItemKind {
    type V = ItemV;

    open spec fn view(&self) -> ItemV {
        match self {
            ItemKind::Bin => ItemV::Bin,
            ItemKind::App => ItemV::App,
            ItemKind::File(uri, icon) => ItemV::File { uri: uri@, icon: icon@ },
            ItemKind::FileThumbnail(uri) => ItemV::FileThumbnail { uri: uri@ },
            ItemKind::Folder(uri) => ItemV::Folder { uri: uri@ },
        }
    }
}

impl View for Item {
    type V = ItemV;

    open spec fn view(&self) -> ItemV {
        self.kind@
    }
}

impl DeepView for Item {
    type V = ItemV;

    open spec fn deep_view(&self) -> ItemV {
        self@
    }
}

/// Whether this item kind carries a URI.
pub open spec fn has_uri(v: ItemV) -> bool {
    match v {
        ItemV::Bin | ItemV::App => false,
        _ => true,
    }
}

/// The URI stored in an item, for the kinds that carry one.
pub open spec fn uri_of(v: ItemV) -> Seq<char> {
    match v {
        ItemV::File { uri, .. } => uri,
        ItemV::FileThumbnail { uri } => uri,
        ItemV::Folder { uri } => uri,
        _ => Seq::empty(),
    }
}

/// Error of a URI-dependent operation invoked on an item kind that
/// carries no URI (`Bin`, `App`).
#[derive(Clone, Copy, PartialEq, Eq, Structural, Debug)]
pub enum UriError {
    NoUri,
}

/// The visual representation chosen for an item: a themed icon
/// identifier, or a thumbnail scaled from a source file to a square of
/// the given pixel size.
pub enum IconSpec {
    Theme(String),
    Thumbnail(String, i32),
}

/// Ghost shape of an icon choice.
#[verifier::ext_equal]
pub enum IconSpecV {
    Theme(Seq<char>),
    Thumbnail(Seq<char>, int),
}

impl View for IconSpec {
    type V = IconSpecV;

    open spec fn view(&self) -> IconSpecV {
        match self {
            IconSpec::Theme(id) => IconSpecV::Theme(id@),
            IconSpec::Thumbnail(path, size) => IconSpecV::Thumbnail(path@, *size as int),
        }
    }
}

/// The icon an item renders as: image files show a scaled thumbnail of
/// themselves, sourced from their own path; every other kind shows a
/// themed icon — the file's mimetype icon, `folder`, `user-trash`, or
/// the generic fallback.
pub open spec fn render_spec(v: ItemV) -> IconSpecV {
    match v {
        ItemV::FileThumbnail { uri } => IconSpecV::Thumbnail(
            strip_file_prefix(uri),
            ICON_SIZE as int,
        ),
        ItemV::File { icon, .. } => IconSpecV::Theme(icon),
        ItemV::Folder { .. } => IconSpecV::Theme("folder"@),
        ItemV::Bin => IconSpecV::Theme("user-trash"@),
        ItemV::App => IconSpecV::Theme("text-x-generic"@),
    }
}

impl Item {
    /// Well-formed: every stored URI carries the `file://` prefix.
    pub open spec fn wf(&self) -> bool {
        has_uri(self@) ==> has_file_prefix(uri_of(self@))
    }

    /// A plain file entry; `path` is its `file://` URI and `mimetype`
    /// the icon identifier of its type.
    pub fn file(path: String, mimetype: String) -> (item: Self)
        ensures
            item@ == (ItemV::File { uri: path@, icon: mimetype@ }),
    {
        Item { kind: ItemKind::File(path, mimetype) }
    }

    /// An image file entry; `path` is its `file://` URI.
    pub fn file_thumbnail(path: String) -> (item: Self)
        ensures
            item@ == (ItemV::FileThumbnail { uri: path@ }),
    {
        Item { kind: ItemKind::FileThumbnail(path) }
    }

    /// A sub-directory entry; `path` is its `file://` URI.
    pub fn folder(path: String) -> (item: Self)
        ensures
            item@ == (ItemV::Folder { uri: path@ }),
    {
        Item { kind: ItemKind::Folder(path) }
    }

    /// The kind tag of this item.
    pub fn kind(&self) -> (k: &ItemKind)
        ensures
            k@ == self@,
    {
        &self.kind
    }

    /// Whether this item is a folder.
    pub fn is_folder(&self) -> (r: bool)
        ensures
            r == (self@ is Folder),
    {
        matches!(self.kind, ItemKind::Folder(_))
    }

    /// Runtime check of `wf`, for unverified callers.
    pub fn is_wf(&self) -> (r: bool)
        ensures
            r == self.wf(),
    {
        match &self.kind {
            ItemKind::Bin | ItemKind::App => true,
            ItemKind::File(uri, _) => is_file_uri(uri.as_str()),
            ItemKind::FileThumbnail(uri) => is_file_uri(uri.as_str()),
            ItemKind::Folder(uri) => is_file_uri(uri.as_str()),
        }
    }

    /// Decide the visual representation of this item.
    pub fn render(&self) -> (r: IconSpec)
        requires
            self.wf(),
        ensures
            r@ == render_spec(self@),
    {
        match &self.kind {
            ItemKind::FileThumbnail(uri) => IconSpec::Thumbnail(
                local_path(uri.as_str()),
                ICON_SIZE,
            ),
            ItemKind::File(_, icon) => IconSpec::Theme(icon.clone()),
            ItemKind::Folder(_) => IconSpec::Theme("folder".to_owned()),
            ItemKind::Bin => IconSpec::Theme("user-trash".to_owned()),
            ItemKind::App => IconSpec::Theme("text-x-generic".to_owned()),
        }
    }

    /// The tooltip of an item: its filesystem path, without the URI
    /// scheme. Items without a URI have none.
    pub fn tooltip(&self) -> (r: Result<String, UriError>)
        requires
            self.wf(),
        ensures
            has_uri(self@) ==> (r matches Ok(t) && t@ == strip_file_prefix(uri_of(self@))),
            !has_uri(self@) ==> r == Result::<String, UriError>::Err(UriError::NoUri),
    {
        match &self.kind {
            ItemKind::File(uri, _) => Ok(local_path(uri.as_str())),
            ItemKind::FileThumbnail(uri) => Ok(local_path(uri.as_str())),
            ItemKind::Folder(uri) => Ok(local_path(uri.as_str())),
            ItemKind::Bin | ItemKind::App => Err(UriError::NoUri),
        }
    }

    /// The drag payload this item offers: a URI list holding exactly
    /// its own stored URI. Items without a URI refuse to be dragged.
    pub fn drag_payload(&self) -> (r: Result<Vec<String>, UriError>)
        ensures
            has_uri(self@) ==> (r matches Ok(uris) && uris@.len() == 1 && uris@[0]@ == uri_of(
                self@,
            )),
            !has_uri(self@) ==> r == Result::<Vec<String>, UriError>::Err(UriError::NoUri),
    {
        match &self.kind {
            ItemKind::File(uri, _) => Ok(vec![uri.clone()]),
            ItemKind::FileThumbnail(uri) => Ok(vec![uri.clone()]),
            ItemKind::Folder(uri) => Ok(vec![uri.clone()]),
            ItemKind::Bin | ItemKind::App => Err(UriError::NoUri),
        }
    }
}

/// The per-item fallback when a thumbnail cannot be decoded or a theme
/// lookup fails: the generic text icon. Such failures are swallowed at
/// the item boundary; they never abort a render pass.
pub fn fallback_icon() -> (r: IconSpec)
    ensures
        r@ == IconSpecV::Theme("text-x-generic"@),
{
    IconSpec::Theme("text-x-generic".to_owned())
}

} // verus!

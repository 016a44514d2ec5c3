use vstd::prelude::*;
use crate::item::{Item, ItemKind, uri_of};
use crate::scan::{DirEntry, scan, scan_spec};
use crate::uri::{strip_file_prefix, local_path};

verus! {

/// A screen-space rectangle: a popup surface's position and size.
#[derive(Clone, Copy, PartialEq, Eq, Structural, Debug)]
pub struct Rect {
    pub x: i32,
    pub y: i32,
    pub width: i32,
    pub height: i32,
}

impl Rect {
    /// Whether a point lies inside the rectangle.
    pub open spec fn contains(self, x: int, y: int) -> bool {
        self.x <= x <= self.x + self.width && self.y <= y <= self.y + self.height
    }

    /// Runtime containment check.
    pub fn contains_point(&self, x: i32, y: i32) -> (r: bool)
        ensures
            r == self.contains(x as int, y as int),
    {
        (self.x as i64) <= (x as i64) && (x as i64) <= (self.x as i64) + (self.width as i64)
            && (self.y as i64) <= (y as i64) && (y as i64) <= (self.y as i64)
            + (self.height as i64)
    }
}

/// Whether a button press opens a folder popup: a right-click (button
/// identifier 3) on a folder item, and nothing else.
pub fn opens_popup(item: &Item, button: u32, press: bool) -> (r: bool)
    ensures
        r == (press && button == 3 && (item@ is Folder)),
{
    press && button == 3 && item.is_folder()
}

/// One transient folder submenu: the freshly scanned child items, the
/// popup surface's own rectangle, and whether the surface is still
/// alive. Each right-click creates a fresh instance; nothing survives
/// its close.
pub struct Popup {
    pub items: Vec<Item>,
    pub bounds: Rect,
    pub open: bool,
}

impl Popup {
    /// Open a popup over a folder item: the folder's own directory
    /// listing is classified exactly as a top-level scan would, and
    /// the resulting items belong to a fresh surface at `bounds` (the
    /// windowing side positions it at the pointer). A folder that
    /// cannot be read is handed in as an empty listing: the popup
    /// opens empty instead of failing.
    pub fn open_over(folder: &Item, entries: &Vec<DirEntry>, bounds: Rect) -> (p: Popup)
        requires
            folder@ is Folder,
            folder.wf(),
        ensures
            p.open,
            p.bounds == bounds,
            p.items.deep_view() == scan_spec(
                strip_file_prefix(uri_of(folder@)),
                entries.deep_view(),
            ),
            forall|j: int| 0 <= j < p.items@.len() ==> (#[trigger] p.items@[j]).wf(),
    {
        let uri: &String = match &folder.kind {
            ItemKind::Folder(u) => u,
            _ => vstd::pervasive::unreached(),
        };
        let path = local_path(uri.as_str());
        let items = scan(path.as_str(), entries);
        Popup { items, bounds, open: true }
    }

    /// A pointer-leave on the popup surface: the popup is destroyed
    /// exactly when the reported device position falls outside the
    /// popup's own rectangle — the parent dock's box plays no part, so
    /// a leave that merely crosses into the dock keeps the popup open.
    pub fn on_leave(&mut self, x: i32, y: i32)
        ensures
            final(self).open == (old(self).open && old(self).bounds.contains(
                x as int,
                y as int,
            )),
            final(self).items == old(self).items,
            final(self).bounds == old(self).bounds,
    {
        if !self.bounds.contains_point(x, y) {
            self.open = false;
        }
    }
}

} // verus!

//! Interaction engine of a desktop dock panel: directory-to-item
//! classification, icon resolution, drag-and-drop payloads, the
//! pointer-proximity visibility state machine, and the folder popup
//! lifecycle. Window creation, painting and filesystem access are left
//! to the surrounding binary; everything here is pure and verified.

pub mod config;
pub mod drop_target;
pub mod item;
pub mod mime;
pub mod popup;
pub mod scan;
pub mod text;
pub mod uri;
pub mod visibility;

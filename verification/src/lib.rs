//! The logic of a small desktop template: a tree view that flattens the
//! expanded branches of a tree of files and folders, the decisions of a
//! window that shows an overlay while a global hotkey is held, the drawing of
//! the program's icon, and the desktop entry that registers the program with
//! the XDG desktop portal.

pub mod demo;
pub mod desktop;
pub mod error;
pub mod hotkey;
pub mod icon;
pub mod id_set;
pub mod resize;
pub mod text;
pub mod tree;
pub mod tree_view;

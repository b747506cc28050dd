//! Dock engine for edge-anchored desktop overlay widgets.
//!
//! The library keeps a snapshot of the open application windows in sync with
//! a tiling window manager, decides when the dock is shown or hidden from
//! pointer enter/leave signals (debounced), and plans the launcher strip that
//! a GUI layer renders along a configured screen edge.

pub mod commands;
pub mod config;
pub mod extract;
pub mod icons;
pub mod layout;
pub mod registry;
pub mod render;
pub mod tree;
pub mod visibility;

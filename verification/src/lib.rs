//! Decision logic for a tiling window manager: which layout governs a screen,
//! how a scratchpad program toggles in and out of view, which clients follow
//! the active workspace, and how spawn rules route new clients.

pub mod client_set;
pub mod error;
pub mod geometry;
pub mod hooks;
pub mod layout;
pub mod registry;
pub mod rules;
pub mod scratchpad;
pub mod sticky;
pub mod transform;

//! Core logic of a taskbar-replacement dock.
//!
//! The library tracks the open top-level application windows that deserve a
//! slot in the dock, decides which foreground windows overlap the dock's
//! reserved screen region, computes the screen-edge rectangles the dock
//! reserves from the window manager, and plans the suppression and
//! restoration of the operating system's own taskbar windows.
//!
//! Everything here works on plain values: window identities, rectangles,
//! titles and paths. The surrounding program performs the operating-system
//! queries and mutations and hands their results in; the decisions taken on
//! those values are verified.

pub mod events;
pub mod geometry;
pub mod policy;
pub mod positioner;
pub mod registry;
pub mod taskbar;
pub mod text;
pub mod weg;

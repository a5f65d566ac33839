//! Virtualized grid viewport with a lazy-load scheduler.
//!
//! The crate maps a scrollable viewport position and window geometry onto the
//! subset of grid cells that are currently visible, debounces a polled
//! scroll-position signal into discrete "scroll settled" events, and keeps the
//! per-item bookkeeping that decides which backing assets must be materialized
//! and which are already present or in flight. Rendering, file I/O and the
//! asset decoder itself are external collaborators: a driver feeds plain
//! values in and carries the decisions out.

pub mod debounce;
pub mod geometry;
pub mod slots;
pub mod viewport;

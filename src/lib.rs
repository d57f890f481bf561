//! Drag synchronisation for an interactive map: hit-testing pointer events
//! against point features, moving the dragged point, mirroring it into an
//! authoritative coordinate cache, rebuilding the connecting line and keeping
//! the derived distance up to date.
pub mod geometry;
pub mod store;
pub mod index_map;
pub mod controller;
pub mod consistency;
pub mod config;
pub mod setup;
pub mod algorithms;

//! Reactive control layer of an interactive geometric-shape viewer.
//!
//! The crate mediates between user commands (menu actions, sliders, file
//! selection), a mutable current shape, and the derived artifacts (render
//! meshes, window title, active cross-section) that must stay consistent
//! with it.  It owns the change-driven synchronization pipeline and the
//! cross-section state machine; the shape-manipulation algorithms, mesh
//! tessellation, name rendering and the windowing substrate are external
//! collaborators whose results enter through plain values.

pub mod codec;
pub mod dialog;
pub mod pipeline;
pub mod section;
pub mod session;
pub mod shape;

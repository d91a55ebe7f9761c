//! Core logic of a desktop document-viewer shell: path validation and file
//! loading against a modelled filesystem, launch-argument resolution, the
//! platform-conditional application menu, menu-event routing, and the
//! lifecycle of the singleton settings window.
//!
//! Everything here is plain data and decisions.  The collaborators that the
//! shell drives — the real filesystem, the windowing toolkit, the outbound
//! event channel — are represented as values (`FileSystem`, `WindowRegistry`,
//! `AppState`), so that every rule about them is stated and proved here; the
//! binary around this library performs the probes and effects.

pub mod errors;
pub mod text;
pub mod paths;
pub mod fs_model;
pub mod launch;
pub mod windows;
pub mod menus;
pub mod router;

//! Core of a full-screen terminal text editor: the document buffer,
//! escape-sequence decoder, viewport/cursor geometry, edit-mode state
//! machine and frame renderer, all with verified contracts.
//!
//! Terminal I/O (raw mode, reads, writes) lives outside this crate; the
//! functions here map plain values to plain values.

pub mod document;
pub mod editor;
pub mod escapes;
pub mod handle;
pub mod keys;
pub mod laws;
pub mod render;
pub mod row;
pub mod step;
pub mod terminal;

//! Helpers for running work on an editor's owner thread, and the editing and
//! scripting rules around it: where a buffer edit or a cursor move goes, and how
//! a dotted path is looked up through nested tables.
pub mod async_dispatch;
pub mod buffer;
pub mod error;
pub mod lua;
pub mod text;

//! Depth-first listing of a directory tree, rendered one indented line per entry.
//!
//! The library holds the rules of the listing: which entries are shown, which are
//! opened, in what order they are visited and how a line is drawn. Reading the
//! filesystem is left to the caller, who hands each answer back as a plain value.
mod entry;
mod render;
mod walk;

pub use render::{indented, missing_root_message, render_line};
pub use walk::{Config, Line, Outcome, Visit, Walker};

pub use entry::{is_hidden, EntryKind, Probe};

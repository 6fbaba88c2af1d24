//! Bridge between a shell invocation and a running interactive text editor.
//!
//! The crate plans every editor-side operation of one run: it resolves a run
//! context from options and environment values, selects the files to open and
//! their order, renders the script that creates a split or popup window, and
//! sequences the per-file actions (open, cursor motion, lifecycle hook, user
//! script and command) into one explicit plan that a thin driver executes over
//! the editor's RPC link.

pub mod actions;
pub mod context;
pub mod files;
pub mod lifecycle;
pub mod options;
pub mod orchestrate;
pub mod split;
pub mod text;

pub use options::Options;
pub use options::SplitOptions;

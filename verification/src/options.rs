//! The typed options surface, handed in by the command-line collaborator.

use vstd::prelude::*;

verus! {

/// The eight split-size fields plus the popup flag.
///
/// The four `split_*` counts are ratio "levels": a value `n > 0` asks for a
/// window sized as if `n` successive same-direction splits had already
/// happened; `0` means the field is unset. The four `*_cols` / `*_rows`
/// fields ask for an absolute size in cells.
pub struct SplitOptions {
    pub split_right: u32,
    pub split_left: u32,
    pub split_below: u32,
    pub split_above: u32,
    pub split_right_cols: Option<u32>,
    pub split_left_cols: Option<u32>,
    pub split_below_rows: Option<u32>,
    pub split_above_rows: Option<u32>,
    pub popup: bool,
}

/// How many of the eight sizing fields are set.
pub open spec fn spec_sizing_count(s: SplitOptions) -> int {
    (if s.split_right > 0 { 1int } else { 0 })
    + (if s.split_left > 0 { 1int } else { 0 })
    + (if s.split_below > 0 { 1int } else { 0 })
    + (if s.split_above > 0 { 1int } else { 0 })
    + (if s.split_right_cols is Some { 1int } else { 0 })
    + (if s.split_left_cols is Some { 1int } else { 0 })
    + (if s.split_below_rows is Some { 1int } else { 0 })
    + (if s.split_above_rows is Some { 1int } else { 0 })
}

/// At least one sizing field is set, so a split window is being asked for.
pub open spec fn spec_split_implied(s: SplitOptions) -> bool {
    spec_sizing_count(s) > 0
}

impl SplitOptions {
    /// A request with every sizing field unset.
    pub fn none() -> (r: SplitOptions)
        ensures
            spec_sizing_count(r) == 0,
            !r.popup,
    {
        SplitOptions {
            split_right: 0,
            split_left: 0,
            split_below: 0,
            split_above: 0,
            split_right_cols: None,
            split_left_cols: None,
            split_below_rows: None,
            split_above_rows: None,
            popup: false,
        }
    }
}

/// Every option this crate consumes. Parsing and validation of the raw
/// command line belong to a collaborator; this struct is its typed result.
pub struct Options {
    /// Editor endpoint to connect to; `None` means launch an embedded editor.
    pub address: Option<String>,
    /// Extra editor configuration handed to the launcher.
    pub config: Option<String>,
    /// Explicitly listed files.
    pub files: Vec<String>,
    /// `None`: no recursion flag; `Some(None)`: flag without a value
    /// (defaults to depth 1); `Some(Some(n))`: explicit depth.
    pub recurse_depth: Option<Option<usize>>,
    /// Move the cursor to the end of each opened buffer.
    pub follow: bool,
    /// Forward search pattern.
    pub pattern: Option<String>,
    /// Backward search pattern.
    pub pattern_backwards: Option<String>,
    /// Block until each opened buffer is closed.
    pub keep: bool,
    /// Block until each opened buffer is first written, then delete it.
    pub keep_until_write: bool,
    /// Switch back to the initial window and buffer at the end.
    pub back: bool,
    /// Like `back`, and additionally re-enter insert mode at end of line.
    pub back_restore: bool,
    /// User script to run after each opened file.
    pub lua: Option<String>,
    /// User command to run after each opened file.
    pub command: Option<String>,
    /// Also open files the content probe did not classify as text.
    pub open_non_text: bool,
    /// Split-window request fields.
    pub split: SplitOptions,
}

impl Options {
    /// Whether any split-size field asks for a split window.
    pub fn is_split_implied(&self) -> (r: bool)
        ensures
            r == spec_split_implied(self.split),
    {
        self.split.split_right > 0
        || self.split.split_left > 0
        || self.split.split_below > 0
        || self.split.split_above > 0
        || self.split.split_right_cols.is_some()
        || self.split.split_left_cols.is_some()
        || self.split.split_below_rows.is_some()
        || self.split.split_above_rows.is_some()
    }
}

} // verus!

//! Split and popup window planning: a split request is turned into a concrete
//! layout, and the layout is rendered as the script the editor executes.
//!
//! Planning is pure: no I/O happens here, and an identical request always
//! yields a byte-identical script.

use vstd::prelude::*;

use crate::options::SplitOptions;
use crate::options::spec_sizing_count;
use crate::text::dec_of;
use crate::text::push_dec;

verus! {

/// A malformed split request: the options layer must set exactly one sizing
/// field, so this is a programming-contract violation, not a user error.
#[derive(Debug, PartialEq, Eq, Structural)]
pub enum SplitSpecError {
    /// No sizing field is set.
    NoSizing,
    /// More than one sizing field is set.
    MultipleSizing,
}

/// One extent of the planned window, evaluated against the outer window.
#[derive(Debug, Clone, Copy, PartialEq, Eq, Structural)]
pub enum Dim {
    /// The outer window's full width.
    OuterW,
    /// The outer window's full height.
    OuterH,
    /// The near screen edge.
    Zero,
    /// Width as if `levels` successive vertical splits had already happened.
    RatioW { levels: u32 },
    /// Height as if `levels` successive horizontal splits had already happened.
    RatioH { levels: u32 },
    /// A literal cell count.
    Abs { cells: u32 },
}

/// A floating window: size plus the (row, col) anchor of its top-left corner.
#[derive(Debug, Clone, Copy, PartialEq, Eq, Structural)]
pub struct PopupLayout {
    pub width: Dim,
    pub height: Dim,
    pub row: Dim,
    pub col: Dim,
}

/// A real split: placement direction, split axis and size along that axis.
/// The new window's size on the split axis is fixed against auto-rebalancing.
#[derive(Debug, Clone, Copy, PartialEq, Eq, Structural)]
pub struct SplitLayout {
    /// Place below or to the right of the current window, else above-left.
    pub below_right: bool,
    /// Split vertically (side by side), else horizontally (stacked).
    pub vertical: bool,
    pub size: Dim,
}

/// The planned layout of the one window every opened file lands in.
#[derive(Debug, Clone, Copy, PartialEq, Eq, Structural)]
pub enum Layout {
    Popup(PopupLayout),
    Split(SplitLayout),
}

/// The layout a request asks for, by field priority. Meaningful when exactly
/// one sizing field is set; `plan_layout` guards that contract.
pub open spec fn spec_layout(s: SplitOptions) -> Layout {
    if s.popup {
        Layout::Popup(
            if s.split_right > 0 {
                PopupLayout { width: Dim::RatioW { levels: s.split_right }, height: Dim::OuterH, row: Dim::Zero, col: Dim::OuterW }
            } else if s.split_left > 0 {
                PopupLayout { width: Dim::RatioW { levels: s.split_left }, height: Dim::OuterH, row: Dim::Zero, col: Dim::Zero }
            } else if s.split_below > 0 {
                PopupLayout { width: Dim::OuterW, height: Dim::RatioH { levels: s.split_below }, row: Dim::OuterH, col: Dim::Zero }
            } else if s.split_above > 0 {
                PopupLayout { width: Dim::OuterW, height: Dim::RatioH { levels: s.split_above }, row: Dim::Zero, col: Dim::Zero }
            } else if s.split_right_cols is Some {
                PopupLayout { width: Dim::Abs { cells: s.split_right_cols->0 }, height: Dim::OuterH, row: Dim::Zero, col: Dim::OuterW }
            } else if s.split_left_cols is Some {
                PopupLayout { width: Dim::Abs { cells: s.split_left_cols->0 }, height: Dim::OuterH, row: Dim::Zero, col: Dim::Zero }
            } else if s.split_below_rows is Some {
                PopupLayout { width: Dim::OuterW, height: Dim::Abs { cells: s.split_below_rows->0 }, row: Dim::OuterH, col: Dim::Zero }
            } else {
                PopupLayout { width: Dim::OuterW, height: Dim::Abs { cells: s.split_above_rows->0 }, row: Dim::Zero, col: Dim::Zero }
            },
        )
    } else {
        Layout::Split(
            if s.split_right > 0 {
                SplitLayout { below_right: true, vertical: true, size: Dim::RatioW { levels: s.split_right } }
            } else if s.split_left > 0 {
                SplitLayout { below_right: false, vertical: true, size: Dim::RatioW { levels: s.split_left } }
            } else if s.split_below > 0 {
                SplitLayout { below_right: true, vertical: false, size: Dim::RatioH { levels: s.split_below } }
            } else if s.split_above > 0 {
                SplitLayout { below_right: false, vertical: false, size: Dim::RatioH { levels: s.split_above } }
            } else if s.split_right_cols is Some {
                SplitLayout { below_right: true, vertical: true, size: Dim::Abs { cells: s.split_right_cols->0 } }
            } else if s.split_left_cols is Some {
                SplitLayout { below_right: false, vertical: true, size: Dim::Abs { cells: s.split_left_cols->0 } }
            } else if s.split_below_rows is Some {
                SplitLayout { below_right: true, vertical: false, size: Dim::Abs { cells: s.split_below_rows->0 } }
            } else {
                SplitLayout { below_right: false, vertical: false, size: Dim::Abs { cells: s.split_above_rows->0 } }
            },
        )
    }
}

/// The concrete extent a dimension evaluates to against outer extents
/// `w` x `h`: a ratio of `levels` yields `floor(((outer / 2) * 3) / (levels + 1))`.
pub open spec fn spec_eval_dim(d: Dim, w: u32, h: u32) -> int {
    match d {
        Dim::OuterW => w as int,
        Dim::OuterH => h as int,
        Dim::Zero => 0,
        Dim::RatioW { levels } => ((w as int / 2) * 3) / (levels as int + 1),
        Dim::RatioH { levels } => ((h as int / 2) * 3) / (levels as int + 1),
        Dim::Abs { cells } => cells as int,
    }
}

/// Evaluates one dimension against concrete outer extents.
pub fn eval_dim(d: &Dim, outer_w: u32, outer_h: u32) -> (r: u64)
    ensures
        r as int == spec_eval_dim(*d, outer_w, outer_h),
{
    match *d {
        Dim::OuterW => outer_w as u64,
        Dim::OuterH => outer_h as u64,
        Dim::Zero => 0,
        Dim::RatioW { levels } => ((outer_w as u64 / 2) * 3) / (levels as u64 + 1),
        Dim::RatioH { levels } => ((outer_h as u64 / 2) * 3) / (levels as u64 + 1),
        Dim::Abs { cells } => cells as u64,
    }
}

/// The (width, height, row, col) a popup layout yields for given outer extents.
pub fn popup_geometry(p: &PopupLayout, outer_w: u32, outer_h: u32) -> (r: (u64, u64, u64, u64))
    ensures
        r.0 as int == spec_eval_dim(p.width, outer_w, outer_h),
        r.1 as int == spec_eval_dim(p.height, outer_w, outer_h),
        r.2 as int == spec_eval_dim(p.row, outer_w, outer_h),
        r.3 as int == spec_eval_dim(p.col, outer_w, outer_h),
{
    (
        eval_dim(&p.width, outer_w, outer_h),
        eval_dim(&p.height, outer_w, outer_h),
        eval_dim(&p.row, outer_w, outer_h),
        eval_dim(&p.col, outer_w, outer_h),
    )
}

/// How a dimension is written inside the popup script, where the outer
/// extents are the runtime variables `w` and `h`.
pub open spec fn spec_popup_dim(d: Dim) -> Seq<char> {
    match d {
        Dim::OuterW => "w"@,
        Dim::OuterH => "h"@,
        Dim::Zero => "0"@,
        Dim::RatioW { levels } => "math.floor(((w / 2) * 3) / "@ + dec_of(levels as nat + 1) + ")"@,
        Dim::RatioH { levels } => "math.floor(((h / 2) * 3) / "@ + dec_of(levels as nat + 1) + ")"@,
        Dim::Abs { cells } => dec_of(cells as nat),
    }
}

/// How a size is written inside the quoted split command, where a ratio must
/// be evaluated by the editor after the quote is spliced.
pub open spec fn spec_split_size(d: Dim) -> Seq<char> {
    match d {
        Dim::OuterW => "w"@,
        Dim::OuterH => "h"@,
        Dim::Zero => "0"@,
        Dim::RatioW { levels } => "' .. tostring(math.floor(((w / 2) * 3) / "@ + dec_of(levels as nat + 1) + ")) .. '"@,
        Dim::RatioH { levels } => "' .. tostring(math.floor(((h / 2) * 3) / "@ + dec_of(levels as nat + 1) + ")) .. '"@,
        Dim::Abs { cells } => dec_of(cells as nat),
    }
}

/// The popup script: read the outer extents, open a floating window of the
/// planned geometry, focus it and make it translucent.
pub open spec fn spec_popup_script(p: PopupLayout) -> Seq<char> {
    "local w = vim.api.nvim_win_get_width(0)\nlocal h = vim.api.nvim_win_get_height(0)\nlocal buf = vim.api.nvim_create_buf(true, false)\nlocal win = vim.api.nvim_open_win(buf, true, {\n    relative = 'editor',\n    width = "@
    + spec_popup_dim(p.width)
    + ",\n    height = "@
    + spec_popup_dim(p.height)
    + ",\n    row = "@
    + spec_popup_dim(p.row)
    + ",\n    col = "@
    + spec_popup_dim(p.col)
    + "\n})\nvim.api.nvim_set_current_win(win)\nvim.api.nvim_win_set_option(win, 'winblend', 25)\n"@
}

/// The real-split script: split in the planned direction, sized by an
/// expression evaluated after the split exists, then pin that size.
pub open spec fn spec_split_script(sl: SplitLayout) -> Seq<char> {
    "local prev_win = vim.api.nvim_get_current_win()\nlocal w = vim.api.nvim_win_get_width(prev_win)\nlocal h = vim.api.nvim_win_get_height(prev_win)\nvim.cmd('"@
    + (if sl.below_right { "belowright"@ } else { "aboveleft"@ })
    + " "@
    + spec_split_size(sl.size)
    + (if sl.vertical { "vsplit"@ } else { "split"@ })
    + "')\nlocal buf = vim.api.nvim_create_buf(true, false)\nvim.api.nvim_set_current_buf(buf)\nlocal win = vim.api.nvim_get_current_win()\nvim.api.nvim_win_set_option(win, '"@
    + (if sl.vertical { "winfixwidth"@ } else { "winfixheight"@ })
    + "', true)\n"@
}

/// The script a layout renders to.
pub open spec fn spec_layout_script(l: Layout) -> Seq<char> {
    match l {
        Layout::Popup(p) => spec_popup_script(p),
        Layout::Split(sl) => spec_split_script(sl),
    }
}

/// The script a well-formed request plans to.
pub open spec fn spec_split_command(s: SplitOptions) -> Seq<char> {
    spec_layout_script(spec_layout(s))
}

/// Turns a split request into a layout; exactly one sizing field must be set.
pub fn plan_layout(s: &SplitOptions) -> (r: Result<Layout, SplitSpecError>)
    ensures
        spec_sizing_count(*s) == 0 ==> r == Err::<Layout, SplitSpecError>(SplitSpecError::NoSizing),
        spec_sizing_count(*s) > 1 ==> r == Err::<Layout, SplitSpecError>(SplitSpecError::MultipleSizing),
        spec_sizing_count(*s) == 1 ==> r == Ok::<Layout, SplitSpecError>(spec_layout(*s)),
{
    let mut count: u32 = 0;
    if s.split_right > 0 { count = count + 1; }
    if s.split_left > 0 { count = count + 1; }
    if s.split_below > 0 { count = count + 1; }
    if s.split_above > 0 { count = count + 1; }
    if s.split_right_cols.is_some() { count = count + 1; }
    if s.split_left_cols.is_some() { count = count + 1; }
    if s.split_below_rows.is_some() { count = count + 1; }
    if s.split_above_rows.is_some() { count = count + 1; }
    proof {
        assert(count as int == spec_sizing_count(*s));
    }
    if count == 0 {
        return Err(SplitSpecError::NoSizing);
    }
    if count > 1 {
        return Err(SplitSpecError::MultipleSizing);
    }

    if s.popup {
        if s.split_right > 0 {
            Ok(Layout::Popup(PopupLayout { width: Dim::RatioW { levels: s.split_right }, height: Dim::OuterH, row: Dim::Zero, col: Dim::OuterW }))
        } else if s.split_left > 0 {
            Ok(Layout::Popup(PopupLayout { width: Dim::RatioW { levels: s.split_left }, height: Dim::OuterH, row: Dim::Zero, col: Dim::Zero }))
        } else if s.split_below > 0 {
            Ok(Layout::Popup(PopupLayout { width: Dim::OuterW, height: Dim::RatioH { levels: s.split_below }, row: Dim::OuterH, col: Dim::Zero }))
        } else if s.split_above > 0 {
            Ok(Layout::Popup(PopupLayout { width: Dim::OuterW, height: Dim::RatioH { levels: s.split_above }, row: Dim::Zero, col: Dim::Zero }))
        } else if let Some(c) = s.split_right_cols {
            Ok(Layout::Popup(PopupLayout { width: Dim::Abs { cells: c }, height: Dim::OuterH, row: Dim::Zero, col: Dim::OuterW }))
        } else if let Some(c) = s.split_left_cols {
            Ok(Layout::Popup(PopupLayout { width: Dim::Abs { cells: c }, height: Dim::OuterH, row: Dim::Zero, col: Dim::Zero }))
        } else if let Some(c) = s.split_below_rows {
            Ok(Layout::Popup(PopupLayout { width: Dim::OuterW, height: Dim::Abs { cells: c }, row: Dim::OuterH, col: Dim::Zero }))
        } else {
            let c = s.split_above_rows.unwrap();
            Ok(Layout::Popup(PopupLayout { width: Dim::OuterW, height: Dim::Abs { cells: c }, row: Dim::Zero, col: Dim::Zero }))
        }
    } else {
        if s.split_right > 0 {
            Ok(Layout::Split(SplitLayout { below_right: true, vertical: true, size: Dim::RatioW { levels: s.split_right } }))
        } else if s.split_left > 0 {
            Ok(Layout::Split(SplitLayout { below_right: false, vertical: true, size: Dim::RatioW { levels: s.split_left } }))
        } else if s.split_below > 0 {
            Ok(Layout::Split(SplitLayout { below_right: true, vertical: false, size: Dim::RatioH { levels: s.split_below } }))
        } else if s.split_above > 0 {
            Ok(Layout::Split(SplitLayout { below_right: false, vertical: false, size: Dim::RatioH { levels: s.split_above } }))
        } else if let Some(c) = s.split_right_cols {
            Ok(Layout::Split(SplitLayout { below_right: true, vertical: true, size: Dim::Abs { cells: c } }))
        } else if let Some(c) = s.split_left_cols {
            Ok(Layout::Split(SplitLayout { below_right: false, vertical: true, size: Dim::Abs { cells: c } }))
        } else if let Some(c) = s.split_below_rows {
            Ok(Layout::Split(SplitLayout { below_right: true, vertical: false, size: Dim::Abs { cells: c } }))
        } else {
            let c = s.split_above_rows.unwrap();
            Ok(Layout::Split(SplitLayout { below_right: false, vertical: false, size: Dim::Abs { cells: c } }))
        }
    }
}

/// Appends the popup rendering of one dimension.
fn push_popup_dim(s: &mut String, d: &Dim)
    ensures
        final(s)@ == old(s)@ + spec_popup_dim(*d),
{
    match *d {
        Dim::OuterW => s.append("w"),
        Dim::OuterH => s.append("h"),
        Dim::Zero => s.append("0"),
        Dim::RatioW { levels } => {
            s.append("math.floor(((w / 2) * 3) / ");
            push_dec(s, levels as u64 + 1);
            s.append(")");
        },
        Dim::RatioH { levels } => {
            s.append("math.floor(((h / 2) * 3) / ");
            push_dec(s, levels as u64 + 1);
            s.append(")");
        },
        Dim::Abs { cells } => push_dec(s, cells as u64),
    }
    proof {
        assert(final(s)@ =~= old(s)@ + spec_popup_dim(*d));
    }
}

/// Appends the quoted-command rendering of one size.
fn push_split_size(s: &mut String, d: &Dim)
    ensures
        final(s)@ == old(s)@ + spec_split_size(*d),
{
    match *d {
        Dim::OuterW => s.append("w"),
        Dim::OuterH => s.append("h"),
        Dim::Zero => s.append("0"),
        Dim::RatioW { levels } => {
            s.append("' .. tostring(math.floor(((w / 2) * 3) / ");
            push_dec(s, levels as u64 + 1);
            s.append(")) .. '");
        },
        Dim::RatioH { levels } => {
            s.append("' .. tostring(math.floor(((h / 2) * 3) / ");
            push_dec(s, levels as u64 + 1);
            s.append(")) .. '");
        },
        Dim::Abs { cells } => push_dec(s, cells as u64),
    }
    proof {
        assert(final(s)@ =~= old(s)@ + spec_split_size(*d));
    }
}

/// Renders a layout as the script the editor executes.
pub fn render_layout(l: &Layout) -> (r: String)
    ensures
        r@ == spec_layout_script(*l),
{
    let mut s = String::new();
    match l {
        Layout::Popup(p) => {
            s.append("local w = vim.api.nvim_win_get_width(0)\nlocal h = vim.api.nvim_win_get_height(0)\nlocal buf = vim.api.nvim_create_buf(true, false)\nlocal win = vim.api.nvim_open_win(buf, true, {\n    relative = 'editor',\n    width = ");
            push_popup_dim(&mut s, &p.width);
            s.append(",\n    height = ");
            push_popup_dim(&mut s, &p.height);
            s.append(",\n    row = ");
            push_popup_dim(&mut s, &p.row);
            s.append(",\n    col = ");
            push_popup_dim(&mut s, &p.col);
            s.append("\n})\nvim.api.nvim_set_current_win(win)\nvim.api.nvim_win_set_option(win, 'winblend', 25)\n");
        },
        Layout::Split(sl) => {
            s.append("local prev_win = vim.api.nvim_get_current_win()\nlocal w = vim.api.nvim_win_get_width(prev_win)\nlocal h = vim.api.nvim_win_get_height(prev_win)\nvim.cmd('");
            s.append(if sl.below_right { "belowright" } else { "aboveleft" });
            s.append(" ");
            push_split_size(&mut s, &sl.size);
            s.append(if sl.vertical { "vsplit" } else { "split" });
            s.append("')\nlocal buf = vim.api.nvim_create_buf(true, false)\nvim.api.nvim_set_current_buf(buf)\nlocal win = vim.api.nvim_get_current_win()\nvim.api.nvim_win_set_option(win, '");
            s.append(if sl.vertical { "winfixwidth" } else { "winfixheight" });
            s.append("', true)\n");
        },
    }
    proof {
        assert(s@ =~= spec_layout_script(*l));
    }
    s
}

/// Plans and renders a split request in one step.
pub fn create_split_command(s: &SplitOptions) -> (r: Result<String, SplitSpecError>)
    ensures
        spec_sizing_count(*s) == 0 ==> (r matches Err(e) && e == SplitSpecError::NoSizing),
        spec_sizing_count(*s) > 1 ==> (r matches Err(e) && e == SplitSpecError::MultipleSizing),
        spec_sizing_count(*s) == 1 ==> (r matches Ok(script) && script@ == spec_split_command(*s)),
{
    match plan_layout(s) {
        Ok(l) => Ok(render_layout(&l)),
        Err(e) => Err(e),
    }
}

/// Planning is pure: equal requests always plan the same layout and render
/// byte-identical scripts.
pub proof fn lemma_plan_deterministic(a: SplitOptions, b: SplitOptions)
    requires
        a == b,
    ensures
        spec_layout(a) == spec_layout(b),
        spec_split_command(a) == spec_split_command(b),
{
}

/// Popup ratio geometry: a request of `levels` rightward splits plans a popup
/// whose width is `floor(((w / 2) * 3) / (levels + 1))`, anchored at row `0`
/// and col `w`, spanning the full outer height.
pub proof fn lemma_popup_ratio_right(s: SplitOptions, w: u32, h: u32)
    requires
        s.popup,
        s.split_right > 0,
        spec_sizing_count(s) == 1,
    ensures
        spec_layout(s) == Layout::Popup(PopupLayout {
            width: Dim::RatioW { levels: s.split_right },
            height: Dim::OuterH,
            row: Dim::Zero,
            col: Dim::OuterW,
        }),
        spec_eval_dim(Dim::RatioW { levels: s.split_right }, w, h)
            == ((w as int / 2) * 3) / (s.split_right as int + 1),
        spec_eval_dim(Dim::Zero, w, h) == 0,
        spec_eval_dim(Dim::OuterW, w, h) == w as int,
{
}

/// Popup absolute geometry: a request of `rows` cells below plans a popup
/// whose height is `rows` literally, anchored at row `h` (the outer height,
/// so the popup touches the lower edge) and col `0`, spanning the full width.
pub proof fn lemma_popup_absolute_below(s: SplitOptions, w: u32, h: u32, rows: u32)
    requires
        s.popup,
        s.split_below_rows == Some(rows),
        spec_sizing_count(s) == 1,
    ensures
        spec_layout(s) == Layout::Popup(PopupLayout {
            width: Dim::OuterW,
            height: Dim::Abs { cells: rows },
            row: Dim::OuterH,
            col: Dim::Zero,
        }),
        spec_eval_dim(Dim::Abs { cells: rows }, w, h) == rows as int,
        spec_eval_dim(Dim::OuterH, w, h) == h as int,
        spec_eval_dim(Dim::Zero, w, h) == 0,
{
}

} // verus!

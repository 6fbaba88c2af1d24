//! The narrow capability interface to the editor: everything the run does to
//! it is one of these actions, executed in plan order by a thin driver.

use vstd::prelude::*;

verus! {

/// One editor-side operation. `cmd` fields carry a synchronous editor
/// command, `lua` fields a script snippet; the remaining variants are the
/// driver's own moves (awaiting the lifecycle notification, restoring the
/// window and buffer captured at connect time).
pub enum NvimAction {
    /// Create the one split or popup window every opened file lands in.
    ApplySplit { lua: String },
    /// Open a file buffer by path.
    OpenFile { cmd: String },
    /// Move the cursor: to the end, or to a forward or backward match.
    CursorCommand { cmd: String },
    /// Register the one-shot buffer lifecycle hook.
    RegisterHook { lua: String },
    /// The user's script.
    UserLua { lua: String },
    /// The user's command.
    UserCommand { cmd: String },
    /// Block until one matching lifecycle notification arrives or the
    /// notification channel closes.
    AwaitBufferClose,
    /// Switch back to the window captured at connect time.
    RestoreWindow,
    /// Switch back to the buffer captured at connect time.
    RestoreBuffer,
    /// Re-enter insert mode at end of line.
    RestoreInsert { cmd: String },
}

/// The mathematical shape of an action: the same variants over character
/// sequences.
pub enum ActionView {
    ApplySplit { lua: Seq<char> },
    OpenFile { cmd: Seq<char> },
    CursorCommand { cmd: Seq<char> },
    RegisterHook { lua: Seq<char> },
    UserLua { lua: Seq<char> },
    UserCommand { cmd: Seq<char> },
    AwaitBufferClose,
    RestoreWindow,
    RestoreBuffer,
    RestoreInsert { cmd: Seq<char> },
}

impl View for NvimAction {
    type V = ActionView;

    open spec fn view(&self) -> ActionView {
        match self {
            NvimAction::ApplySplit { lua } => ActionView::ApplySplit { lua: lua@ },
            NvimAction::OpenFile { cmd } => ActionView::OpenFile { cmd: cmd@ },
            NvimAction::CursorCommand { cmd } => ActionView::CursorCommand { cmd: cmd@ },
            NvimAction::RegisterHook { lua } => ActionView::RegisterHook { lua: lua@ },
            NvimAction::UserLua { lua } => ActionView::UserLua { lua: lua@ },
            NvimAction::UserCommand { cmd } => ActionView::UserCommand { cmd: cmd@ },
            NvimAction::AwaitBufferClose => ActionView::AwaitBufferClose,
            NvimAction::RestoreWindow => ActionView::RestoreWindow,
            NvimAction::RestoreBuffer => ActionView::RestoreBuffer,
            NvimAction::RestoreInsert { cmd } => ActionView::RestoreInsert { cmd: cmd@ },
        }
    }
}

/// The views of a plan's actions, in plan order.
pub open spec fn action_views(s: Seq<NvimAction>) -> Seq<ActionView> {
    s.map_values(|a: NvimAction| a@)
}

/// Views distribute over plan concatenation.
pub proof fn lemma_action_views_add(a: Seq<NvimAction>, b: Seq<NvimAction>)
    ensures
        action_views(a + b) == action_views(a) + action_views(b),
{
    assert(action_views(a + b) =~= action_views(a) + action_views(b));
}

} // verus!

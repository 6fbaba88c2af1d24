//! The orchestrator: sequences one run — split first, then every selected
//! file with its per-file actions, then the optional focus restore — into an
//! explicit plan of editor actions.

use vstd::prelude::*;

use crate::actions::ActionView;
use crate::actions::NvimAction;
use crate::actions::action_views;
use crate::actions::lemma_action_views_add;
use crate::context::EnvContext;
use crate::context::FilesUsage;
use crate::context::SplitUsage;
use crate::files::FileToOpen;
use crate::files::spec_kept;
use crate::files::spec_last_modified;
use crate::lifecycle::keep_hook_script;
use crate::lifecycle::spec_keep_script;
use crate::options::Options;
use crate::options::spec_sizing_count;
use crate::split::SplitSpecError;
use crate::split::create_split_command;
use crate::split::spec_split_command;

verus! {

/// The actions one opened file gets: open its buffer; then at most one cursor
/// motion, by priority follow, then forward search, then backward search;
/// then, in a keep mode, the lifecycle hook; then the user's script and
/// command; and finally, in a keep mode, the blocking wait — so the next file
/// is not opened before the notification arrives.
pub open spec fn spec_open_file_actions(
    opt: Options,
    page_id: Seq<char>,
    channel: u64,
    path: Seq<char>,
) -> Seq<ActionView> {
    seq![ActionView::OpenFile { cmd: "e "@ + path }]
    + (if opt.follow {
        seq![ActionView::CursorCommand { cmd: "norm! G"@ }]
    } else if opt.pattern is Some {
        seq![ActionView::CursorCommand { cmd: "norm! /"@ + opt.pattern->0@ }]
    } else if opt.pattern_backwards is Some {
        seq![ActionView::CursorCommand { cmd: "norm! ?"@ + opt.pattern_backwards->0@ }]
    } else {
        Seq::empty()
    })
    + (if opt.keep || opt.keep_until_write {
        seq![ActionView::RegisterHook {
            lua: spec_keep_script(channel as nat, page_id, opt.keep_until_write),
        }]
    } else {
        Seq::empty()
    })
    + (if opt.lua is Some { seq![ActionView::UserLua { lua: opt.lua->0@ }] } else { Seq::empty() })
    + (if opt.command is Some {
        seq![ActionView::UserCommand { cmd: opt.command->0@ }]
    } else {
        Seq::empty()
    })
    + (if opt.keep || opt.keep_until_write {
        seq![ActionView::AwaitBufferClose]
    } else {
        Seq::empty()
    })
}

/// Emits the per-file actions for one candidate.
pub fn open_file(ctx: &EnvContext, channel: u64, f: &FileToOpen) -> (r: Vec<NvimAction>)
    ensures
        action_views(r@) == spec_open_file_actions(ctx.opt, ctx.page_id@, channel, f.path_string@),
{
    let mut r: Vec<NvimAction> = Vec::new();

    let mut cmd = String::new();
    cmd.append("e ");
    cmd.append(f.path_string.as_str());
    r.push(NvimAction::OpenFile { cmd });

    if ctx.opt.follow {
        r.push(NvimAction::CursorCommand { cmd: String::from_str("norm! G") });
    } else if let Some(p) = &ctx.opt.pattern {
        let mut c = String::new();
        c.append("norm! /");
        c.append(p.as_str());
        r.push(NvimAction::CursorCommand { cmd: c });
    } else if let Some(p) = &ctx.opt.pattern_backwards {
        let mut c = String::new();
        c.append("norm! ?");
        c.append(p.as_str());
        r.push(NvimAction::CursorCommand { cmd: c });
    }

    if ctx.opt.keep || ctx.opt.keep_until_write {
        r.push(NvimAction::RegisterHook {
            lua: keep_hook_script(channel, ctx.page_id.as_str(), ctx.opt.keep_until_write),
        });
    }

    if let Some(l) = &ctx.opt.lua {
        r.push(NvimAction::UserLua { lua: l.clone() });
    }

    if let Some(c) = &ctx.opt.command {
        r.push(NvimAction::UserCommand { cmd: c.clone() });
    }

    if ctx.opt.keep || ctx.opt.keep_until_write {
        r.push(NvimAction::AwaitBufferClose);
    }

    proof {
        assert(action_views(r@) =~~= spec_open_file_actions(
            ctx.opt, ctx.page_id@, channel, f.path_string@,
        ));
    }
    r
}

/// The kept candidates, in order: a candidate survives only if the probe
/// classified it as text or non-text files were asked for.
pub open spec fn spec_kept_files(cands: Seq<FileToOpen>, open_non_text: bool) -> Seq<FileToOpen>
    decreases cands.len(),
{
    if cands.len() == 0 {
        Seq::empty()
    } else {
        spec_kept_files(cands.drop_last(), open_non_text)
        + (if spec_kept(cands.last(), open_non_text) { seq![cands.last()] } else { Seq::empty() })
    }
}

/// The files a run opens, in order: under explicit or recursive selection
/// every kept candidate, under latest-modified selection at most the one
/// pick.
pub open spec fn spec_files_to_open(
    usage: FilesUsage,
    cands: Seq<FileToOpen>,
    open_non_text: bool,
) -> Seq<FileToOpen> {
    match usage {
        FilesUsage::LastModifiedFile => match spec_last_modified(cands, open_non_text) {
            None => Seq::empty(),
            Some(k) => seq![cands[k]],
        },
        _ => spec_kept_files(cands, open_non_text),
    }
}

/// The concatenated per-file actions of `files`, in order.
pub open spec fn spec_files_actions(
    opt: Options,
    page_id: Seq<char>,
    channel: u64,
    files: Seq<FileToOpen>,
) -> Seq<ActionView>
    decreases files.len(),
{
    if files.len() == 0 {
        Seq::empty()
    } else {
        spec_files_actions(opt, page_id, channel, files.drop_last())
        + spec_open_file_actions(opt, page_id, channel, files.last().path_string@)
    }
}

/// The one split action, emitted before any file is opened — or nothing when
/// no split applies (in particular whenever no address is set).
pub open spec fn spec_split_prefix(ctx: EnvContext) -> Seq<ActionView> {
    if ctx.split_usage is Enabled {
        seq![ActionView::ApplySplit { lua: spec_split_command(ctx.opt.split) }]
    } else {
        Seq::empty()
    }
}

/// The closing actions: restore the initial window and buffer when asked,
/// and additionally re-enter insert mode at end of line.
pub open spec fn spec_back_actions(opt: Options) -> Seq<ActionView> {
    if opt.back || opt.back_restore {
        seq![ActionView::RestoreWindow, ActionView::RestoreBuffer]
        + (if opt.back_restore {
            seq![ActionView::RestoreInsert { cmd: "norm! A"@ }]
        } else {
            Seq::empty()
        })
    } else {
        Seq::empty()
    }
}

/// The whole run: the split prefix, then every selected file's actions, then
/// the focus restore.
pub open spec fn spec_run_plan(
    ctx: EnvContext,
    channel: u64,
    cands: Seq<FileToOpen>,
) -> Seq<ActionView> {
    spec_split_prefix(ctx)
    + spec_files_actions(ctx.opt, ctx.page_id@, channel,
        spec_files_to_open(ctx.files_usage, cands, ctx.opt.open_non_text))
    + spec_back_actions(ctx.opt)
}

/// Plans the whole run over the already-enumerated candidates.
///
/// `channel` is the RPC channel captured at connect time; `cands` is what the
/// process edge enumerated for the run's selection mode (the explicit list,
/// the working directory's children, or the recursive walk, each already
/// classified). Fails only on a malformed split request.
pub fn open_files(ctx: &EnvContext, channel: u64, cands: &Vec<FileToOpen>) -> (r: Result<
    Vec<NvimAction>,
    SplitSpecError,
>)
    requires
        ctx.files_usage is LastModifiedFile ==> forall|i: int|
            0 <= i < cands@.len() && spec_kept(cands@[i], ctx.opt.open_non_text)
                ==> cands@[i].modified_time is Some,
    ensures
        ctx.split_usage is Enabled && spec_sizing_count(ctx.opt.split) == 0
            ==> r == Err::<Vec<NvimAction>, SplitSpecError>(SplitSpecError::NoSizing),
        ctx.split_usage is Enabled && spec_sizing_count(ctx.opt.split) > 1
            ==> r == Err::<Vec<NvimAction>, SplitSpecError>(SplitSpecError::MultipleSizing),
        ctx.split_usage is Disabled || spec_sizing_count(ctx.opt.split) == 1 ==> (r matches Ok(
            plan,
        ) && action_views(plan@) == spec_run_plan(*ctx, channel, cands@)),
{
    let mut plan: Vec<NvimAction> = Vec::new();

    if matches!(ctx.split_usage, SplitUsage::Enabled) {
        match create_split_command(&ctx.opt.split) {
            Ok(lua) => plan.push(NvimAction::ApplySplit { lua }),
            Err(e) => {
                return Err(e);
            },
        }
    }
    proof {
        assert(action_views(plan@) =~~= spec_split_prefix(*ctx));
    }

    let ghost to_open = spec_files_to_open(ctx.files_usage, cands@, ctx.opt.open_non_text);

    match &ctx.files_usage {
        FilesUsage::LastModifiedFile => {
            match crate::files::select_last_modified(cands, ctx.opt.open_non_text) {
                Some(k) => {
                    proof {
                        crate::files::lemma_last_modified_is_max(cands@, ctx.opt.open_non_text);
                    }
                    let mut block = open_file(ctx, channel, &cands[k]);
                    proof {
                        lemma_action_views_add(plan@, block@);
                        assert(to_open =~= seq![cands@[k as int]]);
                        assert(to_open.drop_last() =~= Seq::<FileToOpen>::empty());
                        assert(spec_files_actions(
                            ctx.opt, ctx.page_id@, channel, Seq::<FileToOpen>::empty(),
                        ) == Seq::<ActionView>::empty());
                        assert(to_open.last() == cands@[k as int]);
                        assert(spec_files_actions(ctx.opt, ctx.page_id@, channel, to_open)
                            =~= action_views(block@));
                    }
                    plan.append(&mut block);
                },
                None => {
                    proof {
                        assert(action_views(plan@) =~= spec_split_prefix(*ctx)
                            + spec_files_actions(ctx.opt, ctx.page_id@, channel, to_open));
                    }
                },
            }
        },
        _ => {
            let n = cands.len();
            let mut i: usize = 0;
            while i < n
                invariant
                    n == cands@.len(),
                    i <= n,
                    action_views(plan@) == spec_split_prefix(*ctx) + spec_files_actions(
                        ctx.opt, ctx.page_id@, channel,
                        spec_kept_files(cands@.take(i as int), ctx.opt.open_non_text),
                    ),
                decreases n - i,
            {
                proof {
                    assert(cands@.take(i as int + 1).drop_last() =~= cands@.take(i as int));
                    assert(cands@.take(i as int + 1).last() == cands@[i as int]);
                }
                let ghost pre_kept = spec_kept_files(cands@.take(i as int), ctx.opt.open_non_text);
                if cands[i].is_text || ctx.opt.open_non_text {
                    let mut block = open_file(ctx, channel, &cands[i]);
                    proof {
                        lemma_action_views_add(plan@, block@);
                        let stepped = spec_kept_files(
                            cands@.take(i as int + 1), ctx.opt.open_non_text,
                        );
                        assert(stepped =~= pre_kept + seq![cands@[i as int]]);
                        assert(stepped.drop_last() =~= pre_kept);
                        assert(stepped.last() == cands@[i as int]);
                    }
                    plan.append(&mut block);
                } else {
                    proof {
                        assert(spec_kept_files(cands@.take(i as int + 1), ctx.opt.open_non_text)
                            =~= pre_kept);
                    }
                }
                i = i + 1;
            }
            proof {
                assert(cands@.take(n as int) =~= cands@);
            }
        },
    }

    proof {
        assert(action_views(plan@) == spec_split_prefix(*ctx) + spec_files_actions(
            ctx.opt, ctx.page_id@, channel, to_open,
        ));
    }

    let ghost before_back = plan@;
    if ctx.opt.back || ctx.opt.back_restore {
        plan.push(NvimAction::RestoreWindow);
        plan.push(NvimAction::RestoreBuffer);
        if ctx.opt.back_restore {
            plan.push(NvimAction::RestoreInsert { cmd: String::from_str("norm! A") });
        }
    }
    proof {
        assert(action_views(plan@) =~~= action_views(before_back) + spec_back_actions(ctx.opt));
        assert(action_views(plan@) =~~= spec_run_plan(*ctx, channel, cands@));
    }
    Ok(plan)
}

/// The shape of one file's block: it begins with the one open action, holds
/// no split action, and in a keep mode it ends with its one blocking wait.
#[verifier::rlimit(60)]
pub proof fn lemma_open_file_block_shape(
    opt: Options,
    page_id: Seq<char>,
    channel: u64,
    path: Seq<char>,
)
    ensures
        ({
            let block = spec_open_file_actions(opt, page_id, channel, path);
            &&& block.len() >= 1
            &&& block[0] == (ActionView::OpenFile { cmd: "e "@ + path })
            &&& forall|i: int| 1 <= i < block.len() ==> !(block[i] is OpenFile)
            &&& forall|i: int| 0 <= i < block.len() ==> !(block[i] is ApplySplit)
            &&& (opt.keep || opt.keep_until_write ==> block.last() == ActionView::AwaitBufferClose)
            &&& forall|i: int| 0 <= i < block.len() && block[i] is AwaitBufferClose
                ==> (opt.keep || opt.keep_until_write) && i == block.len() - 1
        }),
{
}

/// No action of the per-file part is a split action.
pub proof fn lemma_files_actions_no_split(
    opt: Options,
    page_id: Seq<char>,
    channel: u64,
    files: Seq<FileToOpen>,
)
    ensures
        forall|i: int| 0 <= i < spec_files_actions(opt, page_id, channel, files).len()
            ==> !(spec_files_actions(opt, page_id, channel, files)[i] is ApplySplit),
    decreases files.len(),
{
    if files.len() > 0 {
        lemma_files_actions_no_split(opt, page_id, channel, files.drop_last());
        lemma_open_file_block_shape(opt, page_id, channel, files.last().path_string@);
    }
}

/// Without an enabled split — in particular whenever no address is set — the
/// plan applies no split at all, whatever split flags were given.
pub proof fn lemma_no_split_when_disabled(ctx: EnvContext, channel: u64, cands: Seq<FileToOpen>)
    requires
        ctx.split_usage is Disabled,
    ensures
        forall|i: int| 0 <= i < spec_run_plan(ctx, channel, cands).len()
            ==> !(spec_run_plan(ctx, channel, cands)[i] is ApplySplit),
{
    let to_open = spec_files_to_open(ctx.files_usage, cands, ctx.opt.open_non_text);
    lemma_files_actions_no_split(ctx.opt, ctx.page_id@, channel, to_open);
}

/// With a split enabled, the plan applies exactly one split, as its very
/// first action — before any file is opened, so every opened file lands in
/// that one window.
pub proof fn lemma_one_split_first(ctx: EnvContext, channel: u64, cands: Seq<FileToOpen>)
    requires
        ctx.split_usage is Enabled,
    ensures
        ({
            let plan = spec_run_plan(ctx, channel, cands);
            &&& plan.len() >= 1
            &&& plan[0] == (ActionView::ApplySplit { lua: spec_split_command(ctx.opt.split) })
            &&& forall|i: int| 1 <= i < plan.len() ==> !(plan[i] is ApplySplit)
        }),
{
    let to_open = spec_files_to_open(ctx.files_usage, cands, ctx.opt.open_non_text);
    lemma_files_actions_no_split(ctx.opt, ctx.page_id@, channel, to_open);
}

/// Under a keep mode the per-file part serializes openings: its last action
/// is the blocking wait, and between any two open actions stands a wait — the
/// next file is not opened until the previous file's matching lifecycle
/// notification (or the channel closing) has resolved the wait.
pub proof fn lemma_keep_serializes(
    opt: Options,
    page_id: Seq<char>,
    channel: u64,
    files: Seq<FileToOpen>,
)
    requires
        opt.keep || opt.keep_until_write,
    ensures
        ({
            let plan = spec_files_actions(opt, page_id, channel, files);
            &&& (plan.len() > 0 ==> plan.last() == ActionView::AwaitBufferClose)
            &&& forall|i: int, j: int| 0 <= i < j < plan.len()
                && plan[i] is OpenFile && plan[j] is OpenFile
                ==> exists|k: int| i < k < j && #[trigger] plan[k] is AwaitBufferClose
        }),
    decreases files.len(),
{
    let plan = spec_files_actions(opt, page_id, channel, files);
    if files.len() > 0 {
        let pre = spec_files_actions(opt, page_id, channel, files.drop_last());
        let block = spec_open_file_actions(opt, page_id, channel, files.last().path_string@);
        lemma_keep_serializes(opt, page_id, channel, files.drop_last());
        lemma_open_file_block_shape(opt, page_id, channel, files.last().path_string@);
        assert(plan == pre + block);
        assert forall|i: int, j: int| 0 <= i < j < plan.len()
            && plan[i] is OpenFile && plan[j] is OpenFile
            implies exists|k: int| i < k < j && #[trigger] plan[k] is AwaitBufferClose by {
            if j < pre.len() {
                let k = choose|k: int| i < k < j && #[trigger] pre[k] is AwaitBufferClose;
                assert(plan[k] is AwaitBufferClose);
            } else {
                assert(block[j - pre.len()] is OpenFile);
                assert(j == pre.len());
                assert(plan[i] == pre[i]);
                let k = pre.len() - 1;
                assert(pre.last() is AwaitBufferClose);
                assert(plan[k] is AwaitBufferClose);
                assert(i < k < j);
            }
        }
    }
}

} // verus!

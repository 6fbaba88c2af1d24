//! The buffer lifecycle hook: an editor-side one-shot callback that reports
//! back, correlated by the run's token, when the watched event fires.

use vstd::prelude::*;

use crate::text::dec_of;
use crate::text::push_dec;

verus! {

/// The buffer event the hook watches: the first completed write under
/// keep-until-write, otherwise the buffer's deletion.
pub open spec fn spec_hook_event(until_write: bool) -> Seq<char> {
    if until_write {
        "BufWritePost"@
    } else {
        "BufDelete"@
    }
}

/// Under keep-until-write the hook force-deletes the buffer before
/// notifying, so a saved buffer does not stay open; otherwise nothing.
pub open spec fn spec_hook_delete_line(until_write: bool) -> Seq<char> {
    if until_write {
        "            vim.api.nvim_buf_delete(buf, { force = true })\n"@
    } else {
        Seq::empty()
    }
}

/// The hook registration script: a one-shot callback on the current buffer,
/// guarded so an internal failure cannot crash the editor, that still tries
/// to deliver one notification correlated by the run's token.
pub open spec fn spec_keep_script(channel: nat, page_id: Seq<char>, until_write: bool) -> Seq<char> {
    "local buf = vim.api.nvim_get_current_buf()\nvim.api.nvim_create_autocmd('"@
    + spec_hook_event(until_write)
    + "', {\n    buffer = buf,\n    callback = function()\n        pcall(function()\n"@
    + spec_hook_delete_line(until_write)
    + "            vim.rpcnotify("@
    + dec_of(channel)
    + ", 'page_buffer_closed', '"@
    + page_id
    + "')\n        end)\n    end\n})\n"@
}

/// Renders the hook registration script for the connected channel and the
/// run's correlation token.
pub fn keep_hook_script(channel: u64, page_id: &str, until_write: bool) -> (r: String)
    ensures
        r@ == spec_keep_script(channel as nat, page_id@, until_write),
{
    let mut s = String::new();
    s.append("local buf = vim.api.nvim_get_current_buf()\nvim.api.nvim_create_autocmd('");
    if until_write {
        s.append("BufWritePost");
    } else {
        s.append("BufDelete");
    }
    s.append("', {\n    buffer = buf,\n    callback = function()\n        pcall(function()\n");
    if until_write {
        s.append("            vim.api.nvim_buf_delete(buf, { force = true })\n");
    }
    s.append("            vim.rpcnotify(");
    push_dec(&mut s, channel);
    s.append(", 'page_buffer_closed', '");
    s.append(page_id);
    s.append("')\n        end)\n    end\n})\n");
    proof {
        assert(s@ =~= spec_keep_script(channel as nat, page_id@, until_write));
    }
    s
}

/// Under keep-until-write the registered hook body force-deletes the buffer:
/// the delete call stands in the script, right before the notification, while
/// the plain keep script holds no delete at all.
pub proof fn lemma_until_write_hook_deletes(channel: nat, page_id: Seq<char>)
    ensures
        ({
            let script = spec_keep_script(channel, page_id, true);
            let head = "local buf = vim.api.nvim_get_current_buf()\nvim.api.nvim_create_autocmd('"@
                + spec_hook_event(true)
                + "', {\n    buffer = buf,\n    callback = function()\n        pcall(function()\n"@;
            script.subrange(
                head.len() as int,
                head.len() + spec_hook_delete_line(true).len() as int,
            ) == spec_hook_delete_line(true)
        }),
        spec_hook_delete_line(false) == Seq::<char>::empty(),
{
    let script = spec_keep_script(channel, page_id, true);
    let head = "local buf = vim.api.nvim_get_current_buf()\nvim.api.nvim_create_autocmd('"@
        + spec_hook_event(true)
        + "', {\n    buffer = buf,\n    callback = function()\n        pcall(function()\n"@;
    assert(script.subrange(
        head.len() as int,
        head.len() + spec_hook_delete_line(true).len() as int,
    ) =~= spec_hook_delete_line(true));
}

} // verus!

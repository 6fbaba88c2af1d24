use page::actions::NvimAction;
use page::context::enter;
use page::files::explicit_candidates;
use page::files::FileToOpen;
use page::lifecycle::keep_hook_script;
use page::options::Options;
use page::options::SplitOptions;
use page::orchestrate::open_files;

fn base_options() -> Options {
    Options {
        address: None,
        config: None,
        files: Vec::new(),
        recurse_depth: None,
        follow: false,
        pattern: None,
        pattern_backwards: None,
        keep: false,
        keep_until_write: false,
        back: false,
        back_restore: false,
        lua: None,
        command: None,
        open_non_text: false,
        split: SplitOptions::none(),
    }
}

fn open_commands(plan: &[NvimAction]) -> Vec<String> {
    let mut r = Vec::new();
    for a in plan {
        if let NvimAction::OpenFile { cmd } = a {
            r.push(cmd.clone());
        }
    }
    r
}

fn count_splits(plan: &[NvimAction]) -> usize {
    plan.iter()
        .filter(|a| matches!(a, NvimAction::ApplySplit { .. }))
        .count()
}

#[test]
fn explicit_files_without_address_open_in_order_and_split_is_suppressed() {
    let mut opt = base_options();
    opt.files = vec![String::from("a.txt"), String::from("b.txt"), String::from("c.txt")];
    // Split flags are given, but with no address they must be ignored.
    opt.split.split_right = 2;
    let ctx = enter(opt, None, false, String::from("/tmp/np"), String::from("900"));
    assert_eq!(ctx.opt.address, None);

    let cands = explicit_candidates(
        "/work",
        &ctx.opt.files,
        &vec![true, true, true],
    );
    let plan = open_files(&ctx, 1, &cands).unwrap();
    assert_eq!(count_splits(&plan), 0);
    assert_eq!(
        open_commands(&plan),
        vec![
            String::from("e /work/a.txt"),
            String::from("e /work/b.txt"),
            String::from("e /work/c.txt"),
        ]
    );
}

#[test]
fn enabled_split_is_applied_exactly_once_before_any_open() {
    let mut opt = base_options();
    opt.address = Some(String::from("/run/e.sock"));
    opt.recurse_depth = Some(Some(3));
    opt.split.split_below = 1;
    let ctx = enter(opt, None, false, String::from("/tmp/np"), String::from("901"));

    // What a recursive walk would hand in, already classified.
    let cands = vec![
        FileToOpen::new("/work", "sub/deep.txt", true, None),
        FileToOpen::new("/work", "sub", false, None),
        FileToOpen::new("/work", "top.txt", true, None),
    ];
    let plan = open_files(&ctx, 1, &cands).unwrap();
    assert_eq!(count_splits(&plan), 1);
    assert!(matches!(plan[0], NvimAction::ApplySplit { .. }));
    assert_eq!(
        open_commands(&plan),
        vec![String::from("e /work/sub/deep.txt"), String::from("e /work/top.txt")]
    );
}

#[test]
fn keep_mode_waits_before_the_next_open() {
    let mut opt = base_options();
    opt.files = vec![String::from("a.txt"), String::from("b.txt")];
    opt.keep = true;
    let ctx = enter(opt, None, false, String::from("/tmp/np"), String::from("902"));
    let cands = explicit_candidates("/w", &ctx.opt.files, &vec![true, true]);
    let plan = open_files(&ctx, 7, &cands).unwrap();

    let opens: Vec<usize> = plan
        .iter()
        .enumerate()
        .filter(|(_, a)| matches!(a, NvimAction::OpenFile { .. }))
        .map(|(i, _)| i)
        .collect();
    let awaits: Vec<usize> = plan
        .iter()
        .enumerate()
        .filter(|(_, a)| matches!(a, NvimAction::AwaitBufferClose))
        .map(|(i, _)| i)
        .collect();
    assert_eq!(opens.len(), 2);
    // Exactly one wait per opened file, and one stands between the two opens.
    assert_eq!(awaits.len(), 2);
    assert!(opens[0] < awaits[0] && awaits[0] < opens[1] && opens[1] < awaits[1]);

    // The registered hook watches deletion and does not delete by itself.
    let hook = plan.iter().find_map(|a| match a {
        NvimAction::RegisterHook { lua } => Some(lua.clone()),
        _ => None,
    });
    let hook = hook.expect("keep mode must register a hook");
    assert!(hook.contains("BufDelete"));
    assert!(!hook.contains("nvim_buf_delete"));
}

#[test]
fn keep_until_write_hook_deletes_after_first_write() {
    let mut opt = base_options();
    opt.files = vec![String::from("a.txt")];
    opt.keep_until_write = true;
    let ctx = enter(opt, None, false, String::from("/tmp/np"), String::from("903"));
    let cands = explicit_candidates("/w", &ctx.opt.files, &vec![true]);
    let plan = open_files(&ctx, 7, &cands).unwrap();

    let hooks: Vec<&String> = plan
        .iter()
        .filter_map(|a| match a {
            NvimAction::RegisterHook { lua } => Some(lua),
            _ => None,
        })
        .collect();
    assert_eq!(hooks.len(), 1);
    assert!(hooks[0].contains("BufWritePost"));
    assert!(hooks[0].contains("vim.api.nvim_buf_delete(buf, { force = true })"));
    // Exactly one notification is still awaited.
    let awaits = plan
        .iter()
        .filter(|a| matches!(a, NvimAction::AwaitBufferClose))
        .count();
    assert_eq!(awaits, 1);
}

#[test]
fn keep_hook_script_text() {
    let script = keep_hook_script(3, "904", false);
    let expected = "local buf = vim.api.nvim_get_current_buf()\n\
         vim.api.nvim_create_autocmd('BufDelete', {\n    \
             buffer = buf,\n    \
             callback = function()\n        \
                 pcall(function()\n            \
                     vim.rpcnotify(3, 'page_buffer_closed', '904')\n        \
                 end)\n    \
             end\n\
         })\n";
    assert_eq!(script, expected);
}

#[test]
fn keep_hook_script_renders_channel_digits() {
    let script = keep_hook_script(u64::MAX, "id", true);
    assert!(script.contains("vim.rpcnotify(18446744073709551615, 'page_buffer_closed', 'id')"));
    let script = keep_hook_script(0, "id", false);
    assert!(script.contains("vim.rpcnotify(0, 'page_buffer_closed', 'id')"));
}

#[test]
fn cursor_motion_priority() {
    let mut opt = base_options();
    opt.files = vec![String::from("a.txt")];
    opt.follow = true;
    opt.pattern = Some(String::from("needle"));
    opt.pattern_backwards = Some(String::from("haystack"));
    let ctx = enter(opt, None, false, String::from("/tmp/np"), String::from("905"));
    let cands = explicit_candidates("/w", &ctx.opt.files, &vec![true]);
    let plan = open_files(&ctx, 1, &cands).unwrap();

    let cursors: Vec<&String> = plan
        .iter()
        .filter_map(|a| match a {
            NvimAction::CursorCommand { cmd } => Some(cmd),
            _ => None,
        })
        .collect();
    assert_eq!(cursors.len(), 1);
    assert_eq!(cursors[0], "norm! G");
}

#[test]
fn backward_search_without_follow() {
    let mut opt = base_options();
    opt.files = vec![String::from("a.txt")];
    opt.pattern_backwards = Some(String::from("haystack"));
    let ctx = enter(opt, None, false, String::from("/tmp/np"), String::from("906"));
    let cands = explicit_candidates("/w", &ctx.opt.files, &vec![true]);
    let plan = open_files(&ctx, 1, &cands).unwrap();
    let cursors: Vec<&String> = plan
        .iter()
        .filter_map(|a| match a {
            NvimAction::CursorCommand { cmd } => Some(cmd),
            _ => None,
        })
        .collect();
    assert_eq!(cursors, vec!["norm! ?haystack"]);
}

#[test]
fn non_text_files_are_dropped_unless_asked_for() {
    let mut opt = base_options();
    opt.files = vec![String::from("a.txt"), String::from("b.bin")];
    let ctx = enter(opt, None, false, String::from("/tmp/np"), String::from("907"));
    let cands = explicit_candidates("/w", &ctx.opt.files, &vec![true, false]);
    let plan = open_files(&ctx, 1, &cands).unwrap();
    assert_eq!(open_commands(&plan), vec![String::from("e /w/a.txt")]);

    let mut opt = base_options();
    opt.files = vec![String::from("a.txt"), String::from("b.bin")];
    opt.open_non_text = true;
    let ctx = enter(opt, None, false, String::from("/tmp/np"), String::from("907"));
    let cands = explicit_candidates("/w", &ctx.opt.files, &vec![true, false]);
    let plan = open_files(&ctx, 1, &cands).unwrap();
    assert_eq!(
        open_commands(&plan),
        vec![String::from("e /w/a.txt"), String::from("e /w/b.bin")]
    );
}

#[test]
fn last_modified_mode_opens_only_the_pick() {
    let opt = base_options();
    let ctx = enter(opt, None, false, String::from("/tmp/np"), String::from("908"));
    let cands = vec![
        FileToOpen { path_string: String::from("/w/old.txt"), is_text: true, modified_time: Some(10) },
        FileToOpen { path_string: String::from("/w/new.txt"), is_text: true, modified_time: Some(20) },
        FileToOpen { path_string: String::from("/w/mid.txt"), is_text: true, modified_time: Some(15) },
    ];
    let plan = open_files(&ctx, 1, &cands).unwrap();
    assert_eq!(open_commands(&plan), vec![String::from("e /w/new.txt")]);
}

#[test]
fn focus_restore_comes_last() {
    let mut opt = base_options();
    opt.files = vec![String::from("a.txt")];
    opt.back_restore = true;
    let ctx = enter(opt, None, false, String::from("/tmp/np"), String::from("909"));
    let cands = explicit_candidates("/w", &ctx.opt.files, &vec![true]);
    let plan = open_files(&ctx, 1, &cands).unwrap();
    let n = plan.len();
    assert!(n >= 3);
    assert!(matches!(plan[n - 3], NvimAction::RestoreWindow));
    assert!(matches!(plan[n - 2], NvimAction::RestoreBuffer));
    match &plan[n - 1] {
        NvimAction::RestoreInsert { cmd } => assert_eq!(cmd, "norm! A"),
        _ => panic!("expected insert-mode restore last"),
    }
}

#[test]
fn user_lua_and_command_follow_each_open() {
    let mut opt = base_options();
    opt.files = vec![String::from("a.txt")];
    opt.lua = Some(String::from("print('hi')"));
    opt.command = Some(String::from("set number"));
    let ctx = enter(opt, None, false, String::from("/tmp/np"), String::from("910"));
    let cands = explicit_candidates("/w", &ctx.opt.files, &vec![true]);
    let plan = open_files(&ctx, 1, &cands).unwrap();
    assert_eq!(plan.len(), 3);
    assert!(matches!(&plan[0], NvimAction::OpenFile { .. }));
    match &plan[1] {
        NvimAction::UserLua { lua } => assert_eq!(lua, "print('hi')"),
        _ => panic!("expected the user script second"),
    }
    match &plan[2] {
        NvimAction::UserCommand { cmd } => assert_eq!(cmd, "set number"),
        _ => panic!("expected the user command third"),
    }
}

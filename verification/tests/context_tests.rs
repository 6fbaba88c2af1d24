use page::context::enter;
use page::context::warn_if_incompatible_options;
use page::context::FilesUsage;
use page::context::PipeBufferUsage;
use page::context::SplitUsage;
use page::options::Options;
use page::options::SplitOptions;

fn base_options() -> Options {
    Options {
        address: None,
        config: None,
        files: Vec::new(),
        recurse_depth: None,
        follow: false,
        pattern: None,
        pattern_backwards: None,
        keep: false,
        keep_until_write: false,
        back: false,
        back_restore: false,
        lua: None,
        command: None,
        open_non_text: false,
        split: SplitOptions::none(),
    }
}

#[test]
fn address_falls_back_to_environment() {
    let ctx = enter(
        base_options(),
        Some(String::from("/run/editor.sock")),
        false,
        String::from("/tmp/neovim-page"),
        String::from("42100"),
    );
    assert_eq!(ctx.opt.address.as_deref(), Some("/run/editor.sock"));
}

#[test]
fn explicit_address_wins_over_environment() {
    let mut opt = base_options();
    opt.address = Some(String::from("/run/mine.sock"));
    let ctx = enter(
        opt,
        Some(String::from("/run/other.sock")),
        false,
        String::from("/tmp/neovim-page"),
        String::from("42100"),
    );
    assert_eq!(ctx.opt.address.as_deref(), Some("/run/mine.sock"));
}

#[test]
fn empty_address_counts_as_unset() {
    let mut opt = base_options();
    opt.address = Some(String::new());
    let ctx = enter(
        opt,
        None,
        false,
        String::from("/tmp/neovim-page"),
        String::from("42100"),
    );
    assert_eq!(ctx.opt.address, None);

    let ctx = enter(
        base_options(),
        Some(String::new()),
        false,
        String::from("/tmp/neovim-page"),
        String::from("42100"),
    );
    assert_eq!(ctx.opt.address, None);
}

#[test]
fn selection_mode_precedence() {
    let mut opt = base_options();
    opt.files = vec![String::from("a.txt")];
    opt.recurse_depth = Some(Some(2));
    let ctx = enter(opt, None, false, String::from("/t"), String::from("1"));
    assert_eq!(ctx.files_usage, FilesUsage::RecursiveCurrentDir { recurse_depth: 2 });

    let mut opt = base_options();
    opt.files = vec![String::from("a.txt")];
    let ctx = enter(opt, None, false, String::from("/t"), String::from("1"));
    assert_eq!(ctx.files_usage, FilesUsage::FilesProvided);

    let ctx = enter(base_options(), None, false, String::from("/t"), String::from("1"));
    assert_eq!(ctx.files_usage, FilesUsage::LastModifiedFile);
}

#[test]
fn bare_recurse_flag_means_depth_one() {
    let mut opt = base_options();
    opt.recurse_depth = Some(None);
    let ctx = enter(opt, None, false, String::from("/t"), String::from("1"));
    assert_eq!(ctx.files_usage, FilesUsage::RecursiveCurrentDir { recurse_depth: 1 });
}

#[test]
fn split_needs_address_and_flag() {
    let mut opt = base_options();
    opt.address = Some(String::from("/run/e.sock"));
    opt.split.split_right = 1;
    let ctx = enter(opt, None, false, String::from("/t"), String::from("1"));
    assert_eq!(ctx.split_usage, SplitUsage::Enabled);

    let mut opt = base_options();
    opt.split.split_right = 1;
    let ctx = enter(opt, None, false, String::from("/t"), String::from("1"));
    assert_eq!(ctx.split_usage, SplitUsage::Disabled);

    let mut opt = base_options();
    opt.address = Some(String::from("/run/e.sock"));
    let ctx = enter(opt, None, false, String::from("/t"), String::from("1"));
    assert_eq!(ctx.split_usage, SplitUsage::Disabled);
}

#[test]
fn pipe_buffering_follows_stdin() {
    let ctx = enter(base_options(), None, true, String::from("/t"), String::from("77"));
    match ctx.pipe_buf_usage {
        PipeBufferUsage::Enabled { pipe_name } => assert_eq!(pipe_name, "77-read"),
        PipeBufferUsage::Disabled => panic!("expected pipe buffering"),
    }

    let ctx = enter(base_options(), None, false, String::from("/t"), String::from("77"));
    assert!(matches!(ctx.pipe_buf_usage, PipeBufferUsage::Disabled));
}

#[test]
fn warnings_without_address() {
    let mut opt = base_options();
    opt.split.split_left = 1;
    opt.back = true;
    let w = warn_if_incompatible_options(&opt);
    assert_eq!(w.len(), 2);
    assert_eq!(
        w[0],
        "Split (-r -l -u -d -R -L -U -D) is ignored if address (-a or $NVIM) isn't set"
    );
    assert_eq!(
        w[1],
        "Switch back (-b -B) is ignored if address (-a or $NVIM) isn't set"
    );
}

#[test]
fn no_warnings_with_address() {
    let mut opt = base_options();
    opt.address = Some(String::from("/run/e.sock"));
    opt.split.split_left = 1;
    opt.back_restore = true;
    let w = warn_if_incompatible_options(&opt);
    assert!(w.is_empty());
}

use page::options::SplitOptions;
use page::split::create_split_command;
use page::split::plan_layout;
use page::split::popup_geometry;
use page::split::Layout;
use page::split::SplitSpecError;

fn no_split() -> SplitOptions {
    SplitOptions {
        split_right: 0,
        split_left: 0,
        split_below: 0,
        split_above: 0,
        split_right_cols: None,
        split_left_cols: None,
        split_below_rows: None,
        split_above_rows: None,
        popup: false,
    }
}

#[test]
fn popup_right_ratio_script() {
    let mut s = no_split();
    s.popup = true;
    s.split_right = 2;
    let script = create_split_command(&s).unwrap();
    let expected = "local w = vim.api.nvim_win_get_width(0)\n\
         local h = vim.api.nvim_win_get_height(0)\n\
         local buf = vim.api.nvim_create_buf(true, false)\n\
         local win = vim.api.nvim_open_win(buf, true, {\n    \
             relative = 'editor',\n    \
             width = math.floor(((w / 2) * 3) / 3),\n    \
             height = h,\n    \
             row = 0,\n    \
             col = w\n\
         })\n\
         vim.api.nvim_set_current_win(win)\n\
         vim.api.nvim_win_set_option(win, 'winblend', 25)\n";
    assert_eq!(script, expected);
}

#[test]
fn split_below_ratio_script() {
    let mut s = no_split();
    s.split_below = 1;
    let script = create_split_command(&s).unwrap();
    let expected = "local prev_win = vim.api.nvim_get_current_win()\n\
         local w = vim.api.nvim_win_get_width(prev_win)\n\
         local h = vim.api.nvim_win_get_height(prev_win)\n\
         vim.cmd('belowright ' .. tostring(math.floor(((h / 2) * 3) / 2)) .. 'split')\n\
         local buf = vim.api.nvim_create_buf(true, false)\n\
         vim.api.nvim_set_current_buf(buf)\n\
         local win = vim.api.nvim_get_current_win()\n\
         vim.api.nvim_win_set_option(win, 'winfixheight', true)\n";
    assert_eq!(script, expected);
}

#[test]
fn split_left_cols_script() {
    let mut s = no_split();
    s.split_left_cols = Some(45);
    let script = create_split_command(&s).unwrap();
    let expected = "local prev_win = vim.api.nvim_get_current_win()\n\
         local w = vim.api.nvim_win_get_width(prev_win)\n\
         local h = vim.api.nvim_win_get_height(prev_win)\n\
         vim.cmd('aboveleft 45vsplit')\n\
         local buf = vim.api.nvim_create_buf(true, false)\n\
         vim.api.nvim_set_current_buf(buf)\n\
         local win = vim.api.nvim_get_current_win()\n\
         vim.api.nvim_win_set_option(win, 'winfixwidth', true)\n";
    assert_eq!(script, expected);
}

#[test]
fn plan_rejects_empty_request() {
    let s = no_split();
    assert_eq!(create_split_command(&s), Err(SplitSpecError::NoSizing));
}

#[test]
fn plan_rejects_conflicting_request() {
    let mut s = no_split();
    s.split_right = 1;
    s.split_above_rows = Some(10);
    assert_eq!(create_split_command(&s), Err(SplitSpecError::MultipleSizing));
}

#[test]
fn plan_is_deterministic() {
    let mut a = no_split();
    a.popup = true;
    a.split_above = 3;
    let mut b = no_split();
    b.popup = true;
    b.split_above = 3;
    assert_eq!(create_split_command(&a).unwrap(), create_split_command(&b).unwrap());
}

#[test]
fn popup_right_ratio_geometry() {
    let mut s = no_split();
    s.popup = true;
    s.split_right = 2;
    let layout = plan_layout(&s).unwrap();
    let p = match layout {
        Layout::Popup(p) => p,
        Layout::Split(_) => panic!("expected a popup layout"),
    };
    // width = floor(((100 / 2) * 3) / (2 + 1)) = 50; row = 0; col = outer width.
    assert_eq!(popup_geometry(&p, 100, 50), (50, 50, 0, 100));
    // Odd outer width: floor(((99 / 2) * 3) / 3) = floor(147 / 3) = 49.
    assert_eq!(popup_geometry(&p, 99, 50), (49, 50, 0, 99));
}

#[test]
fn popup_below_rows_geometry() {
    let mut s = no_split();
    s.popup = true;
    s.split_below_rows = Some(8);
    let layout = plan_layout(&s).unwrap();
    let p = match layout {
        Layout::Popup(p) => p,
        Layout::Split(_) => panic!("expected a popup layout"),
    };
    // Absolute height 8, anchored at the prior height (row = outer height).
    assert_eq!(popup_geometry(&p, 80, 24), (80, 8, 24, 0));
}

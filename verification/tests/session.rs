use mematlas_rs::app::{App, AppSelectedPane};
use mematlas_rs::handler::{handle_key_events, KeyCode, KeyEvent};
use mematlas_rs::region::{BackingPath, MemoryRegion, Permissions};
use mematlas_rs::ui::render;

fn region(start: u64, pathname: BackingPath) -> MemoryRegion {
    MemoryRegion {
        address: (start, start + 0x1000),
        perms: Permissions { read: true, write: false, execute: false, shared: false, private: true },
        offset: 0,
        dev: (0, 0),
        inode: 0,
        pathname,
        metrics: vec![],
        flags: vec![],
    }
}

fn file(start: u64, path: &str) -> MemoryRegion {
    region(start, BackingPath::Path(path.to_string()))
}

fn regions() -> Vec<MemoryRegion> {
    vec![
        file(0x1000, "/lib/a.so"),
        file(0x2000, "/lib/a.so"),
        region(0x3000, BackingPath::Heap),
        file(0x4000, "/lib/a.so"),
    ]
}

fn press(app: &mut App, code: KeyCode) {
    handle_key_events(KeyEvent { code, control: false }, app);
}

fn type_text(app: &mut App, text: &str) {
    for c in text.chars() {
        press(app, KeyCode::Char(c));
    }
}

/// Ticks and draws until the path pane shows `count` entries.
fn settle(app: &mut App, count: usize) {
    for _ in 0..2000 {
        app.tick();
        render(app);
        if app.path_list_widget().matches().len() == count {
            return;
        }
    }
    panic!("the matcher did not settle on {} entries", count);
}

fn detail(app: &App) -> Option<u64> {
    app.info_widget().selected_segment().map(|r| r.address.0)
}

#[test]
fn a_new_session_starts_in_the_path_pane() {
    let app = App::new(None, regions(), true);
    assert!(app.running());
    assert!(app.debug());
    assert_eq!(app.selected_pane(), AppSelectedPane::Path);
    assert_eq!(app.memory_maps().len(), 3);
    assert!(app.path_list_widget().is_active());
    assert!(!app.segment_list_widget().is_active());
    assert_eq!(app.path_filter_widget().text(), "");
    assert!(app.info_widget().selected_segment().is_none());
    assert!(!app.help_widget().is_toggled());
    assert!(!App::new(None, vec![], false).debug());
}

#[test]
fn the_summary_leads_the_matrix_of_a_session() {
    let app = App::new(Some(region(0x1000, BackingPath::Rollup)), regions(), false);
    assert_eq!(app.memory_maps().len(), 4);
    let first = app.memory_maps().group(0).unwrap();
    assert_eq!(first.len(), 1);
    assert_eq!(first[0].label(), "rollup");
    assert_eq!(app.memory_maps().group(1).unwrap().len(), 2);
}

#[test]
fn the_path_cursor_decides_the_active_group() {
    let mut app = App::new(None, regions(), false);
    settle(&mut app, 3);
    press(&mut app, KeyCode::Char('g'));
    render(&mut app);
    assert_eq!(app.segment_list_widget().group(), Some(0));
    assert_eq!(detail(&app), Some(0x1000));
    press(&mut app, KeyCode::Char('j'));
    render(&mut app);
    assert_eq!(app.path_list_widget().selected(), Some(1));
    assert_eq!(app.segment_list_widget().group(), Some(1));
    assert_eq!(detail(&app), Some(0x3000));
    press(&mut app, KeyCode::Down);
    press(&mut app, KeyCode::Down);
    render(&mut app);
    assert_eq!(app.segment_list_widget().group(), Some(2));
    assert_eq!(detail(&app), Some(0x4000));
    press(&mut app, KeyCode::Char('k'));
    press(&mut app, KeyCode::Up);
    press(&mut app, KeyCode::Up);
    render(&mut app);
    assert_eq!(app.segment_list_widget().group(), Some(0));
    press(&mut app, KeyCode::Char('G'));
    render(&mut app);
    assert_eq!(app.segment_list_widget().group(), Some(2));
}

#[test]
fn the_segment_cursor_moves_in_the_segment_pane() {
    let mut app = App::new(None, regions(), false);
    settle(&mut app, 3);
    press(&mut app, KeyCode::Char('g'));
    render(&mut app);
    press(&mut app, KeyCode::Tab);
    assert_eq!(app.selected_pane(), AppSelectedPane::Segment);
    assert!(app.segment_list_widget().is_active());
    assert!(!app.path_list_widget().is_active());
    press(&mut app, KeyCode::Char('j'));
    assert_eq!(app.segment_list_widget().member(), 1);
    assert_eq!(app.path_list_widget().selected(), Some(0));
    render(&mut app);
    assert_eq!(detail(&app), Some(0x2000));
    press(&mut app, KeyCode::Down);
    assert_eq!(app.segment_list_widget().member(), 0);
    press(&mut app, KeyCode::Char('k'));
    assert_eq!(app.segment_list_widget().member(), 1);
    press(&mut app, KeyCode::Char('g'));
    assert_eq!(app.segment_list_widget().member(), 0);
    press(&mut app, KeyCode::Char('G'));
    assert_eq!(app.segment_list_widget().member(), 1);
    press(&mut app, KeyCode::Up);
    assert_eq!(app.segment_list_widget().member(), 0);
    render(&mut app);
    assert_eq!(app.segment_list_widget().group(), Some(0));
}

#[test]
fn leaving_the_segment_pane_resets_the_member_cursor() {
    let mut app = App::new(None, regions(), false);
    settle(&mut app, 3);
    press(&mut app, KeyCode::Char('g'));
    render(&mut app);
    app.switch_pane();
    press(&mut app, KeyCode::Char('j'));
    assert_eq!(app.segment_list_widget().member(), 1);
    app.switch_pane();
    assert_eq!(app.selected_pane(), AppSelectedPane::Path);
    assert_eq!(app.segment_list_widget().member(), 0);
    assert!(app.path_list_widget().is_active());
    assert!(!app.segment_list_widget().is_active());
}

#[test]
fn a_change_of_the_active_group_resets_the_member_cursor() {
    let mut app = App::new(None, regions(), false);
    settle(&mut app, 3);
    press(&mut app, KeyCode::Char('g'));
    render(&mut app);
    press(&mut app, KeyCode::Tab);
    press(&mut app, KeyCode::Char('j'));
    render(&mut app);
    assert_eq!(app.segment_list_widget().member(), 1);
    // The filter narrows the list while the focus is in the segment pane: the entry
    // under the path cursor is now the heap, a group of one member.
    press(&mut app, KeyCode::Char('/'));
    type_text(&mut app, "heap");
    press(&mut app, KeyCode::Enter);
    settle(&mut app, 1);
    assert_eq!(app.segment_list_widget().group(), Some(1));
    assert_eq!(app.segment_list_widget().member(), 0);
    assert_eq!(detail(&app), Some(0x3000));
}

#[test]
fn a_draw_without_a_change_keeps_the_member_cursor() {
    let mut app = App::new(None, regions(), false);
    settle(&mut app, 3);
    press(&mut app, KeyCode::Char('g'));
    render(&mut app);
    press(&mut app, KeyCode::Tab);
    press(&mut app, KeyCode::Char('j'));
    for _ in 0..5 {
        app.tick();
        render(&mut app);
        assert_eq!(app.segment_list_widget().member(), 1);
        assert_eq!(detail(&app), Some(0x2000));
    }
}

#[test]
fn typing_edits_the_filter_while_the_filter_line_is_open() {
    let mut app = App::new(None, regions(), false);
    press(&mut app, KeyCode::Char('/'));
    assert!(app.path_list_widget().is_toggled());
    type_text(&mut app, "qjkgGhvc");
    assert!(app.running());
    assert_eq!(app.path_filter_widget().text(), "qjkgGhvc");
    press(&mut app, KeyCode::Backspace);
    assert_eq!(app.path_filter_widget().text(), "qjkgGhv");
    press(&mut app, KeyCode::Tab);
    press(&mut app, KeyCode::Esc);
    press(&mut app, KeyCode::Down);
    press(&mut app, KeyCode::Other);
    assert_eq!(app.path_filter_widget().text(), "qjkgGhv");
    assert_eq!(app.selected_pane(), AppSelectedPane::Path);
    assert!(app.running());
    for _ in 0..10 {
        press(&mut app, KeyCode::Backspace);
    }
    assert_eq!(app.path_filter_widget().text(), "");
    type_text(&mut app, "a b");
    press(&mut app, KeyCode::Char('/'));
    assert!(!app.path_list_widget().is_toggled());
    assert_eq!(app.path_filter_widget().text(), "a b");
    press(&mut app, KeyCode::Char('/'));
    press(&mut app, KeyCode::Enter);
    assert!(!app.path_list_widget().is_toggled());
    press(&mut app, KeyCode::Backspace);
    assert_eq!(app.path_filter_widget().text(), "a b");
}

#[test]
fn the_filter_narrows_the_path_pane() {
    let mut app = App::new(None, regions(), false);
    settle(&mut app, 3);
    press(&mut app, KeyCode::Char('/'));
    type_text(&mut app, "heap");
    press(&mut app, KeyCode::Enter);
    settle(&mut app, 1);
    assert_eq!(app.path_list_widget().lines(), vec!["0x3000  heap"]);
    assert_eq!(app.path_list_widget().selected(), Some(0));
    assert_eq!(app.segment_list_widget().group(), Some(1));
    assert_eq!(detail(&app), Some(0x3000));
    press(&mut app, KeyCode::Char('/'));
    for _ in 0..4 {
        press(&mut app, KeyCode::Backspace);
    }
    press(&mut app, KeyCode::Enter);
    settle(&mut app, 3);
    assert_eq!(
        app.path_list_widget().lines(),
        vec!["0x1000  /lib/a.so", "0x3000  heap", "0x4000  /lib/a.so"]
    );
}

#[test]
fn without_a_chosen_entry_the_detail_is_empty() {
    let mut app = App::new(None, regions(), false);
    settle(&mut app, 3);
    press(&mut app, KeyCode::Char('G'));
    render(&mut app);
    assert_eq!(detail(&app), Some(0x4000));
    press(&mut app, KeyCode::Char('/'));
    type_text(&mut app, "no such path");
    press(&mut app, KeyCode::Enter);
    settle(&mut app, 0);
    assert_eq!(app.path_list_widget().selected(), None);
    assert_eq!(app.segment_list_widget().group(), None);
    assert_eq!(app.segment_list_widget().member(), 0);
    assert_eq!(detail(&app), None);
    // The segment pane falls back to the first group.
    assert_eq!(app.segment_list_widget().selected_segment().unwrap().address.0, 0x1000);
}

#[test]
fn a_session_without_regions_has_no_selection() {
    let mut app = App::new(None, vec![], false);
    settle(&mut app, 0);
    for code in [KeyCode::Char('j'), KeyCode::Char('k'), KeyCode::Char('g'), KeyCode::Char('G')] {
        press(&mut app, code);
        press(&mut app, KeyCode::Tab);
        press(&mut app, code);
        render(&mut app);
        assert!(app.segment_list_widget().selected_segment().is_none());
        assert_eq!(app.segment_list_widget().member(), 0);
        assert_eq!(app.path_list_widget().selected(), None);
        assert_eq!(detail(&app), None);
    }
    assert!(app.segment_list_widget().rows().is_empty());
    assert!(app.path_list_widget().lines().is_empty());
}

#[test]
fn quitting_keys_end_the_session() {
    for code in [KeyCode::Esc, KeyCode::Char('q')] {
        let mut app = App::new(None, regions(), false);
        press(&mut app, code);
        assert!(!app.running());
    }
    for c in ['c', 'C'] {
        let mut app = App::new(None, regions(), false);
        press(&mut app, KeyCode::Char(c));
        assert!(app.running());
        handle_key_events(KeyEvent { code: KeyCode::Char(c), control: true }, &mut app);
        assert!(!app.running());
    }
    let mut app = App::new(None, regions(), false);
    handle_key_events(KeyEvent { code: KeyCode::Char('x'), control: true }, &mut app);
    press(&mut app, KeyCode::Enter);
    press(&mut app, KeyCode::Backspace);
    press(&mut app, KeyCode::Other);
    assert!(app.running());
    app.quit();
    assert!(!app.running());
}

#[test]
fn help_keys_open_and_close_the_help_screen() {
    let mut app = App::new(None, regions(), false);
    press(&mut app, KeyCode::Char('v'));
    assert!(!app.help_widget().is_toggled());
    assert!(!app.help_widget().shows_vm_flags());
    press(&mut app, KeyCode::Char('h'));
    assert!(app.help_widget().is_toggled());
    press(&mut app, KeyCode::Char('v'));
    assert!(app.help_widget().shows_vm_flags());
    press(&mut app, KeyCode::Char('v'));
    assert!(!app.help_widget().shows_vm_flags());
    press(&mut app, KeyCode::Char('v'));
    press(&mut app, KeyCode::Char('h'));
    assert!(!app.help_widget().is_toggled());
    assert!(!app.help_widget().shows_vm_flags());
    press(&mut app, KeyCode::Char('h'));
    assert!(app.help_widget().is_toggled());
    assert!(!app.help_widget().shows_vm_flags());
}

#[test]
fn a_tick_changes_nothing_that_is_shown() {
    let mut app = App::new(None, regions(), false);
    settle(&mut app, 3);
    press(&mut app, KeyCode::Char('j'));
    render(&mut app);
    let lines = app.path_list_widget().lines();
    for _ in 0..10 {
        app.tick();
        assert_eq!(app.path_list_widget().lines(), lines);
        assert_eq!(app.path_list_widget().selected(), Some(1));
        assert_eq!(app.segment_list_widget().group(), Some(1));
    }
}

#[test]
fn a_tick_reports_whether_the_matcher_is_at_rest() {
    let mut app = App::new(None, regions(), false);
    let mut rounds = 0;
    while app.tick() {
        rounds += 1;
        assert!(rounds < 2000);
    }
    render(&mut app);
    assert_eq!(
        app.path_list_widget().lines(),
        vec!["0x1000  /lib/a.so", "0x3000  heap", "0x4000  /lib/a.so"]
    );
    press(&mut app, KeyCode::Char('/'));
    type_text(&mut app, "heap");
    press(&mut app, KeyCode::Enter);
    render(&mut app);
    while app.tick() {
        rounds += 1;
        assert!(rounds < 4000);
    }
    render(&mut app);
    assert_eq!(app.path_list_widget().lines(), vec!["0x3000  heap"]);
    for _ in 0..5 {
        assert!(!app.tick());
        render(&mut app);
        assert_eq!(app.path_list_widget().lines(), vec!["0x3000  heap"]);
    }
}

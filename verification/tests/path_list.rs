use mematlas_rs::grouping::RegionMatrix;
use mematlas_rs::path_list::{clamp_selection, PathListWidget};
use mematlas_rs::region::{BackingPath, MemoryRegion, Permissions};
use ratatui::buffer::Buffer;
use ratatui::layout::Rect;
use ratatui::widgets::{List, ListState, StatefulWidget};
use std::rc::Rc;

fn region(start: u64, pathname: BackingPath) -> MemoryRegion {
    MemoryRegion {
        address: (start, start + 0x1000),
        perms: Permissions { read: true, write: false, execute: false, shared: false, private: true },
        offset: 0,
        dev: (0, 0),
        inode: 0,
        pathname,
        metrics: vec![],
        flags: vec![],
    }
}

fn file(start: u64, path: &str) -> MemoryRegion {
    region(start, BackingPath::Path(path.to_string()))
}

fn sample() -> Rc<RegionMatrix> {
    Rc::new(RegionMatrix::new(
        None,
        vec![
            file(0x1000, "/lib/a.so"),
            file(0x2000, "/lib/a.so"),
            region(0x3000, BackingPath::Heap),
            file(0x4000, "/lib/a.so"),
        ],
    ))
}

fn entries(list: &[(usize, u64, &str)]) -> Vec<(usize, u64, String)> {
    list.iter().map(|e| (e.0, e.1, e.2.to_string())).collect()
}

/// Ticks until the pane shows `count` entries, for a bounded number of rounds.
fn settle(widget: &mut PathListWidget, count: usize) {
    for _ in 0..2000 {
        let running = widget.tick();
        widget.refresh();
        if !running && widget.matches().len() == count {
            return;
        }
    }
    panic!("the matcher did not settle on {} entries", count);
}

#[test]
fn every_group_is_registered_in_order() {
    let mut widget = PathListWidget::new(sample());
    settle(&mut widget, 3);
    assert_eq!(
        widget.matches(),
        &entries(&[(0, 0x1000, "/lib/a.so"), (1, 0x3000, "heap"), (2, 0x4000, "/lib/a.so")])
    );
    assert!(widget.is_active());
    assert!(!widget.is_toggled());
}

#[test]
fn the_filter_heap_matches_the_heap_group_only() {
    let mut widget = PathListWidget::new(sample());
    settle(&mut widget, 3);
    widget.filter("heap".to_string());
    settle(&mut widget, 1);
    assert_eq!(widget.matches(), &entries(&[(1, 0x3000, "heap")]));
    widget.go_top();
    assert_eq!(widget.selected(), Some(0));
    assert_eq!(widget.selected_identifiers(), Some(1));
    let members = widget.selected_segments().unwrap();
    assert_eq!(members.len(), 1);
    assert_eq!(members[0].address.0, 0x3000);
}

#[test]
fn the_empty_filter_matches_all_groups_in_order() {
    let mut widget = PathListWidget::new(sample());
    widget.filter("heap".to_string());
    settle(&mut widget, 1);
    widget.filter(String::new());
    settle(&mut widget, 3);
    assert_eq!(
        widget.matches(),
        &entries(&[(0, 0x1000, "/lib/a.so"), (1, 0x3000, "heap"), (2, 0x4000, "/lib/a.so")])
    );
}

#[test]
fn the_filter_is_read_without_regard_to_case() {
    let matrix = Rc::new(RegionMatrix::new(
        None,
        vec![
            file(0x1000, "/usr/lib/LibFoo.so"),
            region(0x2000, BackingPath::Heap),
            region(0x3000, BackingPath::Other("HEAP-like".to_string())),
            region(0x4000, BackingPath::Stack),
        ],
    ));
    let mut widget = PathListWidget::new(matrix);
    widget.filter("HEAP".to_string());
    settle(&mut widget, 2);
    let mut groups: Vec<usize> = widget.matches().iter().map(|e| e.0).collect();
    groups.sort();
    assert_eq!(groups, vec![1, 2]);
    widget.filter("libfoo".to_string());
    settle(&mut widget, 1);
    assert_eq!(widget.matches(), &entries(&[(0, 0x1000, "/usr/lib/LibFoo.so")]));
}

#[test]
fn further_ticks_leave_a_settled_list_as_it_is() {
    let mut widget = PathListWidget::new(sample());
    widget.filter("a.so".to_string());
    settle(&mut widget, 2);
    let settled = widget.matches().clone();
    assert_eq!(settled.iter().map(|e| e.0).collect::<Vec<usize>>(), vec![0, 2]);
    for _ in 0..20 {
        widget.tick();
        widget.refresh();
        assert_eq!(widget.matches(), &settled);
    }
    widget.filter("a.so".to_string());
    for _ in 0..5 {
        widget.tick();
        widget.refresh();
    }
    assert_eq!(widget.matches(), &settled);
}

#[test]
fn a_filter_that_matches_nothing_leaves_no_selection() {
    let mut widget = PathListWidget::new(sample());
    settle(&mut widget, 3);
    widget.go_bottom();
    assert_eq!(widget.selected(), Some(2));
    widget.filter("zzz".to_string());
    settle(&mut widget, 0);
    assert_eq!(widget.selected(), None);
    assert_eq!(widget.selected_identifiers(), None);
    assert!(widget.selected_segments().is_none());
    widget.next();
    assert_eq!(widget.selected(), None);
    widget.previous();
    widget.go_top();
    widget.go_bottom();
    assert_eq!(widget.selected(), None);
    assert!(widget.lines().is_empty());
}

#[test]
fn what_is_shown_changes_only_when_the_snapshot_is_read() {
    let mut widget = PathListWidget::new(sample());
    settle(&mut widget, 3);
    widget.filter("heap".to_string());
    assert_eq!(widget.matches().len(), 3);
    for _ in 0..50 {
        widget.tick();
    }
    assert_eq!(widget.matches().len(), 3);
    settle(&mut widget, 1);
}

#[test]
fn an_empty_matrix_shows_nothing() {
    let mut widget = PathListWidget::new(Rc::new(RegionMatrix::new(None, vec![])));
    settle(&mut widget, 0);
    assert_eq!(widget.selected(), None);
    assert_eq!(widget.selected_identifiers(), None);
    widget.next();
    assert_eq!(widget.selected(), None);
}

#[test]
fn the_summary_is_registered_first() {
    let matrix = Rc::new(RegionMatrix::new(
        Some(region(0x1000, BackingPath::Rollup)),
        vec![file(0x1000, "/bin/cat"), region(0x9000, BackingPath::Stack)],
    ));
    let mut widget = PathListWidget::new(matrix);
    settle(&mut widget, 3);
    assert_eq!(
        widget.matches(),
        &entries(&[(0, 0x1000, "rollup"), (1, 0x1000, "/bin/cat"), (2, 0x9000, "stack")])
    );
}

#[test]
fn the_cursor_moves_within_the_entries_shown() {
    let mut widget = PathListWidget::new(sample());
    widget.show(entries(&[(0, 1, "a"), (1, 2, "b"), (2, 3, "c")]));
    widget.go_top();
    assert_eq!(widget.selected(), Some(0));
    widget.previous();
    assert_eq!(widget.selected(), Some(0));
    widget.next();
    assert_eq!(widget.selected(), Some(1));
    widget.next();
    assert_eq!(widget.selected(), Some(2));
    widget.next();
    assert_eq!(widget.selected(), Some(2));
    widget.previous();
    assert_eq!(widget.selected(), Some(1));
    widget.go_bottom();
    assert_eq!(widget.selected(), Some(2));
    widget.go_top();
    assert_eq!(widget.selected(), Some(0));
}

#[test]
fn showing_fewer_entries_pulls_the_cursor_back() {
    let mut widget = PathListWidget::new(sample());
    widget.show(entries(&[(0, 1, "a"), (1, 2, "b"), (2, 3, "c")]));
    widget.go_bottom();
    widget.show(entries(&[(2, 3, "c"), (0, 1, "a")]));
    assert_eq!(widget.selected(), Some(1));
    assert_eq!(widget.selected_identifiers(), Some(0));
    widget.show(entries(&[(1, 2, "b")]));
    assert_eq!(widget.selected(), Some(0));
    assert_eq!(widget.selected_identifiers(), Some(1));
    widget.show(vec![]);
    assert_eq!(widget.selected(), None);
    widget.show(entries(&[(0, 1, "a")]));
    assert_eq!(widget.selected(), None);
    widget.next();
    assert_eq!(widget.selected(), Some(0));
    widget.show(vec![]);
    widget.show(entries(&[(0, 1, "a"), (1, 2, "b")]));
    widget.previous();
    assert_eq!(widget.selected(), Some(1));
}

#[test]
fn the_active_group_is_the_group_of_the_entry_not_its_position() {
    let mut widget = PathListWidget::new(sample());
    widget.show(entries(&[(2, 0x4000, "/lib/a.so"), (0, 0x1000, "/lib/a.so")]));
    widget.go_top();
    assert_eq!(widget.selected_identifiers(), Some(2));
    assert_eq!(widget.selected_segments().unwrap()[0].address.0, 0x4000);
    widget.next();
    assert_eq!(widget.selected_identifiers(), Some(0));
    assert_eq!(widget.selected_segments().unwrap().len(), 2);
}

#[test]
fn an_entry_for_a_group_that_does_not_exist_chooses_nothing() {
    let mut widget = PathListWidget::new(sample());
    widget.show(entries(&[(3, 1, "x"), (usize::MAX, 2, "y"), (1, 3, "heap")]));
    widget.go_top();
    assert_eq!(widget.selected_identifiers(), None);
    assert!(widget.selected_segments().is_none());
    widget.next();
    assert_eq!(widget.selected_identifiers(), None);
    widget.next();
    assert_eq!(widget.selected_identifiers(), Some(1));
}

#[test]
fn lines_show_the_address_and_the_label() {
    let mut widget = PathListWidget::new(sample());
    settle(&mut widget, 3);
    assert_eq!(widget.lines(), vec!["0x1000  /lib/a.so", "0x3000  heap", "0x4000  /lib/a.so"]);
    widget.show(entries(&[(0, 0, ""), (1, u64::MAX, "x y")]));
    assert_eq!(widget.lines(), vec!["0x0  ", "0xffffffffffffffff  x y"]);
}

#[test]
fn the_filter_line_and_the_focus_toggle() {
    let mut widget = PathListWidget::new(sample());
    widget.toggle();
    assert!(widget.is_toggled());
    widget.toggle();
    assert!(!widget.is_toggled());
    widget.active_pane(false);
    assert!(!widget.is_active());
    widget.active_pane(true);
    assert!(widget.is_active());
}

#[test]
fn clamp_selection_keeps_the_cursor_in_the_list() {
    assert_eq!(clamp_selection(None, 0), None);
    assert_eq!(clamp_selection(None, 5), None);
    assert_eq!(clamp_selection(Some(0), 0), None);
    assert_eq!(clamp_selection(Some(0), 1), Some(0));
    assert_eq!(clamp_selection(Some(4), 5), Some(4));
    assert_eq!(clamp_selection(Some(5), 5), Some(4));
    assert_eq!(clamp_selection(Some(usize::MAX), 5), Some(4));
    assert_eq!(clamp_selection(Some(usize::MAX), usize::MAX), Some(usize::MAX - 1));
}

/// What a list of the terminal library selects after a move and a drawing.
fn drawn(count: usize, selected: Option<usize>, step: usize) -> Option<usize> {
    let mut state = ListState::default().with_selected(selected);
    match step {
        0 => state.select_next(),
        1 => state.select_previous(),
        2 => state.select_first(),
        _ => state.select_last(),
    }
    let list = List::new((0..count).map(|i| format!("{}", i)));
    let area = Rect::new(0, 0, 20, 10);
    let mut buffer = Buffer::empty(area);
    StatefulWidget::render(list, area, &mut buffer, &mut state);
    state.selected()
}

#[test]
fn the_cursor_moves_as_a_drawn_list_does() {
    for count in 0..5usize {
        let mut starts = vec![None];
        starts.extend((0..count).map(Some));
        for start in starts {
            for step in 0..4usize {
                let mut widget = PathListWidget::new(sample());
                widget.show((0..count).map(|i| (i, i as u64, format!("{}", i))).collect());
                widget.go_top();
                match start {
                    Some(s) => {
                        for _ in 0..s {
                            widget.next();
                        }
                    }
                    None => widget.show(vec![]),
                }
                if start.is_none() {
                    widget.show((0..count).map(|i| (i, i as u64, format!("{}", i))).collect());
                }
                assert_eq!(widget.selected(), start);
                match step {
                    0 => widget.next(),
                    1 => widget.previous(),
                    2 => widget.go_top(),
                    _ => widget.go_bottom(),
                }
                assert_eq!(widget.selected(), drawn(count, start, step));
            }
        }
    }
}

#[test]
fn a_label_beyond_ascii_is_registered_and_matched() {
    let matrix = Rc::new(RegionMatrix::new(
        None,
        vec![
            file(0x1000, "/tmp/\u{e9}t\u{e9}/lib.so"),
            region(0x2000, BackingPath::Other("\u{4f60}\u{597d}".to_string())),
            region(0x3000, BackingPath::Heap),
        ],
    ));
    let mut widget = PathListWidget::new(matrix);
    settle(&mut widget, 3);
    assert_eq!(
        widget.lines(),
        vec!["0x1000  /tmp/\u{e9}t\u{e9}/lib.so", "0x2000  \u{4f60}\u{597d}", "0x3000  heap"]
    );
    widget.filter("lib".to_string());
    settle(&mut widget, 1);
    assert_eq!(widget.matches()[0].0, 0);
    widget.filter("\u{e9}".to_string());
    for _ in 0..20 {
        widget.tick();
        widget.refresh();
    }
    assert!(widget.matches().len() <= 1);
    widget.filter("heap".to_string());
    settle(&mut widget, 1);
    assert_eq!(widget.matches()[0].0, 2);
}

/// Ticks until the matcher reports that it is no longer at work.
fn until_done(widget: &mut PathListWidget) {
    for _ in 0..2000 {
        if !widget.tick() {
            return;
        }
    }
    panic!("the matcher did not come to rest");
}

#[test]
fn a_matcher_at_rest_has_caught_up_with_the_filter() {
    let mut widget = PathListWidget::new(sample());
    until_done(&mut widget);
    widget.refresh();
    assert_eq!(
        widget.matches(),
        &entries(&[(0, 0x1000, "/lib/a.so"), (1, 0x3000, "heap"), (2, 0x4000, "/lib/a.so")])
    );
    for filter in ["heap", "HEAP", "a.so", "zzz", "", "lib", "h"] {
        widget.filter(filter.to_string());
        until_done(&mut widget);
        widget.refresh();
        let first = widget.matches().clone();
        let expected: Vec<usize> = match filter {
            "heap" | "HEAP" | "h" => vec![1],
            "a.so" | "lib" => vec![0, 2],
            "" => vec![0, 1, 2],
            _ => vec![],
        };
        assert_eq!(first.iter().map(|e| e.0).collect::<Vec<usize>>(), expected);
        // Further ticks of a matcher at rest leave the snapshot as it is.
        for _ in 0..10 {
            assert!(!widget.tick());
            widget.refresh();
            assert_eq!(widget.matches(), &first);
        }
    }
}

#[test]
fn with_the_empty_filter_a_matcher_at_rest_shows_every_group_in_order() {
    let labels = ["zeta", "alpha", "mid", "alpha", "b", "a-very-long-label", "b"];
    let regions: Vec<MemoryRegion> =
        labels.iter().enumerate().map(|(i, l)| file(0x1000 * (i as u64 + 1), l)).collect();
    let mut widget = PathListWidget::new(Rc::new(RegionMatrix::new(None, regions)));
    until_done(&mut widget);
    widget.refresh();
    let lines: Vec<String> = labels
        .iter()
        .enumerate()
        .map(|(i, l)| format!("{:#x}  {}", 0x1000 * (i as u64 + 1), l))
        .collect();
    assert_eq!(widget.lines(), lines);
    assert_eq!(widget.matches().iter().map(|e| e.0).collect::<Vec<usize>>(), vec![0, 1, 2, 3, 4, 5, 6]);
    widget.filter("alpha".to_string());
    until_done(&mut widget);
    widget.refresh();
    assert_eq!(widget.matches().iter().map(|e| e.0).collect::<Vec<usize>>(), vec![1, 3]);
    widget.filter(String::new());
    until_done(&mut widget);
    widget.refresh();
    assert_eq!(widget.lines(), lines);
}

#[test]
fn matchers_over_the_same_groups_and_filter_come_to_the_same_rest() {
    let mut first = PathListWidget::new(sample());
    let mut second = PathListWidget::new(sample());
    first.filter("so".to_string());
    second.filter("heap".to_string());
    until_done(&mut second);
    second.filter("so".to_string());
    until_done(&mut first);
    until_done(&mut second);
    first.refresh();
    second.refresh();
    assert_eq!(first.matches(), second.matches());
    assert_eq!(first.matches().len(), 2);
}

#[test]
fn the_matcher_takes_as_many_entries_as_its_store_counts() {
    assert_eq!(mematlas_rs::search::SEARCH_CAPACITY as u64, u32::MAX as u64 - 32);
}

#[test]
fn a_matcher_at_rest_lists_no_group_twice() {
    let labels = ["a", "ab", "abc", "b", "ab", "a", "abc", "ba"];
    let mut regions = Vec::new();
    for (i, label) in labels.iter().enumerate() {
        regions.push(file(0x1000 * (i as u64 + 1), label));
    }
    let mut widget = PathListWidget::new(Rc::new(RegionMatrix::new(None, regions)));
    for filter in ["", "a", "b", "ab", "abc", "c", "A", "AB", "x"] {
        widget.filter(filter.to_string());
        until_done(&mut widget);
        widget.refresh();
        let mut groups: Vec<usize> = widget.matches().iter().map(|e| e.0).collect();
        let count = groups.len();
        groups.sort();
        groups.dedup();
        assert_eq!(groups.len(), count);
        let lower = filter.to_lowercase();
        let expected: Vec<usize> = (0..labels.len())
            .filter(|g| {
                let mut rest = labels[*g].chars();
                lower.chars().all(|c| rest.any(|l| l == c))
            })
            .collect();
        assert_eq!(groups, expected);
    }
}

#[test]
fn the_case_of_the_filter_does_not_change_the_snapshot() {
    let matrix = Rc::new(RegionMatrix::new(
        None,
        vec![
            file(0x1000, "/usr/lib/LibFoo.so"),
            region(0x2000, BackingPath::Heap),
            file(0x3000, "/usr/lib/libfoo.so"),
            region(0x4000, BackingPath::Other("FOO".to_string())),
        ],
    ));
    let mut small = PathListWidget::new(matrix.clone());
    let mut capital = PathListWidget::new(matrix);
    for (one, other) in [("foo", "FOO"), ("lib foo", "LIB Foo"), ("heap", "hEAP"), ("so$", "SO$")] {
        small.filter(one.to_string());
        capital.filter(other.to_string());
        until_done(&mut small);
        until_done(&mut capital);
        small.refresh();
        capital.refresh();
        assert_eq!(small.matches(), capital.matches());
        assert!(!small.matches().is_empty());
    }
}

#[test]
fn a_matcher_at_rest_stays_at_rest_until_the_filter_changes() {
    let mut widget = PathListWidget::new(sample());
    until_done(&mut widget);
    widget.refresh();
    let shown = widget.matches().clone();
    for _ in 0..50 {
        assert!(!widget.tick());
    }
    widget.filter(String::new());
    assert!(!widget.tick());
    widget.refresh();
    assert_eq!(widget.matches(), &shown);
    widget.filter("heap".to_string());
    until_done(&mut widget);
    for _ in 0..50 {
        assert!(!widget.tick());
    }
    widget.refresh();
    assert_eq!(widget.matches().len(), 1);
}

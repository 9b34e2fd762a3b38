//! The path pane: one entry per group, narrowed by a filter and ranked by the
//! matcher, and a cursor on one of the entries that are shown.

use crate::grouping::{uniform, RegionMatrix};
use crate::region::{MemoryRegion, RegionView};
use crate::search::{
    at_rest, caught_up, chosen_from, lower_ascii, matched, matcher_matches, matcher_new,
    matcher_push, matcher_reparse, matcher_tick, pattern, registered, snapshot, within, Entry,
    SEARCH_CAPACITY,
};
use crate::segment::index_view;
use crate::text::{hex, hex_text};
use nucleo::Nucleo;
use std::rc::Rc;
use vstd::prelude::*;
use vstd::relations::injective_on;
use vstd::set_lib::{lemma_int_range, lemma_len_subset, lemma_map_size, set_int_range};
use vstd::string::StringExecFns;

verus! {

/// The entries that stand for the groups of a matrix: for each group, in order, its
/// index, the start address of its first member and its label.
pub open spec fn entries_of(matrix: Seq<Seq<RegionView>>) -> Seq<Entry> {
    Seq::new(
        matrix.len(),
        |g: int| (g as usize, matrix[g][0].address.0, matrix[g][0].label()),
    )
}

/// A cursor brought back into a list of `count` entries: none in an empty list, else
/// the last entry where it lay behind it.
pub open spec fn clamped(selected: Option<int>, count: int) -> Option<int> {
    match selected {
        Some(s) => if count <= 0 {
            None
        } else if s >= count {
            Some(count - 1)
        } else {
            Some(s)
        },
        None => None,
    }
}

/// The line that shows an entry: its address in hexadecimal, two spaces, its label.
pub open spec fn line_of(entry: Entry) -> Seq<char> {
    hex(entry.1 as nat) + seq![' ', ' '] + entry.2
}

/// The mathematical value of the path pane.
pub struct PathListView {
    /// The groups that the entries stand for.
    pub matrix: Seq<Seq<RegionView>>,
    /// The entries registered with the matcher.
    pub registered: Seq<Entry>,
    /// The snapshot that the matcher last committed.
    pub snapshot: Seq<Entry>,
    /// The entries that the pane shows: the snapshot as it was last read.
    pub matches: Seq<Entry>,
    /// The cursor: a position among the entries shown, not a group.
    pub selected: Option<int>,
    /// Whether the filter is being typed.
    pub toggle: bool,
    /// The filter that the pane was last given.
    pub filter: Seq<char>,
    /// The filter from which the matcher's pattern was last parsed.
    pub pattern: Seq<char>,
    /// Whether the matcher is at rest: it has caught up and has nothing left to do.
    pub resting: bool,
    /// Whether the path pane has the focus.
    pub active: bool,
}

impl PathListView {
    /// The invariant: every group is registered once, in the order of the matrix;
    /// the matcher's pattern is that of the pane's filter; a matcher at rest has
    /// caught up; every entry shown is one of those registered and none is shown
    /// twice; and the cursor lies on an entry that is shown.
    pub open spec fn wf(self) -> bool {
        &&& uniform(self.matrix)
        &&& self.matrix.len() <= usize::MAX
        &&& self.registered == entries_of(self.matrix)
        &&& self.pattern == self.filter
        &&& (self.resting ==> self.settled())
        &&& within(self.matches, self.registered)
        &&& self.matches.no_duplicates()
        &&& (self.selected matches Some(s) ==> 0 <= s < self.matches.len())
    }

    /// The matcher has caught up: its snapshot holds the ranked matches for the
    /// registered entries and the filter behind its pattern. They are a choice among
    /// the entries, do not depend on the case of the letters `A` to `Z` in the
    /// filter, and for the empty filter are all entries in the order of registration.
    pub open spec fn settled(self) -> bool {
        caught_up(self.snapshot, self.registered, self.pattern)
    }

    /// The groups that the matcher matches against the filter: those whose entry is
    /// among the ranked matches.
    pub open spec fn matching_groups(self) -> Set<int> {
        Set::new(
            |g: int|
                0 <= g < self.matrix.len() && matched(self.registered, self.pattern).contains(
                    entries_of(self.matrix)[g],
                ),
        )
    }

    /// The pane is given a filter. A filter other than the one before is handed to
    /// the matcher.
    pub open spec fn filtered(self, input: Seq<char>) -> Self {
        if input == self.filter {
            self
        } else {
            PathListView { filter: input, pattern: input, resting: false, ..self }
        }
    }

    /// One entry down; from no entry to the first. The last entry stays.
    pub open spec fn moved_down(self) -> Self {
        PathListView {
            selected: match self.selected {
                Some(s) => clamped(Some(s + 1), self.matches.len() as int),
                None => clamped(Some(0), self.matches.len() as int),
            },
            ..self
        }
    }

    /// One entry up; from no entry to the last. The first entry stays.
    pub open spec fn moved_up(self) -> Self {
        PathListView {
            selected: match self.selected {
                Some(s) => if s > 0 {
                    Some(s - 1)
                } else {
                    Some(0)
                },
                None => clamped(Some(self.matches.len() as int), self.matches.len() as int),
            },
            ..self
        }
    }

    /// The cursor on the first entry, if any is shown.
    pub open spec fn at_top(self) -> Self {
        PathListView { selected: clamped(Some(0), self.matches.len() as int), ..self }
    }

    /// The cursor on the last entry, if any is shown.
    pub open spec fn at_bottom(self) -> Self {
        PathListView {
            selected: clamped(Some(self.matches.len() as int), self.matches.len() as int),
            ..self
        }
    }

    /// Other entries are shown; the cursor keeps its position where that still
    /// exists, else moves to the last entry, or to none in an empty list.
    pub open spec fn showing(self, matches: Seq<Entry>) -> Self {
        PathListView {
            matches,
            selected: clamped(self.selected, matches.len() as int),
            ..self
        }
    }

    /// The group of the entry under the cursor; none without a cursor, and none
    /// where the entry names a group that the matrix does not have.
    pub open spec fn chosen_group(self) -> Option<int> {
        match self.selected {
            Some(s) => if 0 <= s < self.matches.len() && self.matches[s].0 < self.matrix.len() {
                Some(self.matches[s].0 as int)
            } else {
                None
            },
            None => None,
        }
    }

    /// The lines that the pane shows, one per entry.
    pub open spec fn lines(self) -> Seq<Seq<char>> {
        Seq::new(self.matches.len(), |i: int| line_of(self.matches[i]))
    }
}

/// The entry under the cursor stands for the group that it names: in a well-formed
/// pane a cursor always chooses a group, and the address and the label that the
/// entry shows are those of the first member of that group.
pub proof fn lemma_chosen_entry_is_its_group(pane: PathListView)
    requires
        pane.wf(),
        pane.selected.is_some(),
    ensures
        pane.chosen_group() == Some(pane.matches[pane.selected.unwrap()].0 as int),
        pane.matches[pane.selected.unwrap()] == entries_of(pane.matrix)[pane.chosen_group().unwrap()],
{
    // The entry is a registered one, and the entry registered at an index names
    // that index as its group.
    let entry = pane.matches[pane.selected.unwrap()];
    assert(pane.registered.contains(entry));
}

/// Showing the same entries once more changes nothing: while the matcher's snapshot
/// stays as it is, reading it again leaves the pane as it is.
pub proof fn lemma_showing_again_changes_nothing(pane: PathListView, matches: Seq<Entry>)
    ensures
        pane.showing(matches).showing(matches) == pane.showing(matches),
{
}

/// Once the matcher has caught up, further time changes nothing: two panes over the
/// same entries and the same filter whose matcher has caught up hold the same
/// snapshot, however many ticks lie between them.
pub proof fn lemma_settled_snapshots_agree(before: PathListView, after: PathListView)
    requires
        before.settled(),
        after.settled(),
        after.registered == before.registered,
        after.pattern == before.pattern,
    ensures
        after.snapshot == before.snapshot,
        before.showing(before.snapshot).lines() == before.showing(after.snapshot).lines(),
{
}

/// With the empty filter a pane whose matcher has caught up shows, once the snapshot
/// is read, every group in the order of the matrix: as many lines as there are
/// groups, the line at an index the line of the group at that index.
pub proof fn lemma_empty_filter_shows_every_group(pane: PathListView)
    requires
        pane.wf(),
        pane.settled(),
        pane.filter.len() == 0,
    ensures
        pane.showing(pane.snapshot).matches == entries_of(pane.matrix),
        pane.showing(pane.snapshot).lines().len() == pane.matrix.len(),
        forall|g: int|
            0 <= g < pane.matrix.len() ==> #[trigger] pane.showing(pane.snapshot).lines()[g]
                == line_of(entries_of(pane.matrix)[g]),
{
}

/// The entries that stand for the groups of a matrix differ from each other, since
/// each names its own group.
pub proof fn lemma_entries_are_distinct(matrix: Seq<Seq<RegionView>>)
    requires
        matrix.len() <= usize::MAX,
    ensures
        entries_of(matrix).no_duplicates(),
{
    let entries = entries_of(matrix);
    assert forall|i: int, j: int|
        0 <= i < entries.len() && 0 <= j < entries.len() && i != j implies entries[i]
        != entries[j] by {
        assert(entries[i].0 == i as usize);
        assert(entries[j].0 == j as usize);
    }
}

/// Once the matcher has caught up, the number of entries in its snapshot is the
/// number of groups that match the filter, and no group is listed twice.
pub proof fn lemma_settled_count_is_the_matching_groups(pane: PathListView)
    requires
        pane.wf(),
        pane.settled(),
    ensures
        pane.snapshot.no_duplicates(),
        pane.matching_groups().finite(),
        pane.snapshot.len() == pane.matching_groups().len(),
{
    let entries = entries_of(pane.matrix);
    let groups = pane.matching_groups();
    let listed = pane.snapshot.to_set();
    let entry_of = |g: int| entries[g];
    lemma_entries_are_distinct(pane.matrix);
    pane.snapshot.unique_seq_to_set();
    // The groups are among the indices of the matrix, so they are finitely many.
    let indices = Set::new(|g: int| 0 <= g < pane.matrix.len());
    lemma_int_range(0, pane.matrix.len() as int);
    assert(indices =~= set_int_range(0, pane.matrix.len() as int));
    lemma_len_subset(groups, indices);
    // Each group has an entry of its own, and the entries of the groups are the
    // entries listed.
    assert(injective_on(entry_of, groups));
    assert forall|e: Entry| listed.contains(e) implies groups.map(entry_of).contains(e) by {
        let g = choose|g: int| 0 <= g < entries.len() && entries[g] == e;
        assert(groups.contains(g) && entry_of(g) == e);
    }
    assert(groups.map(entry_of) =~= listed);
    lemma_map_size(groups, listed, entry_of);
}

/// The case of the letters `A` to `Z` in the filter does not count: two panes over
/// the same entries whose matcher has caught up hold the same snapshot where their
/// filters differ in the case of those letters only.
pub proof fn lemma_case_of_the_filter_is_ignored(one: PathListView, other: PathListView)
    requires
        one.settled(),
        other.settled(),
        one.registered == other.registered,
        lower_ascii(one.pattern) == lower_ascii(other.pattern),
    ensures
        one.snapshot == other.snapshot,
{
}

/// Without a cursor no group is chosen.
pub proof fn lemma_no_cursor_no_group(pane: PathListView)
    requires
        pane.selected.is_none(),
    ensures
        pane.chosen_group().is_none(),
{
}

/// A cursor brought back into a list of `count` entries.
pub fn clamp_selection(selected: Option<usize>, count: usize) -> (cursor: Option<usize>)
    ensures
        index_view(cursor) == clamped(index_view(selected), count as int),
{
    match selected {
        Some(s) => if count == 0 {
            None
        } else if s >= count {
            Some(count - 1)
        } else {
            Some(s)
        },
        None => None,
    }
}

/// The time in milliseconds that one tick waits for the matcher's workers.
pub const TICK_MILLIS: u64 = 10;

/// The path pane.
pub struct PathListWidget {
    memory_maps: Rc<RegionMatrix>,
    selected: Option<usize>,
    toggle: bool,
    searcher: Nucleo<(usize, u64, String)>,
    matches: Vec<(usize, u64, String)>,
    filter: String,
    active_pane: bool,
}

impl View for PathListWidget {
    type V = PathListView;

    closed spec fn view(&self) -> PathListView {
        PathListView {
            matrix: self.memory_maps@,
            registered: registered(self.searcher),
            snapshot: snapshot(self.searcher),
            matches: self.matches.deep_view(),
            selected: index_view(self.selected),
            toggle: self.toggle,
            filter: self.filter@,
            pattern: pattern(self.searcher),
            resting: at_rest(self.searcher),
            active: self.active_pane,
        }
    }
}

impl PathListWidget {
    /// The invariant of the pane, which the constructor establishes and every
    /// operation keeps. No operation depends on it.
    pub open spec fn wf(&self) -> bool {
        self@.wf()
    }

    /// A pane over the matrix. Every group is registered with a new matcher, in the
    /// order of the matrix, under its index, the start address of its first member
    /// and its label. The matcher gets one tick, and the pane shows what it has
    /// committed by then, with the cursor on the first entry. The pane starts with
    /// the focus, an empty filter and the filter line closed.
    pub fn new(memory_map_matrix: Rc<RegionMatrix>) -> (widget: Self)
        requires
            memory_map_matrix@.len() <= SEARCH_CAPACITY,
        ensures
            widget.wf(),
            widget@.matrix == memory_map_matrix@,
            widget@.matches == widget@.snapshot,
            widget@.selected == clamped(Some(0), widget@.matches.len() as int),
            !widget@.toggle,
            widget@.filter == Seq::<char>::empty(),
            widget@.active,
    {
        let mut searcher = matcher_new();
        let mut g: usize = 0;
        proof {
            use_type_invariant(&*memory_map_matrix);
        }
        while g < memory_map_matrix.len()
            invariant
                uniform(memory_map_matrix@),
                memory_map_matrix@.len() <= SEARCH_CAPACITY,
                g <= memory_map_matrix@.len(),
                registered(searcher) == entries_of(memory_map_matrix@).take(g as int),
                snapshot(searcher) == Seq::<Entry>::empty(),
                pattern(searcher) == Seq::<char>::empty(),
            decreases memory_map_matrix@.len() - g,
        {
            match memory_map_matrix.group(g) {
                Some(members) => {
                    let first = &members[0];
                    matcher_push(&mut searcher, g, first.address.0, first.label());
                },
                None => {},
            }
            g = g + 1;
        }
        proof {
            let all = entries_of(memory_map_matrix@);
            assert(all.take(g as int) =~= all);
        }
        let _ = matcher_tick(&mut searcher, TICK_MILLIS);
        let matches = matcher_matches(&searcher);
        let selected = clamp_selection(Some(0), matches.len());
        Self {
            memory_maps: memory_map_matrix,
            selected,
            toggle: false,
            searcher,
            matches,
            filter: String::new(),
            active_pane: true,
        }
    }

    /// Gives the pane a filter. A filter other than the one before is handed to the
    /// matcher, which reads it without regard to case. What the pane shows changes
    /// only when the matcher has committed a snapshot for the filter and that
    /// snapshot is read.
    pub fn filter(&mut self, input: String)
        ensures
            old(self).wf() ==> final(self).wf(),
            final(self)@ == old(self)@.filtered(input@),
    {
        if input != self.filter {
            matcher_reparse(&mut self.searcher, input.as_str());
            self.filter = input;
        }
    }

    /// Gives the matcher a short time to catch up. It returns whether the matcher is
    /// still at work. Only the matcher's state may differ afterwards; what the pane
    /// shows stays until the snapshot is read. Where the matcher is no longer at
    /// work, it is at rest and has caught up: its snapshot holds its ranked matches
    /// for the entries and the filter. A matcher that was at rest stays at rest and
    /// keeps its snapshot, however often it is ticked.
    pub fn tick(&mut self) -> (running: bool)
        ensures
            old(self).wf() ==> final(self).wf(),
            final(self)@ == (PathListView {
                snapshot: final(self)@.snapshot,
                resting: !running,
                ..old(self)@
            }),
            !running ==> final(self)@.settled(),
            old(self)@.resting ==> !running && final(self)@.snapshot == old(self)@.snapshot,
    {
        matcher_tick(&mut self.searcher, TICK_MILLIS)
    }

    /// Reads the matcher's snapshot and shows it. The cursor keeps its position
    /// where that still exists, else moves to the last entry, or to none.
    pub fn refresh(&mut self)
        ensures
            old(self).wf() ==> final(self).wf(),
            final(self)@ == old(self)@.showing(old(self)@.snapshot),
    {
        let matches = matcher_matches(&self.searcher);
        self.show(matches);
    }

    /// Shows the given entries in place of those shown before, whatever they are.
    /// The cursor keeps its position where that still exists, else moves to the last
    /// entry, or to none. The pane stays well formed where the entries are a choice
    /// among those registered.
    pub fn show(&mut self, matches: Vec<(usize, u64, String)>)
        ensures
            old(self).wf() && chosen_from(matches.deep_view(), old(self)@.registered)
                ==> final(self).wf(),
            final(self)@ == old(self)@.showing(matches.deep_view()),
    {
        proof {
            if self.wf() {
                lemma_entries_are_distinct(self@.matrix);
            }
        }
        self.selected = clamp_selection(self.selected, matches.len());
        self.matches = matches;
    }

    /// Gives the pane the focus or takes it away.
    pub fn active_pane(&mut self, active: bool)
        ensures
            final(self)@ == (PathListView { active, ..old(self)@ }),
    {
        self.active_pane = active;
    }

    /// Opens the filter line, or closes it.
    pub fn toggle(&mut self)
        ensures
            final(self)@ == (PathListView { toggle: !old(self)@.toggle, ..old(self)@ }),
    {
        self.toggle = !self.toggle;
    }

    /// Puts the cursor on the first entry, if any is shown.
    pub fn go_top(&mut self)
        ensures
            old(self).wf() ==> final(self).wf(),
            final(self)@ == old(self)@.at_top(),
    {
        self.selected = clamp_selection(Some(0), self.matches.len());
    }

    /// Puts the cursor on the last entry, if any is shown.
    pub fn go_bottom(&mut self)
        ensures
            old(self).wf() ==> final(self).wf(),
            final(self)@ == old(self)@.at_bottom(),
    {
        self.selected = clamp_selection(Some(self.matches.len()), self.matches.len());
    }

    /// Moves the cursor one entry down, or onto the first entry where there was no
    /// cursor. On the last entry it stays.
    pub fn next(&mut self)
        ensures
            old(self).wf() ==> final(self).wf(),
            final(self)@ == old(self)@.moved_down(),
    {
        let target: usize = match self.selected {
            Some(s) => if s < usize::MAX {
                s + 1
            } else {
                s
            },
            None => 0,
        };
        self.selected = clamp_selection(Some(target), self.matches.len());
    }

    /// Moves the cursor one entry up, or onto the last entry where there was no
    /// cursor. On the first entry it stays.
    pub fn previous(&mut self)
        ensures
            old(self).wf() ==> final(self).wf(),
            final(self)@ == old(self)@.moved_up(),
    {
        self.selected = match self.selected {
            Some(s) => if s > 0 {
                Some(s - 1)
            } else {
                Some(0)
            },
            None => clamp_selection(Some(self.matches.len()), self.matches.len()),
        };
    }

    /// The position of the cursor among the entries shown.
    pub fn selected(&self) -> (selected: Option<usize>)
        ensures
            index_view(selected) == self@.selected,
    {
        self.selected
    }

    /// Whether the filter line is open.
    pub fn is_toggled(&self) -> (open: bool)
        ensures
            open == self@.toggle,
    {
        self.toggle
    }

    /// Whether the pane has the focus.
    pub fn is_active(&self) -> (active: bool)
        ensures
            active == self@.active,
    {
        self.active_pane
    }

    /// The entries shown, in ranked order.
    pub fn matches(&self) -> (matches: &Vec<(usize, u64, String)>)
        ensures
            matches.deep_view() == self@.matches,
    {
        &self.matches
    }

    /// The index of the group that the entry under the cursor stands for. This, and
    /// not the position of the cursor, says which group is the active one. There is
    /// none without a cursor.
    pub fn selected_identifiers(&self) -> (group: Option<usize>)
        ensures
            index_view(group) == self@.chosen_group(),
    {
        match self.selected {
            Some(s) => {
                if s < self.matches.len() {
                    let g = self.matches[s].0;
                    if g < self.memory_maps.len() {
                        Some(g)
                    } else {
                        None
                    }
                } else {
                    None
                }
            },
            None => None,
        }
    }

    /// The members of the group that the entry under the cursor stands for.
    pub fn selected_segments(&self) -> (members: Option<&Vec<MemoryRegion>>)
        ensures
            match members {
                Some(group) => self@.chosen_group() matches Some(g) && group.deep_view()
                    == self@.matrix[g],
                None => self@.chosen_group().is_none(),
            },
    {
        match self.selected_identifiers() {
            Some(g) => self.memory_maps.group(g),
            None => None,
        }
    }

    /// The lines that the pane shows, one per entry: the address in hexadecimal, two
    /// spaces and the label.
    pub fn lines(&self) -> (lines: Vec<String>)
        ensures
            lines.deep_view() == self@.lines(),
    {
        let mut lines: Vec<String> = Vec::new();
        let mut i: usize = 0;
        while i < self.matches.len()
            invariant
                i <= self.matches.len(),
                self.matches.deep_view().len() == self.matches.len(),
                lines.deep_view() == self@.lines().take(i as int),
            decreases self.matches.len() - i,
        {
            let ghost before = lines.deep_view();
            let mut line = hex_text(self.matches[i].1);
            line.push(' ');
            line.push(' ');
            line.append(self.matches[i].2.as_str());
            proof {
                assert(line@ =~= line_of(self@.matches[i as int]));
            }
            lines.push(line);
            proof {
                assert(lines.deep_view() =~= before.push(line@));
            }
            i = i + 1;
        }
        lines
    }
}

} // verus!

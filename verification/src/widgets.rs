//! The small panes: the filter line, the help screen and the detail panel.

use crate::format::{format_bytes, human_size, is_sorted_permutation, sorted_metrics};
use crate::region::{MemoryRegion, RegionView};
use crate::std_specs::{lowercase, lowercase_text};
use crate::text::{decimal, decimal_text, hex, hex_text, signed_decimal_text};
use vstd::prelude::*;
use vstd::string::StringExecFns;

verus! {

/// The filter line: the text that the operator has typed to narrow the path pane.
pub struct PathFilterWidget {
    filter: String,
}

impl View for PathFilterWidget {
    type V = Seq<char>;

    closed spec fn view(&self) -> Seq<char> {
        self.filter@
    }
}

impl Default for PathFilterWidget {
    fn default() -> (widget: Self)
        ensures
            widget@ == Seq::<char>::empty(),
    {
        PathFilterWidget { filter: String::new() }
    }
}

impl PathFilterWidget {
    /// Appends a character to the filter.
    pub fn push(&mut self, c: char)
        ensures
            final(self)@ == old(self)@.push(c),
    {
        self.filter.push(c);
    }

    /// Takes the last character off the filter; an empty filter stays empty.
    pub fn pop(&mut self)
        ensures
            final(self)@ == if old(self)@.len() > 0 {
                old(self)@.drop_last()
            } else {
                old(self)@
            },
    {
        let _ = self.filter.pop();
    }

    /// The filter as typed.
    pub fn text(&self) -> (text: &String)
        ensures
            text@ == self@,
    {
        &self.filter
    }
}

/// What the help screen shows.
pub struct HelpView {
    /// Whether the help screen is open.
    pub toggle: bool,
    /// Whether the open help screen shows the table of flags.
    pub toggle_vm_flags: bool,
}

impl HelpView {
    /// The help screen opens, or closes; as it closes, the table of flags closes too.
    pub open spec fn toggled(self) -> Self {
        HelpView {
            toggle: !self.toggle,
            toggle_vm_flags: if self.toggle {
                false
            } else {
                self.toggle_vm_flags
            },
        }
    }

    /// The table of flags opens, or closes; while the help screen is closed nothing
    /// changes.
    pub open spec fn flags_toggled(self) -> Self {
        if self.toggle {
            HelpView { toggle_vm_flags: !self.toggle_vm_flags, ..self }
        } else {
            self
        }
    }
}

/// The help screen.
pub struct HelpWidget {
    toggle: bool,
    toggle_vm_flags: bool,
}

impl View for HelpWidget {
    type V = HelpView;

    closed spec fn view(&self) -> HelpView {
        HelpView { toggle: self.toggle, toggle_vm_flags: self.toggle_vm_flags }
    }
}

impl Default for HelpWidget {
    fn default() -> (widget: Self)
        ensures
            widget@ == (HelpView { toggle: false, toggle_vm_flags: false }),
    {
        HelpWidget { toggle: false, toggle_vm_flags: false }
    }
}

impl HelpWidget {
    /// Opens the help screen, or closes it. Closing it closes the table of flags too.
    pub fn toggle(&mut self)
        ensures
            final(self)@ == old(self)@.toggled(),
    {
        if self.toggle {
            self.toggle_vm_flags = false;
        }
        self.toggle = !self.toggle;
    }

    /// Opens the table of flags, or closes it. While the help screen is closed
    /// nothing changes.
    pub fn toggle_vm_flags(&mut self)
        ensures
            final(self)@ == old(self)@.flags_toggled(),
    {
        if !self.toggle {
            return ;
        }
        self.toggle_vm_flags = !self.toggle_vm_flags;
    }

    /// Whether the help screen is open.
    pub fn is_toggled(&self) -> (open: bool)
        ensures
            open == self@.toggle,
    {
        self.toggle
    }

    /// Whether the open help screen shows the table of flags.
    pub fn shows_vm_flags(&self) -> (open: bool)
        ensures
            open == self@.toggle_vm_flags,
    {
        self.toggle_vm_flags
    }
}

/// Words joined by single spaces.
pub open spec fn joined(words: Seq<Seq<char>>) -> Seq<char>
    decreases words.len(),
{
    if words.len() == 0 {
        Seq::empty()
    } else if words.len() == 1 {
        words[0]
    } else {
        joined(words.drop_last()) + seq![' '] + words.last()
    }
}

/// The rows of the detail panel that every region has, each a name and a value:
/// the two addresses in hexadecimal, the access rights, the offset, the device as
/// `major:minor`, the inode, and the names of the flags that are set.
pub open spec fn detail_rows(region: RegionView) -> Seq<(Seq<char>, Seq<char>)> {
    seq![
        ("start_addr"@, hex(region.address.0 as nat)),
        ("end_addr"@, hex(region.address.1 as nat)),
        ("permissions"@, region.perms.text()),
        ("offset"@, decimal(region.offset as int)),
        ("dev"@, decimal(region.dev.0 as int) + seq![':'] + decimal(region.dev.1 as int)),
        ("inode"@, decimal(region.inode as int)),
        ("vm_flags"@, joined(region.flags)),
    ]
}

/// The row of one metric: its name in lower case and its count as a size.
pub open spec fn metric_row(metric: (Seq<char>, u64)) -> (Seq<char>, Seq<char>) {
    (lowercase(metric.0), human_size(metric.1))
}

/// The rows of the given metrics, in their order.
pub open spec fn metric_rows(metrics: Seq<(Seq<char>, u64)>) -> Seq<(Seq<char>, Seq<char>)> {
    Seq::new(metrics.len(), |i: int| metric_row(metrics[i]))
}

/// `rows` are the rows of the detail panel for a region: the rows that every region
/// has, then one row per metric, the metrics in ascending order of their names.
/// Metrics of one name each have their row, in ascending order of their counts.
pub open spec fn is_info_rows(rows: Seq<(Seq<char>, Seq<char>)>, region: RegionView) -> bool {
    exists|sorted: Seq<(Seq<char>, u64)>| #[trigger]
        is_sorted_permutation(sorted, region.metrics) && rows == detail_rows(region)
            + metric_rows(sorted)
}

/// Every metric of a region has a row of its own behind the seven rows that every
/// region has, also where a name occurs more than once.
pub proof fn lemma_every_metric_has_a_row(rows: Seq<(Seq<char>, Seq<char>)>, region: RegionView)
    requires
        is_info_rows(rows, region),
    ensures
        rows.len() == 7 + region.metrics.len(),
        rows.take(7) == detail_rows(region),
{
    let sorted = choose|sorted: Seq<(Seq<char>, u64)>| #[trigger]
        is_sorted_permutation(sorted, region.metrics) && rows == detail_rows(region)
            + metric_rows(sorted);
    sorted.to_multiset_ensures();
    region.metrics.to_multiset_ensures();
    assert(rows.take(7) =~= detail_rows(region));
}

/// Joins words by single spaces.
pub fn join_words(words: &Vec<String>) -> (text: String)
    ensures
        text@ == joined(words.deep_view()),
{
    let mut text = String::new();
    let mut i: usize = 0;
    let ghost all = words.deep_view();
    while i < words.len()
        invariant
            i <= words.len(),
            all == words.deep_view(),
            all.len() == words.len(),
            text@ == joined(all.take(i as int)),
        decreases words.len() - i,
    {
        proof {
            assert(all.take(i + 1).drop_last() =~= all.take(i as int));
        }
        if i > 0 {
            text.push(' ');
        }
        text.append(words[i].as_str());
        i = i + 1;
    }
    proof {
        assert(all.take(i as int) =~= all);
    }
    text
}

/// The rows of the detail panel that every region has.
pub fn fixed_rows(region: &MemoryRegion) -> (rows: Vec<(String, String)>)
    ensures
        rows.deep_view() == detail_rows(region@),
{
    let mut device = signed_decimal_text(region.dev.0 as i64);
    device.push(':');
    device.append(signed_decimal_text(region.dev.1 as i64).as_str());
    let mut rows: Vec<(String, String)> = Vec::new();
    rows.push((String::from_str("start_addr"), hex_text(region.address.0)));
    rows.push((String::from_str("end_addr"), hex_text(region.address.1)));
    rows.push((String::from_str("permissions"), region.perms.as_str()));
    rows.push((String::from_str("offset"), decimal_text(region.offset)));
    rows.push((String::from_str("dev"), device));
    rows.push((String::from_str("inode"), decimal_text(region.inode)));
    rows.push((String::from_str("vm_flags"), join_words(&region.flags)));
    proof {
        let want = detail_rows(region@);
        assert forall|i: int| 0 <= i < 7 implies rows.deep_view()[i] == want[i] by {}
    }
    rows
}

/// Appends one row per metric to the rows, given each metric's name in lower case
/// and its count as a size, in the order of the metrics.
pub fn push_metric_rows(rows: &mut Vec<(String, String)>, cells: Vec<(String, String)>)
    ensures
        final(rows).deep_view() == old(rows).deep_view() + cells.deep_view(),
{
    let ghost start = rows.deep_view();
    let ghost added = cells.deep_view();
    for cell in it: cells
        invariant
            added.len() == it.seq().len(),
            forall|i: int| 0 <= i < added.len() ==> added[i] == (#[trigger] it.seq()[i]).deep_view(),
            rows.deep_view() == start + added.take(it.index() as int),
    {
        let ghost before = rows.deep_view();
        rows.push(cell);
        proof {
            assert(rows.deep_view() =~= before.push(cell.deep_view()));
        }
    }
}

/// The detail panel: the region whose details are shown, if any.
pub struct InfoWidget {
    selected_segment: Option<MemoryRegion>,
}

impl View for InfoWidget {
    type V = Option<RegionView>;

    closed spec fn view(&self) -> Option<RegionView> {
        self.selected_segment.deep_view()
    }
}

impl Default for InfoWidget {
    fn default() -> (widget: Self)
        ensures
            widget@.is_none(),
    {
        Self::new()
    }
}

impl InfoWidget {
    /// A panel that shows no region.
    pub fn new() -> (widget: Self)
        ensures
            widget@.is_none(),
    {
        Self { selected_segment: None }
    }

    /// Shows the given region, or none.
    pub fn selected_segments(&mut self, selected_segment: Option<MemoryRegion>)
        ensures
            final(self)@ == selected_segment.deep_view(),
    {
        self.selected_segment = selected_segment;
    }

    /// The rows of the panel, each a name and a value; none while no region is shown.
    /// Every metric of the region has a row, also where a name occurs more than once.
    pub fn rows(&self) -> (rows: Option<Vec<(String, String)>>)
        ensures
            match rows {
                Some(rows) => self@ matches Some(region) && is_info_rows(rows.deep_view(), region),
                None => self@.is_none(),
            },
    {
        match &self.selected_segment {
            Some(region) => {
                let mut rows = fixed_rows(region);
                let sorted = sorted_metrics(&region.metrics);
                let mut cells: Vec<(String, String)> = Vec::new();
                let mut i: usize = 0;
                while i < sorted.len()
                    invariant
                        i <= sorted.len(),
                        sorted.deep_view().len() == sorted.len(),
                        cells.deep_view() == metric_rows(sorted.deep_view()).take(i as int),
                    decreases sorted.len() - i,
                {
                    let ghost before = cells.deep_view();
                    let cell = (lowercase_text(sorted[i].0.as_str()), format_bytes(sorted[i].1));
                    cells.push(cell);
                    proof {
                        let all = metric_rows(sorted.deep_view());
                        assert(cells.deep_view() =~= before.push(all[i as int]));
                    }
                    i = i + 1;
                }
                proof {
                    let all = metric_rows(sorted.deep_view());
                    assert(all.take(i as int) =~= all);
                }
                push_metric_rows(&mut rows, cells);
                assert(is_sorted_permutation(sorted.deep_view(), region@.metrics));
                Some(rows)
            },
            None => None,
        }
    }

    /// The region shown, if any.
    pub fn selected_segment(&self) -> (region: Option<&MemoryRegion>)
        ensures
            region.deep_view() == self@,
    {
        self.selected_segment.as_ref()
    }
}

} // verus!

//! The segment navigator: a cursor over the members of the active group.

use crate::grouping::{uniform, RegionMatrix};
use crate::format::{format_bytes, human_size};
use crate::region::{MemoryRegion, RegionView};
use crate::text::{hex, hex_text};
use std::rc::Rc;
use vstd::arithmetic::div_mod::{
    lemma_add_mod_noop_right, lemma_mod_add_multiples_vanish, lemma_mod_pos_bound,
    lemma_mod_sub_multiples_vanish, lemma_small_mod,
};
use vstd::prelude::*;

verus! {

/// The mathematical value of the segment navigator.
pub struct SegmentView {
    /// The groups that the navigator moves in.
    pub matrix: Seq<Seq<RegionView>>,
    /// The group chosen in the path pane; `None` while no entry is chosen there.
    pub group: Option<int>,
    /// The member cursor within the active group.
    pub member: int,
    /// Whether the segment pane has the focus.
    pub active: bool,
}

impl SegmentView {
    /// The index of the active group: the chosen one, or group 0 without a choice.
    pub open spec fn active_group(self) -> int {
        match self.group {
            Some(g) => g,
            None => 0,
        }
    }

    /// The number of members of the active group; 0 where the matrix has no group.
    pub open spec fn active_len(self) -> int {
        if self.matrix.len() == 0 {
            0
        } else {
            self.matrix[self.active_group()].len() as int
        }
    }

    /// The invariant: a chosen group exists, and the member cursor lies within the
    /// active group (at 0 where there is no group at all).
    pub open spec fn wf(self) -> bool {
        &&& uniform(self.matrix)
        &&& (self.group matches Some(g) ==> 0 <= g < self.matrix.len())
        &&& (self.matrix.len() > 0 ==> 0 <= self.member < self.active_len())
        &&& (self.matrix.len() == 0 ==> self.member == 0)
    }

    /// One step forward, from the last member round to the first.
    pub open spec fn advance(self) -> Self {
        if self.active_len() == 0 {
            self
        } else {
            SegmentView { member: (self.member + 1) % self.active_len(), ..self }
        }
    }

    /// One step back, from the first member round to the last.
    pub open spec fn retreat(self) -> Self {
        if self.active_len() == 0 {
            self
        } else if self.member == 0 {
            SegmentView { member: self.active_len() - 1, ..self }
        } else {
            SegmentView { member: self.member - 1, ..self }
        }
    }

    /// The cursor on the first member.
    pub open spec fn to_start(self) -> Self {
        SegmentView { member: 0, ..self }
    }

    /// The cursor on the last member.
    pub open spec fn to_end(self) -> Self {
        if self.active_len() == 0 {
            self
        } else {
            SegmentView { member: self.active_len() - 1, ..self }
        }
    }

    /// Another group becomes the active one and the cursor returns to its first
    /// member. A group that the matrix does not have counts as no choice.
    pub open spec fn switched(self, group: Option<int>) -> Self {
        SegmentView {
            group: match group {
                Some(g) if 0 <= g < self.matrix.len() => Some(g),
                _ => None,
            },
            member: 0,
            ..self
        }
    }

    /// The region under the cursor; none where the matrix has no group.
    pub open spec fn current(self) -> Option<RegionView> {
        if self.matrix.len() == 0 {
            None
        } else {
            Some(self.matrix[self.active_group()][self.member])
        }
    }

    /// `n` steps forward.
    pub open spec fn advance_by(self, n: nat) -> Self
        decreases n,
    {
        if n == 0 {
            self
        } else {
            self.advance().advance_by((n - 1) as nat)
        }
    }

    /// `n` steps back.
    pub open spec fn retreat_by(self, n: nat) -> Self
        decreases n,
    {
        if n == 0 {
            self
        } else {
            self.retreat().retreat_by((n - 1) as nat)
        }
    }
}

/// `n` steps forward move the cursor by `n` modulo the length of the active group.
pub proof fn lemma_advance_by(s: SegmentView, n: nat)
    requires
        s.wf(),
        s.active_len() > 0,
    ensures
        s.advance_by(n).member == (s.member + n) % s.active_len(),
        s.advance_by(n) == (SegmentView { member: s.advance_by(n).member, ..s }),
    decreases n,
{
    let len = s.active_len();
    if n == 0 {
        lemma_small_mod(s.member as nat, len as nat);
    } else {
        let next = s.advance();
        lemma_mod_pos_bound(s.member + 1, len);
        lemma_advance_by(next, (n - 1) as nat);
        lemma_add_mod_noop_right(n - 1, s.member + 1, len);
    }
}

/// `n` steps back move the cursor by `-n` modulo the length of the active group.
pub proof fn lemma_retreat_by(s: SegmentView, n: nat)
    requires
        s.wf(),
        s.active_len() > 0,
    ensures
        s.retreat_by(n).member == (s.member - n) % s.active_len(),
        s.retreat_by(n) == (SegmentView { member: s.retreat_by(n).member, ..s }),
    decreases n,
{
    let len = s.active_len();
    if n == 0 {
        lemma_small_mod(s.member as nat, len as nat);
    } else {
        let prev = s.retreat();
        assert(prev.member == (s.member - 1) % len) by {
            if s.member == 0 {
                lemma_mod_sub_multiples_vanish(len - 1, len);
                lemma_small_mod((len - 1) as nat, len as nat);
            } else {
                lemma_small_mod((s.member - 1) as nat, len as nat);
            }
        }
        lemma_retreat_by(prev, (n - 1) as nat);
        lemma_add_mod_noop_right(-(n - 1), s.member - 1, len);
    }
}

/// The round trip forward: as many steps forward as the active group has members
/// bring the navigator back to where it was.
pub proof fn lemma_advance_round_trip(s: SegmentView)
    requires
        s.wf(),
    ensures
        s.advance_by(s.active_len() as nat) == s,
{
    let len = s.active_len();
    if len > 0 {
        lemma_advance_by(s, len as nat);
        lemma_mod_add_multiples_vanish(s.member, len);
        lemma_small_mod(s.member as nat, len as nat);
    }
}

/// The round trip back: as many steps back as the active group has members bring
/// the navigator back to where it was.
pub proof fn lemma_retreat_round_trip(s: SegmentView)
    requires
        s.wf(),
    ensures
        s.retreat_by(s.active_len() as nat) == s,
{
    let len = s.active_len();
    if len > 0 {
        lemma_retreat_by(s, len as nat);
        lemma_mod_sub_multiples_vanish(s.member, len);
        lemma_small_mod(s.member as nat, len as nat);
    }
}

/// After a switch of the active group the cursor is on member 0, whatever it was
/// before and whichever group was chosen, and the navigator is well formed again.
pub proof fn lemma_switch_resets_cursor(s: SegmentView, group: Option<int>)
    requires
        uniform(s.matrix),
    ensures
        s.switched(group).member == 0,
        s.switched(group).wf(),
{
}

/// The cells of a region's row in the segment pane: its start and end address in
/// hexadecimal, then two sizes as text.
pub open spec fn row_cells(region: RegionView, size: Seq<char>, resident: Seq<char>) -> Seq<
    Seq<char>,
> {
    seq![hex(region.address.0 as nat), hex(region.address.1 as nat), size, resident]
}

/// The row of a region in the segment pane: the addresses, the size of the mapping
/// and the part of it that is resident, taken from the metrics `Size` and `Rss`.
pub open spec fn segment_row(region: RegionView) -> Seq<Seq<char>> {
    row_cells(region, human_size(region.metric("Size"@)), human_size(region.metric("Rss"@)))
}

/// The rows of the members of a group, in their order.
pub open spec fn segment_rows(members: Seq<RegionView>) -> Seq<Seq<Seq<char>>> {
    Seq::new(members.len(), |m: int| segment_row(members[m]))
}

/// The cells of a region's row, given its two sizes as text.
pub fn segment_cells(region: &MemoryRegion, size: String, resident: String) -> (cells: Vec<
    String,
>)
    ensures
        cells.deep_view() == row_cells(region@, size@, resident@),
{
    let mut cells: Vec<String> = Vec::new();
    cells.push(hex_text(region.address.0));
    cells.push(hex_text(region.address.1));
    cells.push(size);
    cells.push(resident);
    proof {
        assert(cells.deep_view() =~= row_cells(region@, size@, resident@));
    }
    cells
}

/// An index as a mathematical integer.
pub open spec fn index_view(index: Option<usize>) -> Option<int> {
    match index {
        Some(i) => Some(i as int),
        None => None,
    }
}

/// The segment pane: the members of the active group and the cursor on one of them.
pub struct SegmentTableWidget {
    memory_maps: Rc<RegionMatrix>,
    selected_identifier: Option<usize>,
    selected: usize,
    active_pane: bool,
}

impl View for SegmentTableWidget {
    type V = SegmentView;

    closed spec fn view(&self) -> SegmentView {
        SegmentView {
            matrix: self.memory_maps@,
            group: index_view(self.selected_identifier),
            member: self.selected as int,
            active: self.active_pane,
        }
    }
}

impl SegmentTableWidget {
    /// The invariant of the pane. Every pane that exists at run time meets it.
    #[verifier::type_invariant]
    pub open spec fn wf(&self) -> bool {
        self@.wf()
    }

    /// A pane over the matrix with no group chosen, the cursor on the first member
    /// and without the focus.
    pub fn new(memory_map_matrix: Rc<RegionMatrix>) -> (widget: Self)
        ensures
            widget.wf(),
            widget@ == (SegmentView {
                matrix: memory_map_matrix@,
                group: None,
                member: 0,
                active: false,
            }),
    {
        proof {
            use_type_invariant(&*memory_map_matrix);
        }
        Self {
            memory_maps: memory_map_matrix,
            selected_identifier: None,
            selected: 0,
            active_pane: false,
        }
    }

    /// Gives the pane the focus or takes it away.
    pub fn active_pane(&mut self, active: bool)
        ensures
            final(self)@ == (SegmentView { active, ..old(self)@ }),
    {
        proof {
            use_type_invariant(&*self);
        }
        self.active_pane = active;
    }

    /// Whether the pane has the focus.
    pub fn is_active(&self) -> (active: bool)
        ensures
            active == self@.active,
    {
        self.active_pane
    }

    /// The group chosen in the path pane, if one is.
    pub fn group(&self) -> (group: Option<usize>)
        ensures
            index_view(group) == self@.group,
    {
        self.selected_identifier
    }

    /// The member cursor.
    pub fn member(&self) -> (member: usize)
        ensures
            member == self@.member,
    {
        self.selected
    }

    /// The members of the active group; none where the matrix has no group.
    pub fn members(&self) -> (members: Option<&Vec<MemoryRegion>>)
        ensures
            match members {
                Some(group) => self@.matrix.len() > 0 && group.deep_view()
                    == self@.matrix[self@.active_group()],
                None => self@.matrix.len() == 0,
            },
    {
        proof {
            use_type_invariant(self);
        }
        let g: usize = match self.selected_identifier {
            Some(g) => g,
            None => 0,
        };
        self.memory_maps.group(g)
    }

    /// The rows of the pane, one per member of the active group; none where the
    /// matrix has no group.
    pub fn rows(&self) -> (rows: Vec<Vec<String>>)
        ensures
            rows.deep_view() == if self@.matrix.len() == 0 {
                Seq::<Seq<Seq<char>>>::empty()
            } else {
                segment_rows(self@.matrix[self@.active_group()])
            },
    {
        proof {
            use_type_invariant(self);
        }
        let mut rows: Vec<Vec<String>> = Vec::new();
        match self.members() {
            Some(members) => {
                let ghost want = segment_rows(members.deep_view());
                let mut m: usize = 0;
                while m < members.len()
                    invariant
                        m <= members.len(),
                        members.deep_view().len() == members.len(),
                        want == segment_rows(members.deep_view()),
                        rows.deep_view() == want.take(m as int),
                    decreases members.len() - m,
                {
                    let ghost before = rows.deep_view();
                    let region = &members[m];
                    let size = format_bytes(region.metric("Size"));
                    let resident = format_bytes(region.metric("Rss"));
                    let row = segment_cells(region, size, resident);
                    rows.push(row);
                    proof {
                        assert(rows.deep_view() =~= before.push(want[m as int]));
                    }
                    m = m + 1;
                }
            },
            None => {},
        }
        rows
    }

    fn active_len(&self) -> (len: usize)
        ensures
            len == self@.active_len(),
            self.wf(),
    {
        proof {
            use_type_invariant(self);
        }
        match self.members() {
            Some(group) => group.len(),
            None => 0,
        }
    }

    /// Moves the cursor one member forward, from the last member round to the
    /// first. Without any group nothing changes.
    pub fn next(&mut self)
        ensures
            final(self).wf(),
            final(self)@ == old(self)@.advance(),
    {
        let len = self.active_len();
        if len > 0 {
            self.selected = (self.selected + 1) % len;
        }
    }

    /// Moves the cursor one member back, from the first member round to the last.
    /// Without any group nothing changes.
    pub fn previous(&mut self)
        ensures
            final(self).wf(),
            final(self)@ == old(self)@.retreat(),
    {
        let len = self.active_len();
        if len > 0 {
            self.selected = if self.selected == 0 {
                len - 1
            } else {
                self.selected - 1
            };
        }
    }

    /// Puts the cursor on the first member.
    pub fn go_top(&mut self)
        ensures
            final(self).wf(),
            final(self)@ == old(self)@.to_start(),
    {
        self.reset_select();
    }

    /// Puts the cursor on the last member. Without any group nothing changes.
    pub fn go_bottom(&mut self)
        ensures
            final(self).wf(),
            final(self)@ == old(self)@.to_end(),
    {
        let len = self.active_len();
        if len > 0 {
            self.selected = len - 1;
        }
    }

    /// Puts the cursor back on the first member.
    pub fn reset_select(&mut self)
        ensures
            final(self).wf(),
            final(self)@ == old(self)@.to_start(),
    {
        proof {
            use_type_invariant(&*self);
        }
        self.selected = 0;
    }

    /// Makes another group the active one and puts the cursor on its first member:
    /// groups differ in length, so a cursor that was valid in one may lie outside
    /// another. A group that the matrix does not have counts as no choice.
    pub fn active_group_changed(&mut self, group: Option<usize>)
        ensures
            final(self).wf(),
            final(self)@ == old(self)@.switched(index_view(group)),
            final(self)@.member == 0,
    {
        proof {
            use_type_invariant(&*self);
        }
        self.selected = 0;
        self.selected_identifier = match group {
            Some(g) => if g < self.memory_maps.len() {
                Some(g)
            } else {
                None
            },
            None => None,
        };
    }

    /// The region under the cursor; none where the matrix has no group.
    pub fn selected_segment(&self) -> (region: Option<&MemoryRegion>)
        ensures
            match region {
                Some(r) => self@.current() == Some(r@),
                None => self@.current().is_none(),
            },
    {
        proof {
            use_type_invariant(self);
        }
        let g: usize = match self.selected_identifier {
            Some(g) => g,
            None => 0,
        };
        self.memory_maps.region(g, self.selected)
    }
}

} // verus!

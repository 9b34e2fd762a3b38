//! The grouping engine: one pass over the regions of a process, in the order in
//! which they were read, that gathers each maximal run of equal labels into a group.

use crate::region::{MemoryRegion, RegionView};
use vstd::prelude::*;

verus! {

/// Every group has a member and the members of a group share one label.
pub open spec fn uniform(groups: Seq<Seq<RegionView>>) -> bool {
    &&& forall|g: int| 0 <= g < groups.len() ==> (#[trigger] groups[g]).len() > 0
    &&& forall|g: int, m: int|
        0 <= g < groups.len() && 0 <= m < groups[g].len() ==> (#[trigger] groups[g][m]).label()
            == groups[g][0].label()
}

/// The groups are uniform, and the last member of a group and the first member of
/// the next differ in their label: no group could take in a neighbour.
pub open spec fn well_grouped(groups: Seq<Seq<RegionView>>) -> bool {
    &&& uniform(groups)
    &&& forall|g: int|
        0 < g < groups.len() ==> groups[g - 1].last().label() != (#[trigger] groups[g]).first().label()
}

/// `groups` is the grouping of `regions`: the groups, one after the other, are the
/// regions in their order, and they are well grouped.
pub open spec fn is_grouping(groups: Seq<Seq<RegionView>>, regions: Seq<RegionView>) -> bool {
    &&& groups.flatten() == regions
    &&& well_grouped(groups)
}

/// Gathers consecutive regions of one label into groups, in one pass. The order of
/// the regions is kept; regions of one label that do not follow each other stay in
/// separate groups.
pub fn group_regions(regions: Vec<MemoryRegion>) -> (groups: Vec<Vec<MemoryRegion>>)
    ensures
        is_grouping(groups.deep_view(), regions.deep_view()),
{
    let ghost all = regions.deep_view();
    // The groups that are closed, the group that is still open, and its label.
    let mut merged: Vec<Vec<MemoryRegion>> = Vec::new();
    let mut group: Vec<MemoryRegion> = Vec::new();
    let mut name: String = String::new();
    for region in it: regions
        invariant
            all.len() == it.seq().len(),
            forall|i: int| 0 <= i < all.len() ==> all[i] == (#[trigger] it.seq()[i])@,
            merged.deep_view().flatten() + group.deep_view() == all.take(it.index() as int),
            well_grouped(merged.deep_view()),
            group.len() == 0 ==> merged.len() == 0,
            forall|m: int| 0 <= m < group.len() ==> (#[trigger] group[m])@.label() == name@,
            merged.len() > 0 ==> merged.deep_view().last().last().label() != name@,
    {
        let label = region.label();
        if group.len() > 0 && label != name {
            let ghost closed = merged.deep_view();
            let ghost open = group.deep_view();
            merged.push(group);
            group = Vec::new();
            proof {
                assert(merged.deep_view() =~= closed.push(open));
                closed.lemma_flatten_push(open);
            }
        }
        if group.len() == 0 {
            name = label;
        }
        let ghost before = group.deep_view();
        group.push(region);
        proof {
            let closed = merged.deep_view().flatten();
            assert(closed + before.push(region@) =~= (closed + before).push(region@));
        }
    }
    proof {
        assert(all.take(all.len() as int) =~= all);
    }
    if group.len() > 0 {
        let ghost closed = merged.deep_view();
        let ghost open = group.deep_view();
        merged.push(group);
        proof {
            assert(merged.deep_view() =~= closed.push(open));
            closed.lemma_flatten_push(open);
        }
    }
    merged
}

/// Groups that each have a member are at most as many as their members together.
pub proof fn lemma_groups_at_most_regions(groups: Seq<Seq<RegionView>>)
    requires
        forall|g: int| 0 <= g < groups.len() ==> (#[trigger] groups[g]).len() > 0,
    ensures
        groups.len() <= groups.flatten().len(),
    decreases groups.len(),
{
    if groups.len() > 0 {
        let rest = groups.drop_first();
        assert forall|g: int| 0 <= g < rest.len() implies (#[trigger] rest[g]).len() > 0 by {
            assert(rest[g] == groups[g + 1]);
        }
        lemma_groups_at_most_regions(rest);
    }
}

/// A grouping begins with its first group, and what follows is the grouping of the
/// regions behind that group.
proof fn lemma_rest_is_grouping(groups: Seq<Seq<RegionView>>, regions: Seq<RegionView>)
    requires
        is_grouping(groups, regions),
        groups.len() > 0,
    ensures
        groups[0].len() <= regions.len(),
        regions.take(groups[0].len() as int) == groups[0],
        is_grouping(groups.drop_first(), regions.skip(groups[0].len() as int)),
{
    let rest = groups.drop_first();
    assert(regions.skip(groups[0].len() as int) =~= rest.flatten());
    assert forall|g: int| 0 <= g < rest.len() implies rest[g] == groups[g + 1] by {}
}

/// The first group of a grouping is not shorter than the first group of another
/// grouping of the same regions: else it would end inside a run of one label.
proof fn lemma_first_group_is_maximal(
    a: Seq<Seq<RegionView>>,
    b: Seq<Seq<RegionView>>,
    regions: Seq<RegionView>,
)
    requires
        is_grouping(a, regions),
        is_grouping(b, regions),
        a.len() > 0,
        b.len() > 0,
    ensures
        a[0].len() >= b[0].len(),
{
    let n = a[0].len() as int;
    if n < b[0].len() {
        // The region behind `a[0]` opens `a[1]`, yet lies within `b[0]`, whose
        // members share the label of the region before it.
        lemma_rest_is_grouping(a, regions);
        lemma_rest_is_grouping(b, regions);
        assert(regions.skip(n)[0] == a[1][0]);
    }
}

/// The regions of a process have one grouping only: what the grouping engine
/// returns is fixed by its contract.
pub proof fn lemma_grouping_is_unique(
    a: Seq<Seq<RegionView>>,
    b: Seq<Seq<RegionView>>,
    regions: Seq<RegionView>,
)
    requires
        is_grouping(a, regions),
        is_grouping(b, regions),
    ensures
        a == b,
    decreases a.len(),
{
    lemma_groups_at_most_regions(a);
    lemma_groups_at_most_regions(b);
    if a.len() > 0 && b.len() > 0 {
        lemma_first_group_is_maximal(a, b, regions);
        lemma_first_group_is_maximal(b, a, regions);
        lemma_rest_is_grouping(a, regions);
        lemma_rest_is_grouping(b, regions);
        lemma_grouping_is_unique(a.drop_first(), b.drop_first(), regions.skip(a[0].len() as int));
        assert(a =~= seq![a[0]] + a.drop_first());
    }
}

/// `matrix` is the matrix of one snapshot: with a summary record, that record alone
/// as the first group and the grouping of the regions behind it; without one, the
/// grouping of the regions.
pub open spec fn is_matrix(
    matrix: Seq<Seq<RegionView>>,
    rollup: Option<RegionView>,
    regions: Seq<RegionView>,
) -> bool {
    match rollup {
        Some(summary) => {
            &&& matrix.len() > 0
            &&& matrix[0] == seq![summary]
            &&& is_grouping(matrix.skip(1), regions)
        },
        None => is_grouping(matrix, regions),
    }
}

/// With a summary record, the matrix begins with that record alone, whatever the
/// regions are, and the groups behind it are the grouping of the regions.
pub proof fn lemma_summary_leads_the_matrix(
    matrix: Seq<Seq<RegionView>>,
    summary: RegionView,
    regions: Seq<RegionView>,
)
    requires
        is_matrix(matrix, Some(summary), regions),
    ensures
        matrix.len() >= 1,
        matrix[0] == seq![summary],
        matrix[0].len() == 1,
        matrix.len() <= 1 + regions.len(),
        regions.len() == 0 ==> matrix.len() == 1,
        matrix.skip(1).flatten() == regions,
{
    lemma_groups_at_most_regions(matrix.skip(1));
    if regions.len() == 0 && matrix.len() > 1 {
        assert(matrix.skip(1)[0].len() > 0);
    }
}

/// The groups of one snapshot of a process, in the order of the regions. It is built
/// once and only read afterwards.
pub struct RegionMatrix {
    groups: Vec<Vec<MemoryRegion>>,
}

impl View for RegionMatrix {
    type V = Seq<Seq<RegionView>>;

    closed spec fn view(&self) -> Seq<Seq<RegionView>> {
        self.groups.deep_view()
    }
}

impl RegionMatrix {
    /// The invariant of a matrix: no group is empty and each group has one label.
    /// Every matrix that exists at run time meets it.
    #[verifier::type_invariant]
    pub open spec fn wf(&self) -> bool {
        uniform(self@)
    }

    /// Builds the matrix of a snapshot from the regions in the order in which they
    /// were read and the summary record, where the process has one. The summary is
    /// not merged with any region: it stands alone at index 0.
    pub fn new(rollup: Option<MemoryRegion>, regions: Vec<MemoryRegion>) -> (matrix: Self)
        ensures
            matrix.wf(),
            is_matrix(matrix@, rollup.deep_view(), regions.deep_view()),
    {
        let mut groups = group_regions(regions);
        let ghost merged = groups.deep_view();
        match rollup {
            Some(summary) => {
                let mut alone: Vec<MemoryRegion> = Vec::new();
                let ghost view = summary@;
                alone.push(summary);
                groups.insert(0, alone);
                proof {
                    let all = groups.deep_view();
                    assert(all[0] =~= seq![view]);
                    assert(all.skip(1) =~= merged);
                    assert forall|g: int| 0 < g < all.len() implies all[g] == merged[g - 1] by {}
                }
            },
            None => {},
        }
        RegionMatrix { groups }
    }

    /// The number of groups.
    pub fn len(&self) -> (n: usize)
        ensures
            n == self@.len(),
    {
        self.groups.len()
    }

    /// The group at an index, where there is one.
    pub fn group(&self, g: usize) -> (group: Option<&Vec<MemoryRegion>>)
        ensures
            match group {
                Some(members) => g < self@.len() && members.deep_view() == self@[g as int],
                None => g >= self@.len(),
            },
    {
        if g < self.groups.len() {
            Some(&self.groups[g])
        } else {
            None
        }
    }

    /// The region at a member index of a group, where there is one.
    pub fn region(&self, g: usize, m: usize) -> (region: Option<&MemoryRegion>)
        ensures
            match region {
                Some(r) => g < self@.len() && m < self@[g as int].len() && r@ == self@[g as int][m as int],
                None => g >= self@.len() || m >= self@[g as int].len(),
            },
    {
        if g < self.groups.len() && m < self.groups[g].len() {
            Some(&self.groups[g][m])
        } else {
            None
        }
    }
}

} // verus!

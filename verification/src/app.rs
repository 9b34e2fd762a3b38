//! The selection coordinator: the state of one browsing session, in which the entry
//! chosen in the path pane decides which group the segment pane shows.

use crate::grouping::{is_matrix, lemma_groups_at_most_regions, RegionMatrix};
use crate::path_list::{
    clamped, lemma_chosen_entry_is_its_group, PathListView, PathListWidget,
};
use crate::region::{MemoryRegion, RegionView};
use crate::search::{chosen_from, SEARCH_CAPACITY};
use crate::segment::{SegmentTableWidget, SegmentView};
use crate::std_specs::share;
use crate::widgets::{HelpView, HelpWidget, InfoWidget, PathFilterWidget};
use std::rc::Rc;
use vstd::prelude::*;

pub use crate::region::mmpath_to_string;

verus! {

/// The pane that has the focus.
#[derive(Clone, Copy, Debug, PartialEq, Eq, Structural)]
pub enum AppSelectedPane {
    Segment,
    Path,
}

/// The mathematical value of a session.
pub struct AppView {
    /// Whether the session goes on.
    pub running: bool,
    /// Whether the log is shown beside the panes.
    pub debug: bool,
    /// The pane that has the focus.
    pub pane: AppSelectedPane,
    /// The matrix of the snapshot.
    pub matrix: Seq<Seq<RegionView>>,
    pub segment: SegmentView,
    pub path: PathListView,
    /// The filter as typed.
    pub filter: Seq<char>,
    /// The region in the detail panel.
    pub info: Option<RegionView>,
    pub help: HelpView,
}

impl AppView {
    /// The invariant: both panes are well formed and look at the one matrix of the
    /// session.
    pub open spec fn wf(self) -> bool {
        &&& self.segment.wf()
        &&& self.path.wf()
        &&& self.segment.matrix == self.matrix
        &&& self.path.matrix == self.matrix
    }

    /// The session ends.
    pub open spec fn quit(self) -> Self {
        AppView { running: false, ..self }
    }

    /// The focus moves to the other pane. As it leaves the segment pane, the member
    /// cursor returns to the first member.
    pub open spec fn pane_switched(self) -> Self {
        match self.pane {
            AppSelectedPane::Segment => AppView {
                pane: AppSelectedPane::Path,
                segment: (SegmentView { active: false, ..self.segment }).to_start(),
                path: PathListView { active: true, ..self.path },
                ..self
            },
            AppSelectedPane::Path => AppView {
                pane: AppSelectedPane::Segment,
                segment: SegmentView { active: true, ..self.segment },
                path: PathListView { active: false, ..self.path },
                ..self
            },
        }
    }

    /// The panes brought in line before a frame is drawn. The path pane takes the
    /// filter as typed and shows the matcher's snapshot. The group of the entry under
    /// its cursor becomes the active group of the segment pane; where that is
    /// another group than before, the member cursor returns to the first member.
    /// The detail panel shows the region under the member cursor, or none while the
    /// path pane has no entry under its cursor.
    pub open spec fn synced(self) -> Self {
        let path = self.path.filtered(self.filter).showing(self.path.snapshot);
        let group = path.chosen_group();
        let segment = if group == self.segment.group {
            self.segment
        } else {
            self.segment.switched(group)
        };
        let info = if group.is_none() {
            None
        } else {
            segment.current()
        };
        AppView { path, segment, info, ..self }
    }
}

/// The rule of the coordinator: once the panes are brought in line, the active group
/// of the segment pane is the group of the entry under the path cursor; the member
/// cursor has returned to the first member if that is another group than before and
/// has stayed otherwise; and the detail panel shows the region under the member
/// cursor exactly while the path pane has a cursor.
pub proof fn lemma_sync_follows_the_path_cursor(app: AppView)
    requires
        app.wf(),
        chosen_from(app.path.snapshot, app.path.registered),
    ensures
        app.synced().wf(),
        app.synced().segment.group == app.synced().path.chosen_group(),
        app.synced().segment.member == if app.synced().segment.group == app.segment.group {
            app.segment.member
        } else {
            0
        },
        app.synced().info == if app.synced().path.selected.is_some() {
            app.synced().segment.current()
        } else {
            None
        },
        app.synced().path.selected.is_some() ==> app.synced().info.is_some(),
{
    let after = app.synced();
    if after.path.selected.is_some() {
        lemma_chosen_entry_is_its_group(after.path);
    }
}

/// One browsing session over the snapshot of one process.
pub struct App {
    pub(crate) running: bool,
    pub(crate) debug: bool,
    pub(crate) selected_pane: AppSelectedPane,
    pub(crate) memory_maps: Rc<RegionMatrix>,
    pub(crate) segment_list_widget: SegmentTableWidget,
    pub(crate) path_list_widget: PathListWidget,
    pub(crate) path_filter_widget: PathFilterWidget,
    pub(crate) info_widget: InfoWidget,
    pub(crate) help_widget: HelpWidget,
}

impl View for App {
    type V = AppView;

    open(crate) spec fn view(&self) -> AppView {
        AppView {
            running: self.running,
            debug: self.debug,
            pane: self.selected_pane,
            matrix: self.memory_maps@,
            segment: self.segment_list_widget@,
            path: self.path_list_widget@,
            filter: self.path_filter_widget@,
            info: self.info_widget@,
            help: self.help_widget@,
        }
    }
}

impl App {
    /// The invariant of a session, which the constructor establishes and every
    /// operation keeps. No operation depends on it.
    pub open spec fn wf(&self) -> bool {
        self@.wf()
    }

    /// A session over the regions of a process, in the order in which they were
    /// read, and its summary record where it has one. The matrix is built once; both
    /// panes look at it. The path pane has the focus.
    pub fn new(rollup: Option<MemoryRegion>, regions: Vec<MemoryRegion>, debug: bool) -> (app: Self)
        requires
            regions@.len() < SEARCH_CAPACITY,
        ensures
            app.wf(),
            app@.running,
            app@.debug == debug,
            app@.pane == AppSelectedPane::Path,
            is_matrix(app@.matrix, rollup.deep_view(), regions.deep_view()),
            app@.segment == (SegmentView {
                matrix: app@.matrix,
                group: None,
                member: 0,
                active: false,
            }),
            app@.path.matches == app@.path.snapshot,
            app@.path.selected == clamped(Some(0), app@.path.matches.len() as int),
            !app@.path.toggle,
            app@.path.filter == Seq::<char>::empty(),
            app@.path.pattern == Seq::<char>::empty(),
            app@.path.active,
            app@.filter == Seq::<char>::empty(),
            app@.info.is_none(),
            app@.help == (HelpView { toggle: false, toggle_vm_flags: false }),
    {
        let memory_maps = Rc::new(RegionMatrix::new(rollup, regions));
        proof {
            let matrix = memory_maps@;
            match rollup.deep_view() {
                Some(_) => {
                    lemma_groups_at_most_regions(matrix.skip(1));
                },
                None => {
                    lemma_groups_at_most_regions(matrix);
                },
            }
        }
        Self {
            running: true,
            debug,
            selected_pane: AppSelectedPane::Path,
            segment_list_widget: SegmentTableWidget::new(share(&memory_maps)),
            path_list_widget: PathListWidget::new(share(&memory_maps)),
            memory_maps,
            path_filter_widget: PathFilterWidget::default(),
            info_widget: InfoWidget::default(),
            help_widget: HelpWidget::default(),
        }
    }

    /// Gives the matcher a short time to catch up with the filter. It returns
    /// whether the matcher is still at work. Only the matcher's state may differ
    /// afterwards. Where the matcher is no longer at work, it is at rest and has
    /// caught up: its snapshot holds its ranked matches for the groups and the
    /// filter. A matcher that was at rest stays at rest and keeps its snapshot,
    /// however often it is ticked.
    pub fn tick(&mut self) -> (running: bool)
        ensures
            old(self).wf() ==> final(self).wf(),
            final(self)@ == (AppView {
                path: PathListView {
                    snapshot: final(self)@.path.snapshot,
                    resting: !running,
                    ..old(self)@.path
                },
                ..old(self)@
            }),
            !running ==> final(self)@.path.settled(),
            old(self)@.path.resting ==> !running && final(self)@.path.snapshot
                == old(self)@.path.snapshot,
    {
        self.path_list_widget.tick()
    }

    /// Ends the session.
    pub fn quit(&mut self)
        ensures
            final(self)@ == old(self)@.quit(),
    {
        self.running = false;
    }

    /// Whether the session goes on.
    pub fn running(&self) -> (running: bool)
        ensures
            running == self@.running,
    {
        self.running
    }

    /// Moves the focus to the other pane. As the focus leaves the segment pane, the
    /// member cursor returns to the first member, so that it cannot lie outside a
    /// shorter group that the path pane chooses next.
    pub fn switch_pane(&mut self)
        ensures
            old(self).wf() ==> final(self).wf(),
            final(self)@ == old(self)@.pane_switched(),
    {
        match self.selected_pane {
            AppSelectedPane::Segment => {
                self.segment_list_widget.active_pane(false);
                self.segment_list_widget.reset_select();
                self.selected_pane = AppSelectedPane::Path;
                self.path_list_widget.active_pane(true);
            },
            AppSelectedPane::Path => {
                self.path_list_widget.active_pane(false);
                self.selected_pane = AppSelectedPane::Segment;
                self.segment_list_widget.active_pane(true);
            },
        }
    }

    /// Whether the log is shown beside the panes.
    pub fn debug(&self) -> (debug: bool)
        ensures
            debug == self@.debug,
    {
        self.debug
    }

    /// The pane that has the focus.
    pub fn selected_pane(&self) -> (pane: AppSelectedPane)
        ensures
            pane == self@.pane,
    {
        self.selected_pane
    }

    /// The matrix of the session.
    pub fn memory_maps(&self) -> (matrix: &RegionMatrix)
        ensures
            matrix@ == self@.matrix,
    {
        &self.memory_maps
    }

    /// The segment pane.
    pub fn segment_list_widget(&self) -> (widget: &SegmentTableWidget)
        ensures
            widget@ == self@.segment,
    {
        &self.segment_list_widget
    }

    /// The path pane.
    pub fn path_list_widget(&self) -> (widget: &PathListWidget)
        ensures
            widget@ == self@.path,
    {
        &self.path_list_widget
    }

    /// The filter line.
    pub fn path_filter_widget(&self) -> (widget: &PathFilterWidget)
        ensures
            widget@ == self@.filter,
    {
        &self.path_filter_widget
    }

    /// The detail panel.
    pub fn info_widget(&self) -> (widget: &InfoWidget)
        ensures
            widget@ == self@.info,
    {
        &self.info_widget
    }

    /// The help screen.
    pub fn help_widget(&self) -> (widget: &HelpWidget)
        ensures
            widget@ == self@.help,
    {
        &self.help_widget
    }
}

} // verus!

//! The step before a frame is drawn: the panes are brought in line with each other,
//! so that the drawing only has to read them.

use crate::app::App;
use crate::region::MemoryRegion;
use vstd::prelude::*;

pub use crate::path_list::PathListWidget;
pub use crate::segment::SegmentTableWidget;
pub use crate::widgets::{HelpWidget, InfoWidget, PathFilterWidget};

verus! {

/// Brings the panes in line before a frame is drawn. The path pane takes the filter
/// as typed and shows the matcher's snapshot; the group of the entry under its cursor
/// becomes the active group of the segment pane, and where that is another group than
/// before, the member cursor returns to the first member; the detail panel shows the
/// region under the member cursor, or none while the path pane has no entry under its
/// cursor. In a well-formed session the active group is afterwards the group of the
/// chosen entry.
pub fn render(app: &mut App)
    ensures
        final(app)@ == old(app)@.synced(),
        old(app).wf() ==> final(app).wf() && final(app)@.segment.group
            == final(app)@.path.chosen_group(),
{
    app.path_list_widget.filter(app.path_filter_widget.text().clone());
    app.path_list_widget.refresh();
    let group = app.path_list_widget.selected_identifiers();
    let changed = match (group, app.segment_list_widget.group()) {
        (Some(chosen), Some(active)) => chosen != active,
        (None, None) => false,
        _ => true,
    };
    if changed {
        app.segment_list_widget.active_group_changed(group);
    }
    let detail: Option<MemoryRegion> = match group {
        Some(_) => match app.segment_list_widget.selected_segment() {
            Some(region) => Some(region.clone()),
            None => None,
        },
        None => None,
    };
    app.info_widget.selected_segments(detail);
}

} // verus!

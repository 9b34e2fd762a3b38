//! What a key does to the session.

use crate::app::{App, AppSelectedPane, AppView};
use crate::path_list::PathListView;
use vstd::prelude::*;

verus! {

/// A key of the keyboard, as far as the session tells keys apart.
#[derive(Clone, Copy, Debug, PartialEq, Eq, Structural)]
pub enum KeyCode {
    Char(char),
    Enter,
    Backspace,
    Esc,
    Down,
    Up,
    Tab,
    /// Any other key.
    Other,
}

/// One press of a key.
#[derive(Clone, Copy, Debug, PartialEq, Eq, Structural)]
pub struct KeyEvent {
    pub code: KeyCode,
    /// Whether Control, and no other modifier, was held.
    pub control: bool,
}

/// The filter of a session after a key, while the filter line is open: a character
/// is appended, Backspace takes the last one off.
pub open spec fn typed(filter: Seq<char>, code: KeyCode) -> Seq<char> {
    match code {
        KeyCode::Char(c) => filter.push(c),
        KeyCode::Backspace => if filter.len() > 0 {
            filter.drop_last()
        } else {
            filter
        },
        _ => filter,
    }
}

/// The session after a key.
///
/// While the filter line is open, `/` and Enter close it and every other key edits
/// the filter. Otherwise Esc and `q` end the session, as does `c` or `C` with
/// Control; `j` and Down, `k` and Up, `g` and `G` move the cursor of the pane that
/// has the focus down, up, to the top and to the bottom; Tab moves the focus; `/`
/// opens the filter line; `h` opens or closes the help screen and `v` its table of
/// flags. Any other key does nothing.
pub open spec fn key_effect(app: AppView, key: KeyEvent) -> AppView {
    if app.path.toggle {
        match key.code {
            KeyCode::Char('/') | KeyCode::Enter => AppView {
                path: PathListView { toggle: false, ..app.path },
                ..app
            },
            _ => AppView { filter: typed(app.filter, key.code), ..app },
        }
    } else {
        match key.code {
            KeyCode::Esc | KeyCode::Char('q') => app.quit(),
            KeyCode::Char('c') | KeyCode::Char('C') => if key.control {
                app.quit()
            } else {
                app
            },
            KeyCode::Char('j') | KeyCode::Down => match app.pane {
                AppSelectedPane::Path => AppView { path: app.path.moved_down(), ..app },
                AppSelectedPane::Segment => AppView { segment: app.segment.advance(), ..app },
            },
            KeyCode::Char('k') | KeyCode::Up => match app.pane {
                AppSelectedPane::Path => AppView { path: app.path.moved_up(), ..app },
                AppSelectedPane::Segment => AppView { segment: app.segment.retreat(), ..app },
            },
            KeyCode::Char('g') => match app.pane {
                AppSelectedPane::Path => AppView { path: app.path.at_top(), ..app },
                AppSelectedPane::Segment => AppView { segment: app.segment.to_start(), ..app },
            },
            KeyCode::Char('G') => match app.pane {
                AppSelectedPane::Path => AppView { path: app.path.at_bottom(), ..app },
                AppSelectedPane::Segment => AppView { segment: app.segment.to_end(), ..app },
            },
            KeyCode::Tab => app.pane_switched(),
            KeyCode::Char('/') => AppView { path: PathListView { toggle: true, ..app.path }, ..app },
            KeyCode::Char('h') => AppView { help: app.help.toggled(), ..app },
            KeyCode::Char('v') => AppView { help: app.help.flags_toggled(), ..app },
            _ => app,
        }
    }
}

/// Applies a key to the session.
pub fn handle_key_events(key_event: KeyEvent, app: &mut App)
    ensures
        old(app).wf() ==> final(app).wf(),
        final(app)@ == key_effect(old(app)@, key_event),
{
    if app.path_list_widget.is_toggled() {
        match key_event.code {
            KeyCode::Char('/') | KeyCode::Enter => app.path_list_widget.toggle(),
            KeyCode::Backspace => {
                app.path_filter_widget.pop();
            },
            KeyCode::Char(value) => app.path_filter_widget.push(value),
            _ => (),
        }
    } else {
        match key_event.code {
            KeyCode::Esc | KeyCode::Char('q') => {
                app.quit();
            },
            KeyCode::Char('c') | KeyCode::Char('C') => {
                if key_event.control {
                    app.quit();
                }
            },
            KeyCode::Char('j') | KeyCode::Down => match app.selected_pane {
                AppSelectedPane::Path => app.path_list_widget.next(),
                AppSelectedPane::Segment => app.segment_list_widget.next(),
            },
            KeyCode::Char('k') | KeyCode::Up => match app.selected_pane {
                AppSelectedPane::Path => app.path_list_widget.previous(),
                AppSelectedPane::Segment => app.segment_list_widget.previous(),
            },
            KeyCode::Char('g') => match app.selected_pane {
                AppSelectedPane::Path => app.path_list_widget.go_top(),
                AppSelectedPane::Segment => app.segment_list_widget.go_top(),
            },
            KeyCode::Char('G') => match app.selected_pane {
                AppSelectedPane::Path => app.path_list_widget.go_bottom(),
                AppSelectedPane::Segment => app.segment_list_widget.go_bottom(),
            },
            KeyCode::Tab => app.switch_pane(),
            KeyCode::Char('/') => app.path_list_widget.toggle(),
            KeyCode::Char('h') => {
                app.help_widget.toggle();
            },
            KeyCode::Char('v') => app.help_widget.toggle_vm_flags(),
            _ => {},
        }
    }
}

} // verus!

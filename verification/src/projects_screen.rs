//! The projects screen over locally stored rows.

use crate::event::{PhoenixEvent, ScreenType};
use crate::keys::{Key, KeyInput};
use crate::router::AppActions;
use crate::selection::Selection;
use vstd::prelude::*;

verus! {

/// One locally stored project: where it lives and what opens it.
#[derive(PartialEq, Eq, Debug)]
pub struct ProjectData {
    pub id: i32,
    pub name: String,
    pub editor: String,
    pub path: String,
}

/// The projects screen: locally stored rows and a cursor over them.
/// The rows are loaded from local storage outside the library and
/// handed in whole.
#[derive(PartialEq, Eq, Debug)]
pub struct ProjectsScreen {
    pub data: Vec<ProjectData>,
    pub table_state: Selection,
}

/// What one key press does to the projects screen.  `q` and Escape
/// quit, `b` goes back to the top menu, `j`/`k` move the cursor, and
/// `n`, `d` and `e` — placeholders for adding, deleting and editing
/// rows — only move the cursor one row up for now; Enter picks nothing
/// the library acts on, and every other key is ignored.
pub open spec fn projects_key_post(
    pre: ProjectsScreen,
    post: ProjectsScreen,
    e: KeyInput,
    r: Option<AppActions>,
) -> bool {
    let n = pre.data@.len() as usize;
    if e.code == Key::Char('q') || e.code == Key::Esc {
        post == pre && r == Some(AppActions::Quit)
    } else if e.code == Key::Char('b') {
        post == pre && r == Some(AppActions::ChangeScreen(ScreenType::Main))
    } else if e.code == Key::Char('j') {
        post.data == pre.data && post.table_state == pre.table_state.spec_next(n) && r == None::<
            AppActions,
        >
    } else if e.code == Key::Char('k') || e.code == Key::Char('n') || e.code == Key::Char('d')
        || e.code == Key::Char('e') {
        post.data == pre.data && post.table_state == pre.table_state.spec_previous(n) && r
            == None::<AppActions>
    } else {
        post == pre && r == None::<AppActions>
    }
}

impl ProjectsScreen {
    /// The cursor points at a row the table has, or at nothing.
    pub open spec fn wf(self) -> bool {
        self.table_state.in_bounds(self.data@.len())
    }

    /// Shows the given rows with the first one picked, if there is one.
    pub fn new(data: Vec<ProjectData>) -> (r: ProjectsScreen)
        ensures
            r.data == data,
            r.table_state.selected == if data@.len() > 0 {
                Some(0usize)
            } else {
                None::<usize>
            },
            r.wf(),
    {
        let selected: Option<usize> = if data.len() > 0 {
            Some(0)
        } else {
            None
        };
        ProjectsScreen { data, table_state: Selection { selected } }
    }

    /// Replaces the rows wholesale, putting the cursor on the first of
    /// the new rows, if there is one.
    pub fn set_data(&mut self, data: Vec<ProjectData>)
        ensures
            final(self).data == data,
            final(self).table_state.selected == if data@.len() > 0 {
                Some(0usize)
            } else {
                None::<usize>
            },
            final(self).wf(),
    {
        self.data = data;
        self.table_state.selected = if self.data.len() > 0 {
            Some(0)
        } else {
            None
        };
    }

    /// Routes one key press over the projects table.
    pub fn handle_key(&mut self, e: KeyInput) -> (r: Option<AppActions>)
        requires
            old(self).wf(),
        ensures
            final(self).wf(),
            projects_key_post(*old(self), *final(self), e, r),
    {
        match e.code {
            Key::Char('q') | Key::Esc => Some(AppActions::Quit),
            Key::Char('b') => Some(AppActions::ChangeScreen(ScreenType::Main)),
            Key::Char('j') => {
                self.table_state.select_next(self.data.len());
                None
            },
            Key::Char('k') | Key::Char('n') | Key::Char('d') | Key::Char('e') => {
                self.table_state.select_previous(self.data.len());
                None
            },
            Key::Enter => None,
            _ => None,
        }
    }

    /// Inbound envelopes are shown nowhere here; they are dropped.
    pub fn handle_socket_event(&self, event: PhoenixEvent) {
        let _ = event;
    }
}

} // verus!

use crate::bin_screen::{Bin, BinActions, BinCommand, CurrentScreen, File};
use crate::keys::{Key, KeyInput};
use crate::router::AppActions;
use crate::selection::Selection;
use vstd::prelude::*;

verus! {

/// One bin laid open, with a cursor over its attached files.
#[derive(PartialEq, Debug)]
pub struct ShowScreen {
    pub bin: Bin,
    pub list_state: Selection,
}

/// What one key press does to the show screen.  `q` and Escape quit,
/// `b` goes back to the list, `j`/`k` and the arrows move the file
/// cursor when there are files, `d` emits a delete command, `o` leaves
/// the state alone (the picked file is opened outside), `e` opens the
/// edit form seeded with a copy of the bin, and every other key is
/// ignored.
pub open spec fn show_key_post(
    pre: ShowScreen,
    post: ShowScreen,
    e: KeyInput,
    r: Option<BinActions>,
) -> bool {
    let n = pre.bin.files@.len() as usize;
    if e.code == Key::Char('q') || e.code == Key::Esc {
        post == pre && r == Some(BinActions::App(AppActions::Quit))
    } else if e.code == Key::Char('b') {
        post == pre && r == Some(BinActions::ChangeScreen(CurrentScreen::Main, None))
    } else if e.code == Key::Char('j') || e.code == Key::Down {
        post.bin == pre.bin && post.list_state == if n > 0 {
            pre.list_state.spec_next(n)
        } else {
            pre.list_state
        } && r == None::<BinActions>
    } else if e.code == Key::Char('k') || e.code == Key::Up {
        post.bin == pre.bin && post.list_state == if n > 0 {
            pre.list_state.spec_previous(n)
        } else {
            pre.list_state
        } && r == None::<BinActions>
    } else if e.code == Key::Char('d') {
        post == pre && r == Some(
            BinActions::SendEvent(Some(BinCommand::Delete { id: pre.bin.id })),
        )
    } else if e.code == Key::Char('o') {
        post == pre && r == None::<BinActions>
    } else if e.code == Key::Char('e') {
        post == pre && (r matches Some(
            BinActions::ChangeScreen(CurrentScreen::Edit, Some(b)),
        ) && b.same_as(pre.bin))
    } else {
        post == pre && r == None::<BinActions>
    }
}

/// A show screen freshly opened on this bin, no file picked yet.
pub open spec fn showing(s: ShowScreen, b: Bin) -> bool {
    &&& s.bin == b
    &&& s.list_state.selected == None::<usize>
}

impl ShowScreen {
    /// The file cursor points at a file the bin has, or at nothing.
    pub open spec fn wf(self) -> bool {
        self.list_state.in_bounds(self.bin.files@.len())
    }

    /// Opens the given bin with no file picked.
    pub fn new(bin: Bin) -> (r: ShowScreen)
        ensures
            showing(r, bin),
            r.wf(),
    {
        ShowScreen { bin, list_state: Selection::new() }
    }

    /// Routes one key press over the opened bin.
    pub fn handle_key(&mut self, e: KeyInput) -> (r: Option<BinActions>)
        requires
            old(self).wf(),
        ensures
            final(self).wf(),
            show_key_post(*old(self), *final(self), e, r),
    {
        match e.code {
            Key::Char('q') | Key::Esc => Some(BinActions::App(AppActions::Quit)),
            Key::Char('b') => Some(BinActions::ChangeScreen(CurrentScreen::Main, None)),
            Key::Char('j') | Key::Down => {
                if self.bin.files.len() > 0 {
                    self.list_state.select_next(self.bin.files.len());
                }
                None
            },
            Key::Char('k') | Key::Up => {
                if self.bin.files.len() > 0 {
                    self.list_state.select_previous(self.bin.files.len());
                }
                None
            },
            Key::Char('d') => Some(
                BinActions::SendEvent(Some(BinCommand::Delete { id: self.bin.id })),
            ),
            Key::Char('o') => None,
            Key::Char('e') => {
                let selected = self.bin.clone();
                Some(BinActions::ChangeScreen(CurrentScreen::Edit, Some(selected)))
            },
            _ => None,
        }
    }

    /// The file under the cursor, for the caller to open outside.
    pub fn selected_file(&self) -> (r: Option<File>)
        requires
            self.wf(),
        ensures
            match self.list_state.selected {
                None => r == None::<File>,
                Some(i) => r == Some(self.bin.files@[i as int]),
            },
    {
        match self.list_state.selected {
            Some(i) => Some(self.bin.files[i].clone()),
            None => None,
        }
    }
}

} // verus!

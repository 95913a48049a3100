use crate::bin_screen::{Bin, BinActions, CurrentScreen};
use crate::event::ScreenType;
use crate::keys::{Key, KeyInput};
use crate::router::AppActions;
use crate::selection::Selection;
use vstd::prelude::*;

verus! {

/// The bin list: every known bin and a cursor over them.
#[derive(PartialEq, Debug)]
pub struct MainScreen {
    pub bins: Vec<Bin>,
    pub list_state: Selection,
}

/// What one key press does to the bin list.  `q` and Escape quit, `b`
/// goes back to the top menu, `j`/`k`/`g`/`G` and their arrow and
/// Home/End twins move the cursor, `l` or Enter opens the picked bin,
/// `n` opens an empty form, and every other key is ignored.
pub open spec fn bin_list_key_post(
    pre: MainScreen,
    post: MainScreen,
    e: KeyInput,
    r: Option<BinActions>,
) -> bool {
    let n = pre.bins@.len() as usize;
    if e.code == Key::Char('q') || e.code == Key::Esc {
        post == pre && r == Some(BinActions::App(AppActions::Quit))
    } else if e.code == Key::Char('b') {
        post == pre && r == Some(BinActions::App(AppActions::ChangeScreen(ScreenType::Main)))
    } else if e.code == Key::Char('j') || e.code == Key::Down {
        post.bins == pre.bins && post.list_state == pre.list_state.spec_next(n) && r == None::<
            BinActions,
        >
    } else if e.code == Key::Char('k') || e.code == Key::Up {
        post.bins == pre.bins && post.list_state == pre.list_state.spec_previous(n) && r == None::<
            BinActions,
        >
    } else if e.code == Key::Char('g') || e.code == Key::Home {
        post.bins == pre.bins && post.list_state.selected == if n > 0 {
            Some(0usize)
        } else {
            pre.list_state.selected
        } && r == None::<BinActions>
    } else if e.code == Key::Char('G') || e.code == Key::End {
        post.bins == pre.bins && post.list_state.selected == if n > 0 {
            Some((n - 1) as usize)
        } else {
            pre.list_state.selected
        } && r == None::<BinActions>
    } else if e.code == Key::Char('l') || e.code == Key::Enter {
        match pre.list_state.selected {
            None => post == pre && r == None::<BinActions>,
            Some(i) => post == pre && (r matches Some(
                BinActions::ChangeScreen(CurrentScreen::Show, Some(b)),
            ) && b.same_as(pre.bins@[i as int])),
        }
    } else if e.code == Key::Char('n') {
        post == pre && r == Some(BinActions::ChangeScreen(CurrentScreen::New, None))
    } else {
        post == pre && r == None::<BinActions>
    }
}

/// A bin list freshly opened: no bins yet and no row picked.
pub open spec fn initial_list(m: MainScreen) -> bool {
    &&& m.bins@ == Seq::<Bin>::empty()
    &&& m.list_state.selected == None::<usize>
}

impl MainScreen {
    /// The cursor points at a bin the list has, or at nothing.
    pub open spec fn wf(self) -> bool {
        self.list_state.in_bounds(self.bins@.len())
    }

    /// Shows the given bins with no row picked.
    pub fn new(bins: Vec<Bin>) -> (r: MainScreen)
        ensures
            r.bins == bins,
            r.list_state.selected == None::<usize>,
            r.wf(),
    {
        MainScreen { bins, list_state: Selection::new() }
    }

    /// Routes one key press over the bin list.
    pub fn handle_key(&mut self, e: KeyInput) -> (r: Option<BinActions>)
        requires
            old(self).wf(),
        ensures
            final(self).wf(),
            bin_list_key_post(*old(self), *final(self), e, r),
    {
        match e.code {
            Key::Char('q') | Key::Esc => Some(BinActions::App(AppActions::Quit)),
            Key::Char('b') => Some(BinActions::App(AppActions::ChangeScreen(ScreenType::Main))),
            Key::Char('j') | Key::Down => {
                self.list_state.select_next(self.bins.len());
                None
            },
            Key::Char('k') | Key::Up => {
                self.list_state.select_previous(self.bins.len());
                None
            },
            Key::Char('g') | Key::Home => {
                self.list_state.select_first(self.bins.len());
                None
            },
            Key::Char('G') | Key::End => {
                self.list_state.select_last(self.bins.len());
                None
            },
            Key::Char('l') | Key::Enter => {
                match self.list_state.selected {
                    Some(index) => {
                        let selected = self.bins[index].clone();
                        Some(BinActions::ChangeScreen(CurrentScreen::Show, Some(selected)))
                    },
                    None => None,
                }
            },
            Key::Char('n') => Some(BinActions::ChangeScreen(CurrentScreen::New, None)),
            _ => None,
        }
    }

    /// Puts the cursor on the first bin, if there is one.
    pub fn select_first(&mut self)
        requires
            old(self).wf(),
        ensures
            final(self).bins == old(self).bins,
            final(self).list_state.selected == if old(self).bins@.len() > 0 {
                Some(0usize)
            } else {
                old(self).list_state.selected
            },
            final(self).wf(),
    {
        self.list_state.select_first(self.bins.len());
    }
}

} // verus!

//! The top menu and the screens its entries open.

use crate::event::{PhoenixEvent, ScreenType};
use crate::keys::{Key, KeyInput};
use crate::router::AppActions;
use crate::selection::Selection;
use crate::text::str_eq;
use vstd::prelude::*;

verus! {

/// The entries of the top menu.
#[derive(Clone, Copy, PartialEq, Eq, Structural, Debug)]
pub enum Menu {
    Todos,
    Notes,
    Phoenix,
    Projects,
}

/// The menu entry a label denotes, if any.
pub open spec fn spec_menu_from(s: Seq<char>) -> Option<Menu> {
    if s == "Notes"@ {
        Some(Menu::Notes)
    } else if s == "Phoenix"@ {
        Some(Menu::Phoenix)
    } else if s == "Projects"@ {
        Some(Menu::Projects)
    } else if s == "Todos"@ {
        Some(Menu::Todos)
    } else {
        None
    }
}

/// The screen a menu entry opens.  The Phoenix entry opens the bin
/// screen, the one backed by the realtime connection.
pub open spec fn menu_screen(m: Menu) -> ScreenType {
    match m {
        Menu::Notes => ScreenType::Notes,
        Menu::Phoenix => ScreenType::Bin,
        Menu::Todos => ScreenType::Todos,
        Menu::Projects => ScreenType::Projects,
    }
}

impl Menu {
    /// The menu entry under this label, if any.
    pub fn from_str(s: &str) -> (r: Option<Menu>)
        ensures
            r == spec_menu_from(s@),
    {
        if str_eq(s, "Notes") {
            Some(Menu::Notes)
        } else if str_eq(s, "Phoenix") {
            Some(Menu::Phoenix)
        } else if str_eq(s, "Projects") {
            Some(Menu::Projects)
        } else if str_eq(s, "Todos") {
            Some(Menu::Todos)
        } else {
            None
        }
    }

    /// The menu labels, in the order they are shown.
    pub fn items() -> (r: Vec<&'static str>)
        ensures
            r@.len() == 4,
            r@[0]@ == "Notes"@,
            r@[1]@ == "Phoenix"@,
            r@[2]@ == "Projects"@,
            r@[3]@ == "Todos"@,
    {
        let mut items: Vec<&'static str> = Vec::new();
        items.push("Notes");
        items.push("Phoenix");
        items.push("Projects");
        items.push("Todos");
        items
    }
}

/// The top menu: the fixed labels and a cursor over them.
#[derive(PartialEq, Eq, Debug)]
pub struct MainScreen {
    pub list_items: Vec<&'static str>,
    pub list_state: Selection,
}

/// A freshly opened top menu: the four labels with the first one picked.
pub open spec fn initial_menu(m: MainScreen) -> bool {
    &&& m.list_items@.len() == 4
    &&& m.list_items@[0]@ == "Notes"@
    &&& m.list_items@[1]@ == "Phoenix"@
    &&& m.list_items@[2]@ == "Projects"@
    &&& m.list_items@[3]@ == "Todos"@
    &&& m.list_state.selected == Some(0usize)
}

/// What one key press does to the top menu.  `q` and Escape quit,
/// `h`/Left drops the pick, `j`/`k`/`g`/`G` and their arrow and
/// Home/End twins move the cursor, `l`/Right/Enter opens the picked
/// entry's screen, and every other key is ignored.
pub open spec fn menu_key_post(
    pre: MainScreen,
    post: MainScreen,
    e: KeyInput,
    r: Option<AppActions>,
) -> bool {
    let n = pre.list_items@.len() as usize;
    if e.code == Key::Char('q') || e.code == Key::Esc {
        post == pre && r == Some(AppActions::Quit)
    } else if e.code == Key::Char('h') || e.code == Key::Left {
        post.list_items == pre.list_items && post.list_state.selected == None::<usize> && r
            == None::<AppActions>
    } else if e.code == Key::Char('j') || e.code == Key::Down {
        post.list_items == pre.list_items && post.list_state == pre.list_state.spec_next(n) && r
            == None::<AppActions>
    } else if e.code == Key::Char('k') || e.code == Key::Up {
        post.list_items == pre.list_items && post.list_state == pre.list_state.spec_previous(n)
            && r == None::<AppActions>
    } else if e.code == Key::Char('g') || e.code == Key::Home {
        post.list_items == pre.list_items && post.list_state.selected == if n > 0 {
            Some(0usize)
        } else {
            pre.list_state.selected
        } && r == None::<AppActions>
    } else if e.code == Key::Char('G') || e.code == Key::End {
        post.list_items == pre.list_items && post.list_state.selected == if n > 0 {
            Some((n - 1) as usize)
        } else {
            pre.list_state.selected
        } && r == None::<AppActions>
    } else if e.code == Key::Char('l') || e.code == Key::Right || e.code == Key::Enter {
        post == pre && r == match pre.list_state.selected {
            None => None::<AppActions>,
            Some(i) => match spec_menu_from(pre.list_items@[i as int]@) {
                None => None::<AppActions>,
                Some(m) => Some(AppActions::ChangeScreen(menu_screen(m))),
            },
        }
    } else {
        post == pre && r == None::<AppActions>
    }
}

impl MainScreen {
    /// The cursor points at a label the menu has, or at nothing.
    pub open spec fn wf(self) -> bool {
        self.list_state.in_bounds(self.list_items@.len())
    }

    /// The menu as first shown: all labels, the first one picked.
    pub fn new() -> (r: MainScreen)
        ensures
            initial_menu(r),
            r.wf(),
    {
        MainScreen { list_items: Menu::items(), list_state: Selection { selected: Some(0) } }
    }

    /// Routes one key press over the top menu.
    pub fn handle_key(&mut self, e: KeyInput) -> (r: Option<AppActions>)
        requires
            old(self).wf(),
        ensures
            final(self).wf(),
            menu_key_post(*old(self), *final(self), e, r),
    {
        match e.code {
            Key::Char('q') | Key::Esc => Some(AppActions::Quit),
            Key::Char('h') | Key::Left => {
                self.list_state.select_none();
                None
            },
            Key::Char('j') | Key::Down => {
                self.list_state.select_next(self.list_items.len());
                None
            },
            Key::Char('k') | Key::Up => {
                self.list_state.select_previous(self.list_items.len());
                None
            },
            Key::Char('g') | Key::Home => {
                self.list_state.select_first(self.list_items.len());
                None
            },
            Key::Char('G') | Key::End => {
                self.list_state.select_last(self.list_items.len());
                None
            },
            Key::Char('l') | Key::Right | Key::Enter => {
                match self.list_state.selected {
                    Some(i) => {
                        let item = self.list_items[i];
                        match Menu::from_str(item) {
                            Some(Menu::Notes) => Some(
                                AppActions::ChangeScreen(ScreenType::Notes),
                            ),
                            Some(Menu::Phoenix) => Some(AppActions::ChangeScreen(ScreenType::Bin)),
                            Some(Menu::Todos) => Some(AppActions::ChangeScreen(ScreenType::Todos)),
                            Some(Menu::Projects) => Some(
                                AppActions::ChangeScreen(ScreenType::Projects),
                            ),
                            None => None,
                        }
                    },
                    None => None,
                }
            },
            _ => None,
        }
    }

    /// Inbound envelopes carry nothing for the top menu; they are
    /// dropped here.
    pub fn handle_socket_event(&self, event: PhoenixEvent) {
        let _ = event;
    }
}

} // verus!

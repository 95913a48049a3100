//! The todos screen.

use crate::event::{PhoenixEvent, ScreenType};
use crate::keys::{Key, KeyInput};
use crate::router::AppActions;
use vstd::prelude::*;

verus! {

/// The todos screen: a placeholder that only waits to be left.
#[derive(PartialEq, Eq, Structural, Debug)]
pub struct TodosScreen {}

/// What one key press does to the todos screen: `q` and Escape quit,
/// `b` goes back to the top menu, everything else is ignored.
pub open spec fn todos_key_post(e: KeyInput, r: Option<AppActions>) -> bool {
    if e.code == Key::Char('q') || e.code == Key::Esc {
        r == Some(AppActions::Quit)
    } else if e.code == Key::Char('b') {
        r == Some(AppActions::ChangeScreen(ScreenType::Main))
    } else {
        r == None::<AppActions>
    }
}

impl TodosScreen {
    pub fn new() -> (r: TodosScreen)
        ensures
            r == (TodosScreen {  }),
    {
        TodosScreen {  }
    }

    /// Routes one key press over the todos screen.
    pub fn handle_key(&mut self, e: KeyInput) -> (r: Option<AppActions>)
        ensures
            *final(self) == *old(self),
            todos_key_post(e, r),
    {
        match e.code {
            Key::Char('q') | Key::Esc => Some(AppActions::Quit),
            Key::Char('b') => Some(AppActions::ChangeScreen(ScreenType::Main)),
            _ => None,
        }
    }

    /// Inbound envelopes are shown nowhere yet; they are dropped here.
    pub fn handle_socket_event(&self, event: PhoenixEvent) {
        let _ = event;
    }
}

} // verus!

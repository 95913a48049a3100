//! The notes screen.

use crate::event::{EventPayload, PhoenixEvent, ScreenType};
use crate::keys::{Key, KeyInput};
use crate::queue::{has_room, send_shape, OutboundQueue};
use crate::router::AppActions;
use vstd::prelude::*;
use vstd::string::StringExecFns;

verus! {

/// The notes screen.  It asks for the workspaces once when opened and
/// otherwise only waits to be left.
#[derive(PartialEq, Eq, Structural, Debug)]
pub struct NotesScreen {}

/// The queue effect of the notes screen's only command: either there
/// was room and a `notes` envelope asking for everything joined the
/// back, or the queue is unchanged.
pub open spec fn pushed_notes_command(q0: OutboundQueue, q1: OutboundQueue) -> bool {
    &&& send_shape(q0, q1)
    &&& (has_room(q0) ==> q1.items@.last().name@ == "notes"@ && q1.items@.last().payload == Some(
        EventPayload::NotesCommand,
    ))
}

/// What one key press does to the notes screen: `q` and Escape quit,
/// `b` goes back to the top menu, everything else is ignored.
pub open spec fn notes_key_post(e: KeyInput, r: Option<AppActions>) -> bool {
    if e.code == Key::Char('q') || e.code == Key::Esc {
        r == Some(AppActions::Quit)
    } else if e.code == Key::Char('b') {
        r == Some(AppActions::ChangeScreen(ScreenType::Main))
    } else {
        r == None::<AppActions>
    }
}

impl NotesScreen {
    /// Opens the notes screen and asks the backend for the notes.
    pub fn new(queue: &mut OutboundQueue) -> (r: NotesScreen)
        requires
            old(queue).wf(),
        ensures
            final(queue).wf(),
            pushed_notes_command(*old(queue), *final(queue)),
    {
        let screen = NotesScreen {  };
        Self::push_event(queue);
        screen
    }

    /// Queues the fetch-everything command on the `notes` topic,
    /// dropping it if the queue is full.
    fn push_event(queue: &mut OutboundQueue)
        requires
            old(queue).wf(),
        ensures
            final(queue).wf(),
            pushed_notes_command(*old(queue), *final(queue)),
    {
        let event = PhoenixEvent {
            name: String::from_str("notes"),
            payload: Some(EventPayload::NotesCommand),
        };
        queue.try_send(event);
        proof {
            if has_room(*old(queue)) {
                assert(queue.items@.subrange(0, old(queue).items@.len() as int) =~= old(
                    queue,
                ).items@);
            }
        }
    }

    /// Routes one key press over the notes screen.
    pub fn handle_key(&mut self, e: KeyInput) -> (r: Option<AppActions>)
        ensures
            *final(self) == *old(self),
            notes_key_post(e, r),
    {
        match e.code {
            Key::Char('q') | Key::Esc => Some(AppActions::Quit),
            Key::Char('b') => Some(AppActions::ChangeScreen(ScreenType::Main)),
            _ => None,
        }
    }

    /// Inbound envelopes are shown nowhere yet; they are dropped here.
    pub fn handle_socket_event(&self, event: PhoenixEvent) {
        let _ = event;
    }
}

} // verus!

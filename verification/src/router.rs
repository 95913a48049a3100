//! The router: one live top-level screen, the dispatch of key presses
//! and inbound envelopes to it, and wholesale screen replacement.

use crate::bin_screen::BinScreen;
use crate::event::{spec_route, PhoenixEvent, ScreenType};
use crate::keys::KeyInput;
use crate::main_screen::{initial_menu, menu_key_post, MainScreen};
use crate::notes_screen::{notes_key_post, pushed_notes_command, NotesScreen};
use crate::projects_screen::{projects_key_post, ProjectData, ProjectsScreen};
use crate::queue::OutboundQueue;
use crate::todos_screen::{todos_key_post, TodosScreen};
use vstd::prelude::*;

verus! {

/// What a screen asks the router to do.
#[derive(PartialEq, Eq, Structural, Debug)]
pub enum AppActions {
    /// Replace the active screen wholesale with a fresh one of this kind.
    ChangeScreen(ScreenType),
    /// Leave the application.
    Quit,
}

/// What the router asks the surrounding terminal loop to do.
#[derive(PartialEq, Eq, Structural, Debug)]
pub enum TUIAction {
    Quit,
}

/// The one live top-level screen.
#[derive(PartialEq, Debug)]
pub enum Screens {
    Main(MainScreen),
    Todos(TodosScreen),
    Bin(BinScreen),
    Notes(NotesScreen),
    Projects(ProjectsScreen),
}

/// The kind of the live screen.
pub open spec fn kind_of(s: Screens) -> ScreenType {
    match s {
        Screens::Main(_) => ScreenType::Main,
        Screens::Todos(_) => ScreenType::Todos,
        Screens::Bin(_) => ScreenType::Bin,
        Screens::Notes(_) => ScreenType::Notes,
        Screens::Projects(_) => ScreenType::Projects,
    }
}

/// The live screen is in shape.
pub open spec fn screens_wf(s: Screens) -> bool {
    match s {
        Screens::Main(m) => m.wf(),
        Screens::Todos(_) => true,
        Screens::Bin(b) => b.wf(),
        Screens::Notes(_) => true,
        Screens::Projects(p) => p.wf(),
    }
}

/// The machine bounds under which the live screen takes one more
/// character.
pub open spec fn screens_has_room(s: Screens) -> bool {
    match s {
        Screens::Bin(b) => crate::bin_screen::screens_has_room(b.screen),
        _ => true,
    }
}

/// The live screen's expiry buffer, if it has one on show, denotes a
/// number a save command can carry.
pub open spec fn screens_can_save(s: Screens) -> bool {
    match s {
        Screens::Bin(b) => crate::bin_screen::screens_can_save(b.screen),
        _ => true,
    }
}

/// One key press handed to whichever screen is live: the screen steps
/// by its own key relation, the variant stays the same, and only the
/// bin screen can touch the outbound queue.
pub open spec fn screens_key_rel(
    pre: Screens,
    post: Screens,
    q0: OutboundQueue,
    q1: OutboundQueue,
    e: KeyInput,
    r: Option<AppActions>,
) -> bool {
    match pre {
        Screens::Main(m) => (post matches Screens::Main(m2) && menu_key_post(m, m2, e, r)) && q1
            == q0,
        Screens::Todos(t) => post == Screens::Todos(t) && todos_key_post(e, r) && q1 == q0,
        Screens::Notes(n) => post == Screens::Notes(n) && notes_key_post(e, r) && q1 == q0,
        Screens::Projects(p) => (post matches Screens::Projects(p2) && projects_key_post(
            p,
            p2,
            e,
            r,
        )) && q1 == q0,
        Screens::Bin(b) => post matches Screens::Bin(b2)
            && crate::bin_screen::bin_screen_key_post(b, b2, q0, q1, e, r),
    }
}

/// One inbound envelope handed to whichever screen is live: only the
/// bin screen acts on its replies; every other screen drops them.
pub open spec fn screens_socket_rel(
    pre: Screens,
    post: Screens,
    q0: OutboundQueue,
    q1: OutboundQueue,
    event: PhoenixEvent,
) -> bool {
    match pre {
        Screens::Bin(b) => post matches Screens::Bin(b2) && crate::bin_screen::bin_socket_post(
            b,
            b2,
            q0,
            q1,
            event,
        ),
        _ => post == pre && q1 == q0,
    }
}

/// A screen freshly constructed for this kind, with its opening effect
/// on the outbound queue: the bin screen asks for the bins, the notes
/// screen asks for the notes, and the rest ask nothing.  A fresh
/// projects screen starts with no rows; the surrounding loop loads them
/// from local storage and hands them in.
pub open spec fn fresh_screen(
    st: ScreenType,
    s: Screens,
    q0: OutboundQueue,
    q1: OutboundQueue,
) -> bool {
    match st {
        ScreenType::Main => (s matches Screens::Main(m) && initial_menu(m)) && q1 == q0,
        ScreenType::Todos => s == Screens::Todos(TodosScreen {  }) && q1 == q0,
        ScreenType::Bin => s matches Screens::Bin(b) && crate::bin_screen::changed_to_main(
            b,
            q0,
            q1,
        ),
        ScreenType::Notes => s == Screens::Notes(NotesScreen {  }) && pushed_notes_command(q0, q1),
        ScreenType::Projects => (s matches Screens::Projects(p) && p.data@ == Seq::<
            ProjectData,
        >::empty() && p.table_state.selected == None::<usize>) && q1 == q0,
    }
}

/// What one key press does to the whole application: the live screen
/// steps by its own relation and asked for something; a quit bubbles
/// out, a screen change replaces the live screen wholesale with a fresh
/// one of the asked kind, and no answer leaves the rest alone.
pub open spec fn app_key_post(pre: App, post: App, e: KeyInput, r: Option<TUIAction>) -> bool {
    exists|resp: Option<AppActions>, mid: Screens, qmid: OutboundQueue|
        #[trigger] screens_key_rel(pre.screen, mid, pre.outbound, qmid, e, resp) && match resp {
            Some(AppActions::Quit) => r == Some(TUIAction::Quit) && post.screen == mid
                && post.screen_type == pre.screen_type && post.outbound == qmid,
            Some(AppActions::ChangeScreen(st)) => r == None::<TUIAction> && post.screen_type == st
                && fresh_screen(st, post.screen, qmid, post.outbound),
            None => r == None::<TUIAction> && post.screen == mid && post.screen_type
                == pre.screen_type && post.outbound == qmid,
        }
}

impl Screens {
    /// Routes one key press to the live screen.
    pub fn handle_key(&mut self, e: KeyInput, queue: &mut OutboundQueue) -> (r: Option<
        AppActions,
    >)
        requires
            screens_wf(*old(self)),
            old(queue).wf(),
            screens_has_room(*old(self)),
            e.code == crate::keys::Key::Char('s') && e.ctrl ==> screens_can_save(*old(self)),
        ensures
            screens_wf(*final(self)),
            final(queue).wf(),
            screens_key_rel(*old(self), *final(self), *old(queue), *final(queue), e, r),
    {
        match self {
            Screens::Main(m) => m.handle_key(e),
            Screens::Todos(t) => t.handle_key(e),
            Screens::Notes(n) => n.handle_key(e),
            Screens::Bin(b) => b.handle_key(e, queue),
            Screens::Projects(p) => p.handle_key(e),
        }
    }

    /// Routes one inbound envelope to the live screen.
    pub fn handle_socket_event(&mut self, event: PhoenixEvent, queue: &mut OutboundQueue)
        requires
            screens_wf(*old(self)),
            old(queue).wf(),
        ensures
            screens_wf(*final(self)),
            final(queue).wf(),
            screens_socket_rel(*old(self), *final(self), *old(queue), *final(queue), event),
    {
        match self {
            Screens::Main(m) => m.handle_socket_event(event),
            Screens::Todos(t) => t.handle_socket_event(event),
            Screens::Notes(n) => n.handle_socket_event(event),
            Screens::Bin(b) => b.handle_socket_event(event, queue),
            Screens::Projects(p) => p.handle_socket_event(event),
        }
    }
}

/// The application: the kind of the live screen, the screen itself, and
/// the bounded queue of outbound envelopes the surrounding loop drains
/// into the realtime connection.
#[derive(PartialEq, Debug)]
pub struct App {
    pub screen_type: ScreenType,
    pub screen: Screens,
    pub outbound: OutboundQueue,
}

impl App {
    /// The live screen is in shape, matches the recorded kind, and the
    /// queue respects its capacity.
    pub open spec fn wf(self) -> bool {
        &&& screens_wf(self.screen)
        &&& kind_of(self.screen) == self.screen_type
        &&& self.outbound.wf()
    }

    /// Starts on the top menu with an empty outbound queue of the given
    /// fixed capacity.
    pub fn new(capacity: usize) -> (r: App)
        ensures
            r.screen_type == ScreenType::Main,
            (r.screen matches Screens::Main(m) && initial_menu(m)),
            r.outbound.items@ == Seq::<PhoenixEvent>::empty(),
            r.outbound.capacity == capacity,
            r.wf(),
    {
        App {
            screen_type: ScreenType::Main,
            screen: Screens::Main(MainScreen::new()),
            outbound: OutboundQueue::new(capacity),
        }
    }

    /// Replaces the live screen wholesale; the one it replaces is
    /// simply dropped.
    pub fn change_screen(&mut self, screen_type: ScreenType, screen: Screens)
        requires
            screens_wf(screen),
            kind_of(screen) == screen_type,
        ensures
            final(self).screen_type == screen_type,
            final(self).screen == screen,
            final(self).outbound == old(self).outbound,
            old(self).outbound.wf() ==> final(self).wf(),
    {
        self.screen_type = screen_type;
        self.screen = screen;
    }

    /// Routes one key press: the live screen handles it, a quit request
    /// bubbles out, and a screen-change request replaces the live
    /// screen with a freshly built one of the asked kind.
    pub fn handle_key(&mut self, key: KeyInput) -> (r: Option<TUIAction>)
        requires
            old(self).wf(),
            screens_has_room(old(self).screen),
            key.code == crate::keys::Key::Char('s') && key.ctrl ==> screens_can_save(
                old(self).screen,
            ),
        ensures
            final(self).wf(),
            app_key_post(*old(self), *final(self), key, r),
            final(self).outbound.capacity == old(self).outbound.capacity,
            r == Some(TUIAction::Quit) ==> *final(self) == *old(self),
    {
        let key_response = self.screen.handle_key(key, &mut self.outbound);
        let ghost mid = self.screen;
        let ghost qmid = self.outbound;
        let ghost gresp = key_response;
        let r = match key_response {
            Some(AppActions::ChangeScreen(screen)) => {
                match screen {
                    ScreenType::Main => {
                        let fresh = Screens::Main(MainScreen::new());
                        self.change_screen(ScreenType::Main, fresh);
                    },
                    ScreenType::Notes => {
                        let fresh = Screens::Notes(NotesScreen::new(&mut self.outbound));
                        self.change_screen(ScreenType::Notes, fresh);
                    },
                    ScreenType::Bin => {
                        let fresh = Screens::Bin(BinScreen::new(&mut self.outbound));
                        self.change_screen(ScreenType::Bin, fresh);
                    },
                    ScreenType::Projects => {
                        let fresh = Screens::Projects(ProjectsScreen::new(Vec::new()));
                        self.change_screen(ScreenType::Projects, fresh);
                    },
                    ScreenType::Todos => {
                        let fresh = Screens::Todos(TodosScreen::new());
                        self.change_screen(ScreenType::Todos, fresh);
                    },
                }
                None
            },
            Some(AppActions::Quit) => Some(TUIAction::Quit),
            None => None,
        };
        proof {
            assert(screens_key_rel(old(self).screen, mid, old(self).outbound, qmid, key, gresp));
        }
        r
    }

    /// Routes one inbound envelope: if the routing table resolves its
    /// name to the kind of the live screen, the screen handles it;
    /// otherwise — an unknown name, or a screen that is not on show —
    /// the envelope is dropped and nothing at all changes.
    pub fn handle_inbound(&mut self, event: PhoenixEvent)
        requires
            old(self).wf(),
        ensures
            final(self).wf(),
            final(self).screen_type == old(self).screen_type,
            spec_route(event.name@) != Some(old(self).screen_type) ==> *final(self) == *old(self),
            spec_route(event.name@) == Some(old(self).screen_type) ==> screens_socket_rel(
                old(self).screen,
                final(self).screen,
                old(self).outbound,
                final(self).outbound,
                event,
            ),
    {
        let matches_active = match event.for_screen() {
            Some(screen_type) => screen_type == self.screen_type,
            None => false,
        };
        if matches_active {
            self.screen.handle_socket_event(event, &mut self.outbound);
        }
    }

    /// Hands freshly loaded project rows to the projects screen, if it
    /// is the one on show; anything else drops them.
    pub fn load_projects(&mut self, data: Vec<ProjectData>)
        requires
            old(self).wf(),
        ensures
            final(self).wf(),
            final(self).screen_type == old(self).screen_type,
            final(self).outbound == old(self).outbound,
            match old(self).screen {
                Screens::Projects(_) => final(self).screen matches Screens::Projects(p)
                    && p.data == data && p.table_state.selected == if data@.len() > 0 {
                    Some(0usize)
                } else {
                    None::<usize>
                },
                _ => *final(self) == *old(self),
            },
    {
        if let Screens::Projects(p) = &mut self.screen {
            p.set_data(data);
        }
    }
}

} // verus!

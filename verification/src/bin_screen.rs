//! The bin resource: its entities, its commands and replies, and the
//! nested state machine over its list, create, show and edit screens.

pub mod edit;
pub mod main;
pub mod new;
pub mod show;

use crate::event::{EventPayload, PhoenixEvent, StatusEvent};
use crate::expire_input::ExpireAt;
use crate::keys::{Key, KeyInput};
use crate::queue::{has_room, send_shape, OutboundQueue};
use crate::router::AppActions;
use vstd::prelude::*;
use vstd::string::StringExecFns;

verus! {

/// One stored paste: its identity, its text, when it expires (seconds
/// since the epoch), and its attached files.
#[derive(PartialEq, Eq, Debug)]
pub struct Bin {
    pub id: u64,
    pub title: String,
    pub content: String,
    pub expire_at: i64,
    pub files: Vec<File>,
}

/// One file attached to a bin.
#[derive(PartialEq, Eq, Debug)]
pub struct File {
    pub id: String,
    pub name: String,
    pub access_path: String,
    pub file_type: String,
}

impl Clone for File {
    /// An exact copy.
    fn clone(&self) -> (r: File)
        ensures
            r == *self,
    {
        File {
            id: self.id.clone(),
            name: self.name.clone(),
            access_path: self.access_path.clone(),
            file_type: self.file_type.clone(),
        }
    }
}

/// An exact copy of a row of files.
pub fn clone_files(files: &Vec<File>) -> (r: Vec<File>)
    ensures
        r@ == files@,
{
    let mut r: Vec<File> = Vec::new();
    let mut i: usize = 0;
    while i < files.len()
        invariant
            i <= files@.len(),
            r@ == files@.subrange(0, i as int),
        decreases files@.len() - i,
    {
        r.push(files[i].clone());
        proof {
            assert(files@.subrange(0, i + 1) =~= files@.subrange(0, i as int).push(
                files@[i as int],
            ));
        }
        i += 1;
    }
    proof {
        assert(files@.subrange(0, files@.len() as int) =~= files@);
    }
    r
}

impl Bin {
    /// The two bins agree in every field.  A copy of a bin satisfies
    /// this against its original.
    pub open spec fn same_as(self, other: Bin) -> bool {
        &&& self.id == other.id
        &&& self.title == other.title
        &&& self.content == other.content
        &&& self.expire_at == other.expire_at
        &&& self.files@ == other.files@
    }
}

impl Clone for Bin {
    /// A copy that agrees with the original in every field.
    fn clone(&self) -> (r: Bin)
        ensures
            r.same_as(*self),
    {
        Bin {
            id: self.id,
            title: self.title.clone(),
            content: self.content.clone(),
            expire_at: self.expire_at,
            files: clone_files(&self.files),
        }
    }
}

/// A command the bin screen sends to the backend.
#[derive(PartialEq, Debug)]
pub enum BinCommand {
    /// Ask for the whole list of bins.
    GetAll,
    /// Create a bin from the form fields.
    New { title: String, content: String, expire: ExpireAt },
    /// Replace a bin's fields; only the files listed here are kept.
    Edit { id: u64, title: String, content: String, files: Vec<File>, expire: ExpireAt },
    /// Delete the bin with this id.
    Delete { id: u64 },
}

/// A reply the backend sends to the bin screen, decoded; a reply whose
/// action the library does not model arrives as `Unknown`.
#[derive(PartialEq, Debug)]
pub enum BinReply {
    /// The whole list of bins.
    GetAll(Vec<Bin>),
    /// The outcome of a create command.
    New(StatusEvent),
    /// The outcome of a delete command.
    Delete(StatusEvent),
    /// The bin as stored after a successful edit.
    Edit(Bin),
    Unknown,
}

/// The four sub-screens of the bin resource.
#[derive(Clone, Copy, PartialEq, Eq, Structural, Debug)]
pub enum CurrentScreen {
    Main,
    New,
    Show,
    Edit,
}

/// What a bin sub-screen asks its parent to do.
#[derive(PartialEq, Debug)]
pub enum BinActions {
    /// Queue a command for the backend; `None` stands for an empty payload.
    SendEvent(Option<BinCommand>),
    /// Pass an action up to the router.
    App(AppActions),
    /// Switch to another bin sub-screen, optionally seeded with a bin.
    ChangeScreen(CurrentScreen, Option<Bin>),
}

/// The live sub-screen of the bin resource.
#[derive(PartialEq, Debug)]
pub enum Screens {
    Main(main::MainScreen),
    New(new::NewScreen),
    Show(show::ShowScreen),
    Edit(edit::EditScreen),
}

/// The live sub-screen is in shape.
pub open spec fn screens_wf(s: Screens) -> bool {
    match s {
        Screens::Main(m) => m.wf(),
        Screens::New(n) => n.wf(),
        Screens::Show(sh) => sh.wf(),
        Screens::Edit(ed) => ed.wf(),
    }
}

/// The recorded kind and the live sub-screen agree.
pub open spec fn screens_agree(cs: CurrentScreen, s: Screens) -> bool {
    match s {
        Screens::Main(_) => cs == CurrentScreen::Main,
        Screens::New(_) => cs == CurrentScreen::New,
        Screens::Show(_) => cs == CurrentScreen::Show,
        Screens::Edit(_) => cs == CurrentScreen::Edit,
    }
}

/// The machine bounds under which the live sub-screen takes one more
/// character.
pub open spec fn screens_has_room(s: Screens) -> bool {
    match s {
        Screens::New(n) => n.has_room(),
        Screens::Edit(ed) => ed.has_room(),
        _ => true,
    }
}

/// The live sub-screen's expiry buffer denotes a number a save command
/// can carry.
pub open spec fn screens_can_save(s: Screens) -> bool {
    match s {
        Screens::New(n) => n.expire_at.time@.len() > 0 && crate::expire_input::digits_value(
            n.expire_at.time@,
        ) <= usize::MAX,
        Screens::Edit(ed) => ed.expire_at.time@.len() > 0 && crate::expire_input::digits_value(
            ed.expire_at.time@,
        ) <= usize::MAX,
        _ => true,
    }
}

/// One key press handed to whichever sub-screen is live: the sub-screen
/// steps by its own key relation and the variant stays the same.
pub open spec fn screens_key_rel(
    pre: Screens,
    post: Screens,
    e: KeyInput,
    r: Option<BinActions>,
) -> bool {
    match pre {
        Screens::Main(m) => post matches Screens::Main(m2) && main::bin_list_key_post(
            m,
            m2,
            e,
            r,
        ),
        Screens::New(n) => post matches Screens::New(n2) && new::new_screen_key_post(n, n2, e, r),
        Screens::Show(sh) => post matches Screens::Show(sh2) && show::show_key_post(
            sh,
            sh2,
            e,
            r,
        ),
        Screens::Edit(ed) => post matches Screens::Edit(ed2) && edit::edit_key_post(
            ed,
            ed2,
            e,
            r,
        ),
    }
}

/// The queue effect of queueing one command for the `bin` topic:
/// either there was room and exactly that envelope joined the back, or
/// the queue is unchanged.
pub open spec fn pushed_bin_command(
    q0: OutboundQueue,
    q1: OutboundQueue,
    payload: Option<BinCommand>,
) -> bool {
    &&& send_shape(q0, q1)
    &&& (has_room(q0) ==> q1.items@.last().name@ == "bin"@ && q1.items@.last().payload == match payload {
        Some(c) => Some(EventPayload::BinCommand(c)),
        None => None::<EventPayload>,
    })
}

/// The screen has gone back to a fresh bin list and asked the backend
/// for the bins again.
pub open spec fn changed_to_main(post: BinScreen, q0: OutboundQueue, q1: OutboundQueue) -> bool {
    &&& post.current_screen == CurrentScreen::Main
    &&& (post.screen matches Screens::Main(m) && main::initial_list(m))
    &&& pushed_bin_command(q0, q1, Some(BinCommand::GetAll))
}

/// How the bin screen resolves one sub-screen action: an `App` action
/// bubbles up, a `SendEvent` joins the outbound queue, and a
/// `ChangeScreen` replaces the live sub-screen wholesale — back to a
/// fresh list (asking for the bins again), to an empty create form, or
/// to a show or edit screen seeded with the carried bin.
pub open spec fn bin_resolution(
    pre: BinScreen,
    post: BinScreen,
    q0: OutboundQueue,
    q1: OutboundQueue,
    mid: Screens,
    a: Option<BinActions>,
    r: Option<AppActions>,
) -> bool {
    match a {
        None => post.screen == mid && post.current_screen == pre.current_screen && q1 == q0 && r
            == None::<AppActions>,
        Some(BinActions::App(act)) => post.screen == mid && post.current_screen
            == pre.current_screen && q1 == q0 && r == Some(act),
        Some(BinActions::SendEvent(p)) => post.screen == mid && post.current_screen
            == pre.current_screen && pushed_bin_command(q0, q1, p) && r == None::<AppActions>,
        Some(BinActions::ChangeScreen(ct, data)) => r == None::<AppActions> && match ct {
            CurrentScreen::Main => changed_to_main(post, q0, q1),
            CurrentScreen::New => post.current_screen == CurrentScreen::New && q1 == q0 && (
            post.screen matches Screens::New(n) && new::initial_form(n)),
            CurrentScreen::Show => post.current_screen == CurrentScreen::Show && q1 == q0 && (
            data matches Some(b) && post.screen matches Screens::Show(sh) && show::showing(sh, b)),
            CurrentScreen::Edit => post.current_screen == CurrentScreen::Edit && q1 == q0 && (
            data matches Some(b) && post.screen matches Screens::Edit(ed) && edit::editing(ed, b)),
        },
    }
}

/// What one key press does to the bin screen as a whole: the live
/// sub-screen steps by its own key relation, and the action it asked
/// for is resolved as `bin_resolution` says.
pub open spec fn bin_screen_key_post(
    pre: BinScreen,
    post: BinScreen,
    q0: OutboundQueue,
    q1: OutboundQueue,
    e: KeyInput,
    r: Option<AppActions>,
) -> bool {
    exists|a: Option<BinActions>, mid: Screens|
        #[trigger] screens_key_rel(pre.screen, mid, e, a) && bin_resolution(
            pre,
            post,
            q0,
            q1,
            mid,
            a,
            r,
        )
}

/// What one inbound reply does to the bin screen.  A list reply
/// replaces the bins wholesale when the list is on screen and is
/// dropped otherwise; a create or delete outcome with status `"OK"`
/// returns to a fresh list (asking for the bins again) unless the list
/// is already on screen; any other status leaves the screen exactly as
/// it was, form contents included; an edit reply opens the returned
/// copy; anything else is dropped.
pub open spec fn bin_socket_post(
    pre: BinScreen,
    post: BinScreen,
    q0: OutboundQueue,
    q1: OutboundQueue,
    event: PhoenixEvent,
) -> bool {
    match event.payload {
        Some(EventPayload::BinReply(reply)) => match reply {
            BinReply::GetAll(bins) => q1 == q0 && match pre.screen {
                Screens::Main(m) => post.current_screen == pre.current_screen && (
                post.screen matches Screens::Main(m2) && m2.bins == bins
                    && m2.list_state.selected == if bins@.len() > 0 {
                    Some(0usize)
                } else {
                    None::<usize>
                }),
                _ => post == pre,
            },
            BinReply::New(st) => if st.status@ == "OK"@ && pre.current_screen
                != CurrentScreen::Main {
                changed_to_main(post, q0, q1)
            } else {
                post == pre && q1 == q0
            },
            BinReply::Delete(st) => if st.status@ == "OK"@ && pre.current_screen
                != CurrentScreen::Main {
                changed_to_main(post, q0, q1)
            } else {
                post == pre && q1 == q0
            },
            BinReply::Edit(b) => q1 == q0 && post.current_screen == CurrentScreen::Show && (
            post.screen matches Screens::Show(sh) && show::showing(sh, b)),
            BinReply::Unknown => post == pre && q1 == q0,
        },
        _ => post == pre && q1 == q0,
    }
}

/// The bin resource screen: which sub-screen is live, and the
/// sub-screen itself.
#[derive(PartialEq, Debug)]
pub struct BinScreen {
    pub current_screen: CurrentScreen,
    pub screen: Screens,
}

impl BinScreen {
    /// The sub-screen is in shape and matches the recorded kind.
    pub open spec fn wf(self) -> bool {
        &&& screens_wf(self.screen)
        &&& screens_agree(self.current_screen, self.screen)
    }

    /// Opens the bin resource on a fresh, empty list and asks the
    /// backend for the bins.
    pub fn new(queue: &mut OutboundQueue) -> (r: BinScreen)
        requires
            old(queue).wf(),
        ensures
            final(queue).wf(),
            changed_to_main(r, *old(queue), *final(queue)),
            r.wf(),
    {
        let screen = BinScreen {
            current_screen: CurrentScreen::Main,
            screen: Screens::Main(main::MainScreen::new(Vec::new())),
        };
        Self::push_event(Some(BinCommand::GetAll), queue);
        screen
    }

    /// Wraps a command into a `bin` envelope and queues it, dropping it
    /// if the queue is full.
    fn push_event(payload: Option<BinCommand>, queue: &mut OutboundQueue)
        requires
            old(queue).wf(),
        ensures
            final(queue).wf(),
            pushed_bin_command(*old(queue), *final(queue), payload),
    {
        let wrapped = match payload {
            Some(c) => Some(EventPayload::BinCommand(c)),
            None => None,
        };
        let event = PhoenixEvent { name: String::from_str("bin"), payload: wrapped };
        queue.try_send(event);
        proof {
            if has_room(*old(queue)) {
                assert(queue.items@.subrange(0, old(queue).items@.len() as int) =~= old(
                    queue,
                ).items@);
            }
        }
    }

    /// Back to a fresh bin list, asking the backend for the bins again.
    fn change_to_main_screen(&mut self, queue: &mut OutboundQueue)
        requires
            old(queue).wf(),
        ensures
            final(queue).wf(),
            changed_to_main(*final(self), *old(queue), *final(queue)),
            final(self).wf(),
    {
        self.current_screen = CurrentScreen::Main;
        self.screen = Screens::Main(main::MainScreen::new(Vec::new()));
        Self::push_event(Some(BinCommand::GetAll), queue);
    }

    /// Routes one key press to the live sub-screen, then resolves the
    /// action it asked for: quitting bubbles up, commands join the
    /// outbound queue, and sub-screen changes replace the live
    /// sub-screen wholesale.
    pub fn handle_key(&mut self, e: KeyInput, queue: &mut OutboundQueue) -> (r: Option<
        AppActions,
    >)
        requires
            old(self).wf(),
            old(queue).wf(),
            screens_has_room(old(self).screen),
            e.code == Key::Char('s') && e.ctrl ==> screens_can_save(old(self).screen),
        ensures
            final(self).wf(),
            final(queue).wf(),
            bin_screen_key_post(*old(self), *final(self), *old(queue), *final(queue), e, r),
    {
        let action = match &mut self.screen {
            Screens::Main(m) => m.handle_key(e),
            Screens::New(n) => n.handle_key(e),
            Screens::Show(sh) => sh.handle_key(e),
            Screens::Edit(ed) => ed.handle_key(e),
        };
        let ghost mid = self.screen;
        let ghost ga = action;
        let r = match action {
            Some(BinActions::ChangeScreen(screen_type, data)) => match screen_type {
                CurrentScreen::Main => {
                    self.change_to_main_screen(queue);
                    None
                },
                CurrentScreen::New => {
                    self.current_screen = CurrentScreen::New;
                    self.screen = Screens::New(new::NewScreen::new());
                    None
                },
                CurrentScreen::Show => {
                    match data {
                        Some(b) => {
                            self.current_screen = CurrentScreen::Show;
                            self.screen = Screens::Show(show::ShowScreen::new(b));
                        },
                        None => {},
                    }
                    None
                },
                CurrentScreen::Edit => {
                    match data {
                        Some(b) => {
                            self.current_screen = CurrentScreen::Edit;
                            self.screen = Screens::Edit(edit::EditScreen::new(b));
                        },
                        None => {},
                    }
                    None
                },
            },
            Some(BinActions::SendEvent(value)) => {
                Self::push_event(value, queue);
                None
            },
            Some(BinActions::App(action)) => Some(action),
            None => None,
        };
        proof {
            assert(screens_key_rel(old(self).screen, mid, e, ga) && bin_resolution(
                *old(self),
                *self,
                *old(queue),
                *queue,
                mid,
                ga,
                r,
            ));
        }
        r
    }

    /// Applies one inbound reply to the bin screen, dropping whatever
    /// does not fit the screen that is live.  A failure status changes
    /// nothing at all: the form keeps its contents for another try.
    pub fn handle_socket_event(&mut self, event: PhoenixEvent, queue: &mut OutboundQueue)
        requires
            old(self).wf(),
            old(queue).wf(),
        ensures
            final(self).wf(),
            final(queue).wf(),
            bin_socket_post(*old(self), *final(self), *old(queue), *final(queue), event),
    {
        match event.payload {
            Some(EventPayload::BinReply(reply)) => match reply {
                BinReply::GetAll(bins) => {
                    if let Screens::Main(m) = &mut self.screen {
                        m.bins = bins;
                        let n = m.bins.len();
                        if n > 0 {
                            m.list_state.select_first(n);
                        } else {
                            m.list_state.select_none();
                        }
                    }
                },
                BinReply::New(status) => {
                    if status.is_ok() {
                        if !matches!(self.current_screen, CurrentScreen::Main) {
                            self.change_to_main_screen(queue);
                        }
                    }
                },
                BinReply::Delete(status) => {
                    if status.is_ok() {
                        if !matches!(self.current_screen, CurrentScreen::Main) {
                            self.change_to_main_screen(queue);
                        }
                    }
                },
                BinReply::Edit(b) => {
                    self.current_screen = CurrentScreen::Show;
                    self.screen = Screens::Show(show::ShowScreen::new(b));
                },
                BinReply::Unknown => {},
            },
            _ => {},
        }
    }
}

} // verus!

use crate::bin_screen::{BinActions, BinCommand, CurrentScreen};
use crate::expire_input::{digits_value, ExpireAtWidget};
use crate::input_widget::{input_key_post, InputWidget};
use crate::keys::{Key, KeyInput};
use crate::multiline_input::{join_lines, multiline_key_post, split_lines, MultilineInput};
use vstd::prelude::*;

verus! {

/// The form fields of the create screen, in Tab order.
#[derive(Clone, Copy, PartialEq, Eq, Structural, Debug)]
pub enum NewElements {
    Title,
    Content,
    Expire,
}

/// The create form: an empty title, content and expiry to fill in, with
/// one focused field at a time.
#[derive(PartialEq, Debug)]
pub struct NewScreen {
    pub title_input: InputWidget,
    pub content_input: MultilineInput,
    pub expire_at: ExpireAtWidget,
    pub focused_element: NewElements,
}

/// What one key press does to the create form.  Escape cancels back to
/// the list, Ctrl-S emits a create command built from the fields, Tab
/// moves the focus one field on, and any other key lands in the focused
/// field.
pub open spec fn new_screen_key_post(
    pre: NewScreen,
    post: NewScreen,
    e: KeyInput,
    r: Option<BinActions>,
) -> bool {
    if e.code == Key::Esc {
        post == pre && r == Some(BinActions::ChangeScreen(CurrentScreen::Main, None))
    } else if e.code == Key::Char('s') && e.ctrl {
        &&& post == pre
        &&& (r matches Some(BinActions::SendEvent(Some(BinCommand::New { title, content, expire })))
            && title@ == pre.title_input.content@ && content@ == join_lines(
            pre.content_input.lines_view(),
        ) && expire.time == digits_value(pre.expire_at.time@) && expire.unit == pre.expire_at.unit)
    } else if e.code == Key::Tab {
        &&& post.title_input == pre.title_input
        &&& post.content_input == pre.content_input
        &&& post.expire_at == pre.expire_at
        &&& post.focused_element == match pre.focused_element {
            NewElements::Title => NewElements::Content,
            NewElements::Content => NewElements::Expire,
            NewElements::Expire => NewElements::Title,
        }
        &&& r == None::<BinActions>
    } else {
        &&& match pre.focused_element {
            NewElements::Title => input_key_post(pre.title_input, post.title_input, e)
                && post.content_input == pre.content_input && post.expire_at == pre.expire_at,
            NewElements::Content => multiline_key_post(pre.content_input, post.content_input, e)
                && post.title_input == pre.title_input && post.expire_at == pre.expire_at,
            NewElements::Expire => crate::expire_input::expire_key_post(
                pre.expire_at,
                post.expire_at,
                e,
            ) && post.title_input == pre.title_input && post.content_input == pre.content_input,
        }
        &&& post.focused_element == pre.focused_element
        &&& r == None::<BinActions>
    }
}

/// A fresh create form: empty title and content, the expiry at a single
/// zero counting minutes, and the focus on the title.
pub open spec fn initial_form(n: NewScreen) -> bool {
    &&& n.title_input.content@ == Seq::<char>::empty()
    &&& n.title_input.cursor_position == 0
    &&& n.content_input.lines_view() == split_lines(Seq::<char>::empty())
    &&& n.expire_at.time@ == seq!['0']
    &&& n.expire_at.unit == crate::expire_input::TimeUnit::Minute
    &&& n.expire_at.cursor_position == 1
    &&& n.focused_element == NewElements::Title
}

impl NewScreen {
    /// Every field is in shape.
    pub open spec fn wf(self) -> bool {
        &&& self.title_input.wf()
        &&& self.content_input.wf()
        &&& self.expire_at.wf()
    }

    /// The machine bounds under which another character fits.
    pub open spec fn has_room(self) -> bool {
        &&& self.title_input.has_room()
        &&& self.content_input.has_room()
        &&& self.expire_at.has_room()
    }

    /// A fresh, empty form focused on the title.
    pub fn new() -> (r: NewScreen)
        ensures
            initial_form(r),
            r.wf(),
            r.has_room(),
    {
        NewScreen {
            title_input: InputWidget::new(String::new()),
            content_input: MultilineInput::new(String::new()),
            expire_at: ExpireAtWidget::new(),
            focused_element: NewElements::Title,
        }
    }

    /// Routes one key press over the create form.  A save is only asked
    /// for with a well-formed expiry buffer, since the emitted command
    /// carries its numeric value.
    pub fn handle_key(&mut self, e: KeyInput) -> (r: Option<BinActions>)
        requires
            old(self).wf(),
            old(self).has_room(),
            e.code == Key::Char('s') && e.ctrl ==> old(self).expire_at.time@.len() > 0
                && digits_value(old(self).expire_at.time@) <= usize::MAX,
        ensures
            final(self).wf(),
            new_screen_key_post(*old(self), *final(self), e, r),
    {
        if e.code == Key::Esc {
            return Some(BinActions::ChangeScreen(CurrentScreen::Main, None));
        }
        if e.code == Key::Char('s') && e.ctrl {
            let title = self.title_input.content();
            let content = self.content_input.content();
            let expire = self.expire_at.time();
            return Some(BinActions::SendEvent(Some(BinCommand::New { title, content, expire })));
        }
        if e.code == Key::Tab {
            self.focused_element = match self.focused_element {
                NewElements::Title => NewElements::Content,
                NewElements::Content => NewElements::Expire,
                NewElements::Expire => NewElements::Title,
            };
            return None;
        }
        match self.focused_element {
            NewElements::Title => self.title_input.handle_key(e),
            NewElements::Content => self.content_input.handle_key(e),
            NewElements::Expire => self.expire_at.handle_key(e),
        }
        None
    }
}

} // verus!

use crate::bin_screen::{Bin, BinActions, BinCommand, CurrentScreen, File};
use crate::expire_input::{digits_value, expire_key_post, ExpireAtWidget, TimeUnit};
use crate::input_widget::{input_key_post, InputWidget};
use crate::keys::{Key, KeyInput};
use crate::multiline_input::{join_lines, multiline_key_post, split_lines, MultilineInput};
use crate::selection::Selection;
use vstd::prelude::*;

verus! {

/// A file of the edited bin together with its local, unconfirmed
/// removal mark.  The mark never touches the stored copy of the bin.
#[derive(PartialEq, Eq, Debug)]
pub struct EditFiles {
    pub file: File,
    pub removed: bool,
}

/// The form fields of the edit screen, in Tab order; the Files step is
/// skipped when the bin has no files.
#[derive(Clone, Copy, PartialEq, Eq, Structural, Debug)]
pub enum EditElements {
    Title,
    Content,
    Files,
    Expire,
}

/// The files that survive the removal marks, in order: every file whose
/// mark is off, and none whose mark is on.
pub open spec fn kept_files(s: Seq<EditFiles>) -> Seq<File>
    decreases s.len(),
{
    if s.len() == 0 {
        Seq::<File>::empty()
    } else {
        let rest = kept_files(s.drop_last());
        if s.last().removed {
            rest
        } else {
            rest.push(s.last().file)
        }
    }
}

/// The edit form: the last confirmed copy of the bin, editable fields
/// seeded from it, removal marks over its files, and one focused field.
#[derive(PartialEq, Debug)]
pub struct EditScreen {
    pub bin: Bin,
    pub title_input: InputWidget,
    pub content_input: MultilineInput,
    pub expire_at: ExpireAtWidget,
    pub files: Vec<EditFiles>,
    pub selected_file: Selection,
    pub focused_element: EditElements,
}

/// What one key press does to the edit form.  Escape cancels back to
/// the unchanged bin, Ctrl-S emits an edit command that keeps exactly
/// the unmarked files, `j`/`k`/`r` move the file cursor and toggle a
/// mark while the Files step is focused, Tab moves the focus one step
/// on (skipping Files when the bin has none), and any other key lands
/// in the focused field.
pub open spec fn edit_key_post(
    pre: EditScreen,
    post: EditScreen,
    e: KeyInput,
    r: Option<BinActions>,
) -> bool {
    let n = pre.files@.len() as usize;
    if e.code == Key::Esc {
        post == pre && (r matches Some(BinActions::ChangeScreen(CurrentScreen::Show, Some(b)))
            && b.same_as(pre.bin))
    } else if e.code == Key::Char('s') && e.ctrl {
        &&& post == pre
        &&& (r matches Some(
            BinActions::SendEvent(
                Some(BinCommand::Edit { id, title, content, files, expire }),
            ),
        ) && id == pre.bin.id && title@ == pre.title_input.content@ && content@ == join_lines(
            pre.content_input.lines_view(),
        ) && files@ == kept_files(pre.files@) && expire.time == digits_value(pre.expire_at.time@)
            && expire.unit == pre.expire_at.unit)
    } else if e.code == Key::Char('j') && pre.focused_element == EditElements::Files {
        &&& post == (EditScreen { selected_file: pre.selected_file.spec_next(n), ..pre })
        &&& r == None::<BinActions>
    } else if e.code == Key::Char('k') && pre.focused_element == EditElements::Files {
        &&& post == (EditScreen { selected_file: pre.selected_file.spec_previous(n), ..pre })
        &&& r == None::<BinActions>
    } else if e.code == Key::Char('r') && pre.focused_element == EditElements::Files {
        &&& match pre.selected_file.selected {
            Some(i) => post.files@ == pre.files@.update(
                i as int,
                (EditFiles { file: pre.files@[i as int].file, removed: !pre.files@[i as int].removed }),
            ) && post == (EditScreen { files: post.files, ..pre }),
            None => post == pre,
        }
        &&& r == None::<BinActions>
    } else if e.code == Key::Tab {
        &&& post == (EditScreen {
            focused_element: match pre.focused_element {
                EditElements::Title => EditElements::Content,
                EditElements::Content => if pre.files@.len() == 0 {
                    EditElements::Expire
                } else {
                    EditElements::Files
                },
                EditElements::Files => EditElements::Expire,
                EditElements::Expire => EditElements::Title,
            },
            ..pre
        })
        &&& r == None::<BinActions>
    } else {
        &&& match pre.focused_element {
            EditElements::Title => input_key_post(pre.title_input, post.title_input, e) && post
                == (EditScreen { title_input: post.title_input, ..pre }),
            EditElements::Content => multiline_key_post(pre.content_input, post.content_input, e)
                && post == (EditScreen { content_input: post.content_input, ..pre }),
            EditElements::Expire => expire_key_post(pre.expire_at, post.expire_at, e) && post == (
            EditScreen { expire_at: post.expire_at, ..pre }),
            EditElements::Files => post == pre,
        }
        &&& r == None::<BinActions>
    }
}

/// An edit form freshly opened on this bin: the fields seeded from its
/// title and content, every file unmarked, the expiry starting afresh,
/// and the focus on the title.
pub open spec fn editing(r: EditScreen, b: Bin) -> bool {
    &&& r.bin == b
    &&& r.title_input.content@ == b.title@
    &&& r.title_input.cursor_position == b.title@.len()
    &&& r.content_input.lines_view() == split_lines(b.content@)
    &&& r.expire_at.time@ == seq!['0']
    &&& r.expire_at.unit == TimeUnit::Minute
    &&& r.expire_at.cursor_position == 1
    &&& r.files@.len() == b.files@.len()
    &&& (forall|i: int|
        0 <= i < b.files@.len() ==> r.files@[i].file == b.files@[i] && !r.files@[i].removed)
    &&& r.selected_file.selected == None::<usize>
    &&& r.focused_element == EditElements::Title
}

impl EditScreen {
    /// Every field is in shape and the file cursor points at a marked
    /// row the overlay has, or at nothing.
    pub open spec fn wf(self) -> bool {
        &&& self.title_input.wf()
        &&& self.content_input.wf()
        &&& self.expire_at.wf()
        &&& self.selected_file.in_bounds(self.files@.len())
    }

    /// The machine bounds under which another character fits.
    pub open spec fn has_room(self) -> bool {
        &&& self.title_input.has_room()
        &&& self.content_input.has_room()
        &&& self.expire_at.has_room()
    }

    /// Opens the edit form over a bin: the fields are seeded from its
    /// title and content, every file starts unmarked, the expiry starts
    /// afresh, and the focus sits on the title.
    pub fn new(bin: Bin) -> (r: EditScreen)
        ensures
            editing(r, bin),
            r.wf(),
    {
        let mut files: Vec<EditFiles> = Vec::new();
        let mut i: usize = 0;
        while i < bin.files.len()
            invariant
                i <= bin.files@.len(),
                files@.len() == i,
                forall|j: int|
                    0 <= j < i ==> files@[j].file == bin.files@[j] && !files@[j].removed,
            decreases bin.files@.len() - i,
        {
            files.push(EditFiles { file: bin.files[i].clone(), removed: false });
            i += 1;
        }
        let title_input = InputWidget::new(bin.title.clone());
        let content_input = MultilineInput::new(bin.content.clone());
        EditScreen {
            bin,
            title_input,
            content_input,
            expire_at: ExpireAtWidget::new(),
            files,
            selected_file: Selection::new(),
            focused_element: EditElements::Title,
        }
    }

    /// Routes one key press over the edit form.  A save is only asked
    /// for with a well-formed expiry buffer, since the emitted command
    /// carries its numeric value.
    pub fn handle_key(&mut self, e: KeyInput) -> (r: Option<BinActions>)
        requires
            old(self).wf(),
            old(self).has_room(),
            e.code == Key::Char('s') && e.ctrl ==> old(self).expire_at.time@.len() > 0
                && digits_value(old(self).expire_at.time@) <= usize::MAX,
        ensures
            final(self).wf(),
            edit_key_post(*old(self), *final(self), e, r),
    {
        if e.code == Key::Esc {
            return Some(
                BinActions::ChangeScreen(CurrentScreen::Show, Some(self.bin.clone())),
            );
        }
        if e.code == Key::Char('s') && e.ctrl {
            let edited_title = self.title_input.content();
            let edited_content = self.content_input.content();
            let mut files: Vec<File> = Vec::new();
            let mut i: usize = 0;
            proof {
                assert(self.files@.subrange(0, 0) =~= Seq::<EditFiles>::empty());
            }
            while i < self.files.len()
                invariant
                    i <= self.files@.len(),
                    files@ == kept_files(self.files@.subrange(0, i as int)),
                decreases self.files@.len() - i,
            {
                proof {
                    assert(self.files@.subrange(0, i + 1).drop_last() =~= self.files@.subrange(
                        0,
                        i as int,
                    ));
                    assert(self.files@.subrange(0, i + 1).last() == self.files@[i as int]);
                }
                if !self.files[i].removed {
                    files.push(self.files[i].file.clone());
                }
                i += 1;
            }
            proof {
                assert(self.files@.subrange(0, self.files@.len() as int) =~= self.files@);
            }
            let expire = self.expire_at.time();
            return Some(
                BinActions::SendEvent(
                    Some(
                        BinCommand::Edit {
                            id: self.bin.id,
                            title: edited_title,
                            content: edited_content,
                            files,
                            expire,
                        },
                    ),
                ),
            );
        }
        if e.code == Key::Char('j') && matches!(self.focused_element, EditElements::Files) {
            self.selected_file.select_next(self.files.len());
            return None;
        }
        if e.code == Key::Char('k') && matches!(self.focused_element, EditElements::Files) {
            self.selected_file.select_previous(self.files.len());
            return None;
        }
        if e.code == Key::Char('r') && matches!(self.focused_element, EditElements::Files) {
            if let Some(index) = self.selected_file.selected {
                let mut marked = self.files.remove(index);
                marked.removed = !marked.removed;
                self.files.insert(index, marked);
                proof {
                    assert(self.files@ =~= old(self).files@.update(
                        index as int,
                        (EditFiles {
                            file: old(self).files@[index as int].file,
                            removed: !old(self).files@[index as int].removed,
                        }),
                    ));
                }
            }
            return None;
        }
        if e.code == Key::Tab {
            self.focused_element = match self.focused_element {
                EditElements::Title => EditElements::Content,
                EditElements::Content => {
                    if self.files.len() == 0 {
                        EditElements::Expire
                    } else {
                        EditElements::Files
                    }
                },
                EditElements::Files => EditElements::Expire,
                EditElements::Expire => EditElements::Title,
            };
            return None;
        }
        match self.focused_element {
            EditElements::Title => self.title_input.handle_key(e),
            EditElements::Content => self.content_input.handle_key(e),
            EditElements::Expire => self.expire_at.handle_key(e),
            EditElements::Files => {},
        }
        None
    }
}

} // verus!

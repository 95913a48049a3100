//! The envelope exchanged with the realtime backend, its typed
//! payloads, and the static routing table from envelope names to the
//! screens that own them.

use crate::bin_screen::{Bin, BinCommand, BinReply};
use crate::text::string_eq_lit;
use vstd::prelude::*;

verus! {

/// The top-level screens.  Exactly one is alive at a time.
#[derive(Clone, Copy, PartialEq, Eq, Structural, Debug)]
pub enum ScreenType {
    Main,
    Todos,
    Bin,
    Notes,
    Projects,
}

/// The structured payload an envelope can carry, already decoded from
/// the wire.  Commands travel outward, replies inward; a payload the
/// library does not model arrives as `Unknown` and is dropped by every
/// handler.
#[derive(PartialEq, Debug)]
pub enum EventPayload {
    BinCommand(BinCommand),
    BinReply(BinReply),
    /// The notes screen's only command: fetch everything.
    NotesCommand,
    Unknown,
}

/// A reply status: `"OK"` for success, any other word for a refusal,
/// with an optional message.
#[derive(PartialEq, Eq, Debug)]
pub struct StatusEvent {
    pub status: String,
    pub message: Option<String>,
}

impl StatusEvent {
    /// Whether the reply reports success.
    pub fn is_ok(&self) -> (r: bool)
        ensures
            r == (self.status@ == "OK"@),
    {
        string_eq_lit(&self.status, "OK")
    }
}

/// One event on the wire, in either direction: a topic name and an
/// optional payload.
#[derive(PartialEq, Debug)]
pub struct PhoenixEvent {
    pub name: String,
    pub payload: Option<EventPayload>,
}

/// The static routing table: which screen owns an envelope of the given
/// name.  An unlisted name resolves to no screen at all and the
/// envelope is dropped, never delivered anywhere.
pub open spec fn spec_route(name: Seq<char>) -> Option<ScreenType> {
    if name == "main"@ {
        Some(ScreenType::Main)
    } else if name == "bin"@ {
        Some(ScreenType::Bin)
    } else if name == "notes"@ {
        Some(ScreenType::Notes)
    } else if name == "projects"@ {
        Some(ScreenType::Projects)
    } else if name == "todos"@ {
        Some(ScreenType::Todos)
    } else {
        None
    }
}

impl PhoenixEvent {
    /// The screen that owns this envelope, by the static routing table.
    pub fn for_screen(&self) -> (r: Option<ScreenType>)
        ensures
            r == spec_route(self.name@),
    {
        if string_eq_lit(&self.name, "main") {
            Some(ScreenType::Main)
        } else if string_eq_lit(&self.name, "bin") {
            Some(ScreenType::Bin)
        } else if string_eq_lit(&self.name, "notes") {
            Some(ScreenType::Notes)
        } else if string_eq_lit(&self.name, "projects") {
            Some(ScreenType::Projects)
        } else if string_eq_lit(&self.name, "todos") {
            Some(ScreenType::Todos)
        } else {
            None
        }
    }
}

} // verus!

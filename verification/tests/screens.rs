use meowui::bin_screen::edit::{EditElements, EditScreen};
use meowui::bin_screen::main::MainScreen as BinListScreen;
use meowui::bin_screen::new::NewScreen;
use meowui::bin_screen::show::ShowScreen;
use meowui::bin_screen::{
    Bin, BinActions, BinCommand, BinReply, BinScreen, CurrentScreen, File, Screens as BinScreens,
};
use meowui::event::{EventPayload, PhoenixEvent, ScreenType, StatusEvent};
use meowui::expire_input::TimeUnit;
use meowui::keys::{Key, KeyInput};
use meowui::queue::OutboundQueue;
use meowui::router::{App, AppActions, Screens, TUIAction};
use meowui::todos_screen::TodosScreen;

fn file(id: &str, name: &str) -> File {
    File {
        id: String::from(id),
        name: String::from(name),
        access_path: format!("/files/{id}"),
        file_type: String::from("text/plain"),
    }
}

fn bin(id: u64, title: &str, content: &str, files: Vec<File>) -> Bin {
    Bin {
        id,
        title: String::from(title),
        content: String::from(content),
        expire_at: 1_700_000_000,
        files,
    }
}

fn key(c: char) -> KeyInput {
    KeyInput::plain(Key::Char(c))
}

fn status(s: &str) -> StatusEvent {
    StatusEvent {
        status: String::from(s),
        message: None,
    }
}

fn bin_event(reply: BinReply) -> PhoenixEvent {
    PhoenixEvent {
        name: String::from("bin"),
        payload: Some(EventPayload::BinReply(reply)),
    }
}

#[test]
fn routing_table_resolves_known_names() {
    let cases = [
        ("main", Some(ScreenType::Main)),
        ("bin", Some(ScreenType::Bin)),
        ("notes", Some(ScreenType::Notes)),
        ("projects", Some(ScreenType::Projects)),
        ("todos", Some(ScreenType::Todos)),
        ("weather", None),
        ("", None),
    ];
    for (name, want) in cases {
        let e = PhoenixEvent {
            name: String::from(name),
            payload: None,
        };
        assert_eq!(e.for_screen(), want);
    }
}

#[test]
fn queue_drops_on_full_and_keeps_fifo_order() {
    let mut q = OutboundQueue::new(2);
    let ev = |name: &str| PhoenixEvent {
        name: String::from(name),
        payload: None,
    };
    assert!(q.try_send(ev("a")));
    assert!(q.try_send(ev("b")));
    assert!(!q.try_send(ev("c")));
    assert_eq!(q.items.len(), 2);
    assert_eq!(q.try_recv().unwrap().name, "a");
    assert_eq!(q.try_recv().unwrap().name, "b");
    assert!(q.try_recv().is_none());
}

#[test]
fn bin_screen_opens_asking_for_all_bins() {
    let mut q = OutboundQueue::new(8);
    let b = BinScreen::new(&mut q);
    assert_eq!(b.current_screen, CurrentScreen::Main);
    assert_eq!(q.items.len(), 1);
    assert_eq!(q.items[0].name, "bin");
    assert_eq!(
        q.items[0].payload,
        Some(EventPayload::BinCommand(BinCommand::GetAll))
    );
}

#[test]
fn list_reply_replaces_bins_and_picks_first() {
    let mut q = OutboundQueue::new(8);
    let mut b = BinScreen::new(&mut q);
    b.handle_socket_event(
        bin_event(BinReply::GetAll(vec![bin(1, "one", "", vec![]), bin(2, "two", "", vec![])])),
        &mut q,
    );
    match &b.screen {
        BinScreens::Main(m) => {
            assert_eq!(m.bins.len(), 2);
            assert_eq!(m.list_state.selected, Some(0));
        }
        _ => panic!("expected the bin list"),
    }
}

#[test]
fn empty_list_reply_leaves_nothing_picked() {
    let mut q = OutboundQueue::new(8);
    let mut b = BinScreen::new(&mut q);
    b.handle_socket_event(bin_event(BinReply::GetAll(vec![])), &mut q);
    match &b.screen {
        BinScreens::Main(m) => {
            assert_eq!(m.bins.len(), 0);
            assert_eq!(m.list_state.selected, None);
        }
        _ => panic!("expected the bin list"),
    }
}

#[test]
fn opening_a_bin_from_the_list() {
    let mut m = BinListScreen::new(vec![bin(7, "t", "c", vec![])]);
    assert_eq!(m.handle_key(key('l')), None);
    m.handle_key(key('j'));
    let action = m.handle_key(KeyInput::plain(Key::Enter));
    match action {
        Some(BinActions::ChangeScreen(CurrentScreen::Show, Some(b))) => assert_eq!(b.id, 7),
        _ => panic!("expected a change to the show screen"),
    }
}

#[test]
fn show_screen_emits_delete_for_its_bin() {
    let mut s = ShowScreen::new(bin(9, "t", "c", vec![]));
    let action = s.handle_key(key('d'));
    assert_eq!(
        action,
        Some(BinActions::SendEvent(Some(BinCommand::Delete { id: 9 })))
    );
}

#[test]
fn show_screen_file_cursor_and_selected_file() {
    let mut s = ShowScreen::new(bin(9, "t", "c", vec![file("f1", "a.txt"), file("f2", "b.txt")]));
    assert_eq!(s.selected_file(), None);
    s.handle_key(key('j'));
    s.handle_key(key('j'));
    s.handle_key(key('j'));
    let picked = s.selected_file().unwrap();
    assert_eq!(picked.id, "f2");
    s.handle_key(key('k'));
    assert_eq!(s.selected_file().unwrap().id, "f1");
}

#[test]
fn new_screen_save_builds_create_command() {
    let mut n = NewScreen::new();
    n.handle_key(key('h'));
    n.handle_key(key('i'));
    n.handle_key(KeyInput::plain(Key::Tab));
    n.handle_key(key('x'));
    n.handle_key(KeyInput::plain(Key::Enter));
    n.handle_key(key('y'));
    n.handle_key(KeyInput::plain(Key::Tab));
    n.handle_key(key('5'));
    n.handle_key(key('l'));
    let action = n.handle_key(KeyInput::with_ctrl(Key::Char('s')));
    match action {
        Some(BinActions::SendEvent(Some(BinCommand::New {
            title,
            content,
            expire,
        }))) => {
            assert_eq!(title, "hi");
            assert_eq!(content, "x\ny");
            assert_eq!(expire.time, 5);
            assert_eq!(expire.unit, TimeUnit::Hour);
        }
        _ => panic!("expected a create command"),
    }
}

#[test]
fn new_screen_escape_cancels_to_list() {
    let mut n = NewScreen::new();
    n.handle_key(key('z'));
    let action = n.handle_key(KeyInput::plain(Key::Esc));
    assert_eq!(
        action,
        Some(BinActions::ChangeScreen(CurrentScreen::Main, None))
    );
}

#[test]
fn edit_save_keeps_only_unmarked_files() {
    let b = bin(3, "t", "c", vec![file("f1", "a.txt"), file("f2", "b.txt")]);
    let mut e = EditScreen::new(b);
    e.handle_key(KeyInput::plain(Key::Tab));
    e.handle_key(KeyInput::plain(Key::Tab));
    assert_eq!(e.focused_element, EditElements::Files);
    e.handle_key(key('j'));
    e.handle_key(key('r'));
    assert!(e.files[0].removed);
    assert!(!e.files[1].removed);
    let action = e.handle_key(KeyInput::with_ctrl(Key::Char('s')));
    match action {
        Some(BinActions::SendEvent(Some(BinCommand::Edit { id, files, .. }))) => {
            assert_eq!(id, 3);
            assert_eq!(files.len(), 1);
            assert_eq!(files[0].id, "f2");
        }
        _ => panic!("expected an edit command"),
    }
}

#[test]
fn edit_toggle_never_touches_the_stored_copy() {
    let b = bin(3, "t", "c", vec![file("f1", "a.txt")]);
    let mut e = EditScreen::new(b);
    e.handle_key(KeyInput::plain(Key::Tab));
    e.handle_key(KeyInput::plain(Key::Tab));
    e.handle_key(key('j'));
    e.handle_key(key('r'));
    assert!(e.files[0].removed);
    assert_eq!(e.bin.files.len(), 1);
    e.handle_key(key('r'));
    assert!(!e.files[0].removed);
}

#[test]
fn edit_tab_skips_files_when_bin_has_none() {
    let mut e = EditScreen::new(bin(3, "t", "c", vec![]));
    e.handle_key(KeyInput::plain(Key::Tab));
    assert_eq!(e.focused_element, EditElements::Content);
    e.handle_key(KeyInput::plain(Key::Tab));
    assert_eq!(e.focused_element, EditElements::Expire);
    e.handle_key(KeyInput::plain(Key::Tab));
    assert_eq!(e.focused_element, EditElements::Title);
}

#[test]
fn edit_escape_returns_the_unchanged_bin() {
    let b = bin(3, "old title", "old content", vec![]);
    let mut e = EditScreen::new(b);
    e.handle_key(key('!'));
    let action = e.handle_key(KeyInput::plain(Key::Esc));
    match action {
        Some(BinActions::ChangeScreen(CurrentScreen::Show, Some(returned))) => {
            assert_eq!(returned.title, "old title");
            assert_eq!(returned.content, "old content");
        }
        _ => panic!("expected a change back to the show screen"),
    }
}

#[test]
fn failure_status_preserves_form_and_variant() {
    let mut q = OutboundQueue::new(8);
    let mut b = BinScreen::new(&mut q);
    b.handle_key(key('n'), &mut q);
    if let BinScreens::New(n) = &mut b.screen {
        n.handle_key(key('d'));
        n.handle_key(key('r'));
    } else {
        panic!("expected the create form");
    }
    let queued_before = q.items.len();
    b.handle_socket_event(bin_event(BinReply::New(status("ERROR"))), &mut q);
    assert_eq!(b.current_screen, CurrentScreen::New);
    match &b.screen {
        BinScreens::New(n) => assert_eq!(n.title_input.content, vec!['d', 'r']),
        _ => panic!("the form was dropped"),
    }
    assert_eq!(q.items.len(), queued_before);
}

#[test]
fn success_status_returns_to_list_and_refreshes() {
    let mut q = OutboundQueue::new(8);
    let mut b = BinScreen::new(&mut q);
    b.handle_key(key('n'), &mut q);
    assert_eq!(b.current_screen, CurrentScreen::New);
    let queued_before = q.items.len();
    b.handle_socket_event(bin_event(BinReply::New(status("OK"))), &mut q);
    assert_eq!(b.current_screen, CurrentScreen::Main);
    assert_eq!(q.items.len(), queued_before + 1);
    assert_eq!(
        q.items[queued_before].payload,
        Some(EventPayload::BinCommand(BinCommand::GetAll))
    );
}

#[test]
fn unknown_reply_changes_nothing() {
    let mut q = OutboundQueue::new(8);
    let mut b = BinScreen::new(&mut q);
    let mut q_twin = OutboundQueue::new(8);
    let twin = BinScreen::new(&mut q_twin);
    b.handle_socket_event(bin_event(BinReply::Unknown), &mut q);
    assert_eq!(b, twin);
    assert_eq!(q.items.len(), 1);
}

#[test]
fn list_reply_outside_the_list_screen_is_dropped() {
    let mut q = OutboundQueue::new(8);
    let mut b = BinScreen::new(&mut q);
    b.handle_key(key('n'), &mut q);
    b.handle_socket_event(bin_event(BinReply::GetAll(vec![bin(1, "a", "b", vec![])])), &mut q);
    assert_eq!(b.current_screen, CurrentScreen::New);
}

#[test]
fn edit_reply_opens_the_returned_copy() {
    let mut q = OutboundQueue::new(8);
    let mut b = BinScreen::new(&mut q);
    b.handle_socket_event(bin_event(BinReply::Edit(bin(5, "fresh", "body", vec![]))), &mut q);
    assert_eq!(b.current_screen, CurrentScreen::Show);
    match &b.screen {
        BinScreens::Show(s) => assert_eq!(s.bin.title, "fresh"),
        _ => panic!("expected the show screen"),
    }
}

#[test]
fn mismatched_envelope_changes_nothing() {
    let mut active = App::new(16);
    active.change_screen(ScreenType::Todos, Screens::Todos(TodosScreen::new()));
    let mut twin = App::new(16);
    twin.change_screen(ScreenType::Todos, Screens::Todos(TodosScreen::new()));
    active.handle_inbound(bin_event(BinReply::GetAll(vec![bin(1, "a", "b", vec![])])));
    assert_eq!(active, twin);
}

#[test]
fn matching_envelope_reaches_the_active_screen() {
    let mut app = App::new(16);
    app.handle_key(key('j'));
    let quit = app.handle_key(KeyInput::plain(Key::Enter));
    assert_eq!(quit, None);
    assert_eq!(app.screen_type, ScreenType::Bin);
    app.handle_inbound(bin_event(BinReply::GetAll(vec![bin(1, "a", "b", vec![])])));
    match &app.screen {
        Screens::Bin(b) => match &b.screen {
            BinScreens::Main(m) => assert_eq!(m.bins.len(), 1),
            _ => panic!("expected the bin list"),
        },
        _ => panic!("expected the bin screen"),
    }
}

#[test]
fn unroutable_envelope_is_dropped() {
    let mut app = App::new(16);
    let twin = App::new(16);
    app.handle_inbound(PhoenixEvent {
        name: String::from("weather"),
        payload: None,
    });
    assert_eq!(app, twin);
}

#[test]
fn menu_navigation_and_kill_key() {
    let mut app = App::new(16);
    assert!(KeyInput::with_ctrl(Key::Char('c')).is_kill());
    assert!(!KeyInput::plain(Key::Char('c')).is_kill());
    let quit = app.handle_key(key('q'));
    assert_eq!(quit, Some(TUIAction::Quit));
}

#[test]
fn menu_opens_each_entry() {
    let presses = [
        (0, ScreenType::Notes),
        (1, ScreenType::Bin),
        (2, ScreenType::Projects),
        (3, ScreenType::Todos),
    ];
    for (downs, want) in presses {
        let mut app = App::new(16);
        for _ in 0..downs {
            app.handle_key(key('j'));
        }
        app.handle_key(KeyInput::plain(Key::Enter));
        assert_eq!(app.screen_type, want);
    }
}

#[test]
fn notes_screen_asks_for_notes_on_open() {
    let mut app = App::new(16);
    app.handle_key(KeyInput::plain(Key::Enter));
    assert_eq!(app.screen_type, ScreenType::Notes);
    assert_eq!(app.outbound.items.len(), 1);
    assert_eq!(app.outbound.items[0].name, "notes");
    assert_eq!(
        app.outbound.items[0].payload,
        Some(EventPayload::NotesCommand)
    );
}

#[test]
fn back_key_returns_to_menu() {
    let mut app = App::new(16);
    app.handle_key(key('j'));
    app.handle_key(key('j'));
    app.handle_key(key('j'));
    app.handle_key(KeyInput::plain(Key::Enter));
    assert_eq!(app.screen_type, ScreenType::Todos);
    app.handle_key(key('b'));
    assert_eq!(app.screen_type, ScreenType::Main);
}

#[test]
fn status_event_reads_ok() {
    assert!(status("OK").is_ok());
    assert!(!status("ERROR").is_ok());
    assert!(!status("ok").is_ok());
}

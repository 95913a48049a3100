use meowui::expire_input::{ExpireAtWidget, TimeUnit};
use meowui::input_widget::InputWidget;
use meowui::keys::{Key, KeyInput};
use meowui::multiline_input::MultilineInput;
use meowui::selection::Selection;

fn chars(s: &str) -> Vec<char> {
    s.chars().collect()
}

#[test]
fn input_starts_with_cursor_at_end() {
    let w = InputWidget::new(String::from("abc"));
    assert_eq!(w.content, chars("abc"));
    assert_eq!(w.cursor_position, 3);
    assert_eq!(w.content(), String::from("abc"));
}

#[test]
fn input_insert_and_delete() {
    let mut w = InputWidget::new(String::from("ab"));
    w.insert_char('c');
    assert_eq!(w.content(), String::from("abc"));
    assert_eq!(w.cursor_position, 3);
    w.delete_char();
    w.delete_char();
    assert_eq!(w.content(), String::from("a"));
    assert_eq!(w.cursor_position, 1);
    w.delete_char();
    w.delete_char();
    assert_eq!(w.content(), String::new());
    assert_eq!(w.cursor_position, 0);
}

#[test]
fn input_cursor_clamps_at_both_ends() {
    let mut w = InputWidget::new(String::from("xy"));
    w.move_cursor_right();
    assert_eq!(w.cursor_position, 2);
    w.move_cursor_left();
    w.move_cursor_left();
    w.move_cursor_left();
    assert_eq!(w.cursor_position, 0);
    w.insert_char('z');
    assert_eq!(w.content(), String::from("zxy"));
}

#[test]
fn input_handle_key_routes() {
    let mut w = InputWidget::new(String::from("a"));
    w.handle_key(KeyInput::plain(Key::Char('b')));
    w.handle_key(KeyInput::plain(Key::Left));
    w.handle_key(KeyInput::plain(Key::Char('c')));
    assert_eq!(w.content(), String::from("acb"));
    w.handle_key(KeyInput::plain(Key::Backspace));
    assert_eq!(w.content(), String::from("ab"));
    w.handle_key(KeyInput::plain(Key::Esc));
    assert_eq!(w.content(), String::from("ab"));
}

#[test]
fn multiline_roundtrip_simple() {
    let w = MultilineInput::new(String::from("a\nb"));
    assert_eq!(w.lines, vec![chars("a"), chars("b")]);
    assert_eq!(w.content(), String::from("a\nb"));
}

#[test]
fn multiline_roundtrip_edges() {
    assert_eq!(MultilineInput::new(String::new()).content(), String::new());
    assert_eq!(
        MultilineInput::new(String::from("a\n\nb")).content(),
        String::from("a\n\nb")
    );
    assert_eq!(
        MultilineInput::new(String::from("a\n")).content(),
        String::from("a\n")
    );
}

#[test]
fn multiline_new_cursor_at_end_of_last_line() {
    let w = MultilineInput::new(String::from("ab\ncd"));
    assert_eq!(w.cursor_y, 1);
    assert_eq!(w.cursor_x, 2);
}

#[test]
fn multiline_enter_splits_line() {
    let mut w = MultilineInput::new(String::from("ab"));
    assert_eq!((w.cursor_y, w.cursor_x), (0, 2));
    w.insert_char('\n');
    assert_eq!(w.lines, vec![chars("ab"), chars("")]);
    assert_eq!((w.cursor_y, w.cursor_x), (1, 0));
}

#[test]
fn multiline_enter_splits_mid_line() {
    let mut w = MultilineInput {
        lines: vec![chars("abcd")],
        cursor_x: 2,
        cursor_y: 0,
    };
    w.insert_char('\n');
    assert_eq!(w.lines, vec![chars("ab"), chars("cd")]);
    assert_eq!((w.cursor_y, w.cursor_x), (1, 0));
}

#[test]
fn multiline_backspace_merges_lines() {
    let mut w = MultilineInput {
        lines: vec![chars("ab"), chars("cd")],
        cursor_x: 0,
        cursor_y: 1,
    };
    w.delete_char();
    assert_eq!(w.lines, vec![chars("abcd")]);
    assert_eq!((w.cursor_y, w.cursor_x), (0, 2));
}

#[test]
fn multiline_backspace_within_line_and_at_origin() {
    let mut w = MultilineInput {
        lines: vec![chars("ab")],
        cursor_x: 2,
        cursor_y: 0,
    };
    w.delete_char();
    assert_eq!(w.lines, vec![chars("a")]);
    w.delete_char();
    w.delete_char();
    assert_eq!(w.lines, vec![chars("")]);
    assert_eq!((w.cursor_y, w.cursor_x), (0, 0));
}

#[test]
fn multiline_vertical_moves_clamp_column() {
    let mut w = MultilineInput {
        lines: vec![chars("a"), chars("abcd")],
        cursor_x: 4,
        cursor_y: 1,
    };
    w.move_cursor_up();
    assert_eq!((w.cursor_y, w.cursor_x), (0, 1));
    w.move_cursor_down();
    assert_eq!((w.cursor_y, w.cursor_x), (1, 1));
}

#[test]
fn multiline_horizontal_moves_cross_lines() {
    let mut w = MultilineInput {
        lines: vec![chars("ab"), chars("cd")],
        cursor_x: 0,
        cursor_y: 1,
    };
    w.move_cursor_left();
    assert_eq!((w.cursor_y, w.cursor_x), (0, 2));
    w.move_cursor_right();
    assert_eq!((w.cursor_y, w.cursor_x), (1, 0));
}

#[test]
fn expire_starts_at_zero_minutes() {
    let w = ExpireAtWidget::new();
    assert_eq!(w.time, chars("0"));
    assert_eq!(w.unit, TimeUnit::Minute);
    assert_eq!(w.cursor_position, 1);
    let at = w.time();
    assert_eq!(at.time, 0);
    assert_eq!(at.unit, TimeUnit::Minute);
}

#[test]
fn expire_accepts_digits_only() {
    let mut w = ExpireAtWidget::new();
    w.handle_key(KeyInput::plain(Key::Char('1')));
    w.handle_key(KeyInput::plain(Key::Char('2')));
    w.handle_key(KeyInput::plain(Key::Char('x')));
    assert_eq!(w.time, chars("012"));
    assert_eq!(w.time().time, 12);
}

#[test]
fn expire_backspace_and_moves() {
    let mut w = ExpireAtWidget::new();
    w.handle_key(KeyInput::plain(Key::Char('7')));
    w.handle_key(KeyInput::plain(Key::Backspace));
    assert_eq!(w.time, chars("0"));
    w.handle_key(KeyInput::plain(Key::Left));
    assert_eq!(w.cursor_position, 0);
    w.handle_key(KeyInput::plain(Key::Right));
    assert_eq!(w.cursor_position, 1);
}

#[test]
fn unit_cycles_forward_with_wraparound() {
    let mut w = ExpireAtWidget::new();
    assert_eq!(w.unit, TimeUnit::Minute);
    w.handle_key(KeyInput::plain(Key::Char('l')));
    assert_eq!(w.unit, TimeUnit::Hour);
    w.handle_key(KeyInput::plain(Key::Char('l')));
    assert_eq!(w.unit, TimeUnit::Day);
    w.handle_key(KeyInput::plain(Key::Char('l')));
    assert_eq!(w.unit, TimeUnit::Minute);
}

#[test]
fn unit_cycles_backward_with_wraparound() {
    let mut w = ExpireAtWidget::new();
    w.handle_key(KeyInput::plain(Key::Char('l')));
    w.handle_key(KeyInput::plain(Key::Char('l')));
    assert_eq!(w.unit, TimeUnit::Day);
    w.handle_key(KeyInput::plain(Key::Char('h')));
    assert_eq!(w.unit, TimeUnit::Hour);
    w.handle_key(KeyInput::plain(Key::Char('h')));
    assert_eq!(w.unit, TimeUnit::Minute);
    w.handle_key(KeyInput::plain(Key::Char('h')));
    assert_eq!(w.unit, TimeUnit::Day);
}

#[test]
fn unit_names() {
    assert_eq!(TimeUnit::Day.to_string(), "Day");
    assert_eq!(TimeUnit::Minute.to_string(), "Minute");
    assert_eq!(TimeUnit::Hour.to_string(), "Hour");
}

#[test]
fn selection_saturates_with_no_wraparound() {
    let mut s = Selection { selected: Some(2) };
    s.select_next(3);
    assert_eq!(s.selected, Some(2));
    s.select_next(3);
    assert_eq!(s.selected, Some(2));
    s.select_previous(3);
    assert_eq!(s.selected, Some(1));
    s.select_previous(3);
    s.select_previous(3);
    assert_eq!(s.selected, Some(0));
}

#[test]
fn selection_from_none_and_boundaries() {
    let mut s = Selection::new();
    assert_eq!(s.selected, None);
    s.select_next(4);
    assert_eq!(s.selected, Some(0));
    s.select_last(4);
    assert_eq!(s.selected, Some(3));
    s.select_first(4);
    assert_eq!(s.selected, Some(0));
    s.select_none();
    s.select_previous(4);
    assert_eq!(s.selected, Some(3));
}

#[test]
fn selection_ignores_empty_list() {
    let mut s = Selection::new();
    s.select_next(0);
    s.select_previous(0);
    s.select_first(0);
    s.select_last(0);
    assert_eq!(s.selected, None);
}

use projector::confirm::ConfirmPrompt;
use projector::keys::{Key, Step};
use projector::message::MessageDisplay;
use projector::selector::{ListSelector, WrapPolicy};
use projector::text_input::TextInput;

fn labels(n: usize) -> Vec<String> {
    let mut v = Vec::new();
    let names = ["alpha", "beta", "gamma", "delta"];
    for i in 0..n {
        v.push(names[i % names.len()].to_string());
    }
    v
}

#[test]
fn selector_starts_at_top() {
    let s = ListSelector::new(labels(3), WrapPolicy::Circular);
    assert_eq!(s.cursor, 0);
}

#[test]
fn selector_down_moves_cursor() {
    let mut s = ListSelector::new(labels(3), WrapPolicy::Circular);
    assert_eq!(s.handle_key(Key::Down), Step::Continue);
    assert_eq!(s.cursor, 1);
}

#[test]
fn selector_circular_wraps_at_both_ends() {
    let mut s = ListSelector::new(labels(3), WrapPolicy::Circular);
    s.handle_key(Key::Up);
    assert_eq!(s.cursor, 2);
    s.handle_key(Key::Down);
    assert_eq!(s.cursor, 0);
}

#[test]
fn selector_down_n_times_returns_to_start() {
    // The wrap round-trip law on concrete values.
    let n = 4;
    let mut s = ListSelector::new(labels(n), WrapPolicy::Circular);
    s.handle_key(Key::Down);
    let start = s.cursor;
    for _ in 0..n {
        s.handle_key(Key::Down);
    }
    assert_eq!(s.cursor, start);
}

#[test]
fn selector_clamped_stays_at_ends() {
    let mut s = ListSelector::new(labels(2), WrapPolicy::Clamped);
    s.handle_key(Key::Up);
    assert_eq!(s.cursor, 0);
    s.handle_key(Key::Down);
    s.handle_key(Key::Down);
    assert_eq!(s.cursor, 1);
}

#[test]
fn selector_cursor_stays_in_bounds_under_key_storm() {
    let n = 3;
    let mut s = ListSelector::new(labels(n), WrapPolicy::Circular);
    let presses = [
        Key::Down,
        Key::Down,
        Key::Up,
        Key::Down,
        Key::Up,
        Key::Up,
        Key::Up,
        Key::Down,
        Key::Down,
        Key::Down,
        Key::Down,
        Key::Up,
    ];
    for k in presses {
        s.handle_key(k);
        assert!(s.cursor < n);
    }
}

#[test]
fn selector_enter_reports_cursor() {
    let mut s = ListSelector::new(labels(3), WrapPolicy::Clamped);
    s.handle_key(Key::Down);
    assert_eq!(s.handle_key(Key::Enter), Step::Done(Some(1)));
}

#[test]
fn selector_escape_and_q_report_nothing() {
    let mut s = ListSelector::new(labels(3), WrapPolicy::Circular);
    assert_eq!(s.handle_key(Key::Escape), Step::Done(None));
    let mut s = ListSelector::new(labels(3), WrapPolicy::Circular);
    assert_eq!(s.handle_key(Key::Char('q')), Step::Done(None));
}

#[test]
fn selector_ignores_other_keys() {
    let mut s = ListSelector::new(labels(3), WrapPolicy::Circular);
    assert_eq!(s.handle_key(Key::Other), Step::Continue);
    assert_eq!(s.handle_key(Key::Char('x')), Step::Continue);
    assert_eq!(s.cursor, 0);
}

#[test]
fn confirm_y_answers_yes() {
    let p = ConfirmPrompt::new("Install? (y/n)".to_string());
    assert_eq!(p.handle_key(Key::Char('y')), Step::Done(true));
}

#[test]
fn confirm_enter_answers_yes() {
    let p = ConfirmPrompt::new("Install? (y/n)".to_string());
    assert_eq!(p.handle_key(Key::Enter), Step::Done(true));
}

#[test]
fn confirm_n_answers_no() {
    let p = ConfirmPrompt::new("Install? (y/n)".to_string());
    assert_eq!(p.handle_key(Key::Char('n')), Step::Done(false));
}

#[test]
fn confirm_escape_answers_no() {
    let p = ConfirmPrompt::new("Install? (y/n)".to_string());
    assert_eq!(p.handle_key(Key::Escape), Step::Done(false));
}

#[test]
fn confirm_ignores_other_keys() {
    let p = ConfirmPrompt::new("Install? (y/n)".to_string());
    assert_eq!(p.handle_key(Key::Char('z')), Step::Continue);
    assert_eq!(p.handle_key(Key::Up), Step::Continue);
}

#[test]
fn text_input_backspace_then_enter_trims_last_char() {
    let mut t = TextInput::new("Project name?".to_string());
    assert_eq!(t.handle_key(Key::Char('a')), Step::Continue);
    assert_eq!(t.handle_key(Key::Char('b')), Step::Continue);
    assert_eq!(t.handle_key(Key::Char('c')), Step::Continue);
    assert_eq!(t.handle_key(Key::Backspace), Step::Continue);
    assert_eq!(t.handle_key(Key::Enter), Step::Done("ab".to_string()));
}

#[test]
fn text_input_whitespace_only_trims_to_empty() {
    let mut t = TextInput::new("Project name?".to_string());
    t.handle_key(Key::Char(' '));
    t.handle_key(Key::Char('\t'));
    t.handle_key(Key::Char(' '));
    assert_eq!(t.handle_key(Key::Enter), Step::Done(String::new()));
}

#[test]
fn text_input_trims_both_ends() {
    let mut t = TextInput::new("Project name?".to_string());
    for c in "  hi there ".chars() {
        t.handle_key(Key::Char(c));
    }
    assert_eq!(t.handle_key(Key::Enter), Step::Done("hi there".to_string()));
}

#[test]
fn text_input_backspace_on_empty_is_noop() {
    let mut t = TextInput::new("Project name?".to_string());
    assert_eq!(t.handle_key(Key::Backspace), Step::Continue);
    assert_eq!(t.handle_key(Key::Enter), Step::Done(String::new()));
}

#[test]
fn text_input_q_finishes() {
    let mut t = TextInput::new("Project name?".to_string());
    t.handle_key(Key::Char('a'));
    assert_eq!(t.handle_key(Key::Char('q')), Step::Done("a".to_string()));
}

#[test]
fn text_input_escape_finishes_with_buffer() {
    let mut t = TextInput::new("Project name?".to_string());
    t.handle_key(Key::Char('h'));
    t.handle_key(Key::Char('i'));
    assert_eq!(t.handle_key(Key::Escape), Step::Done("hi".to_string()));
}

#[test]
fn message_display_waits_for_escape() {
    let m = MessageDisplay::new("Not implemented yet.".to_string());
    assert_eq!(m.handle_key(Key::Enter), Step::Continue);
    assert_eq!(m.handle_key(Key::Char('q')), Step::Continue);
    assert_eq!(m.handle_key(Key::Escape), Step::Done(()));
}

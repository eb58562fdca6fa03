use snake::direction::Direction;
use snake::input::{key_press, Input, KeyPress};

#[test]
fn quit_and_escape_want_out() {
    assert!(Input::Quit.wants_out());
    assert!(Input::Escape.wants_out());
    assert!(!Input::Arrow(Direction::Up).wants_out());
    assert!(!Input::OtherKey.wants_out());
    assert!(!Input::Other.wants_out());
}

#[test]
fn every_key_is_a_key_down() {
    assert!(Input::Escape.is_key_down());
    assert!(Input::OtherKey.is_key_down());
    assert!(Input::Arrow(Direction::Left).is_key_down());
    assert!(Input::Arrow(Direction::Down).is_key_down());
    assert!(!Input::Quit.is_key_down());
    assert!(!Input::Other.is_key_down());
}

#[test]
fn key_press_on_an_empty_queue_is_idle() {
    assert_eq!(key_press(None), KeyPress::Idle);
}

#[test]
fn key_press_exits_on_quit_and_escape() {
    assert_eq!(key_press(Some(Input::Quit)), KeyPress::Exit);
    assert_eq!(key_press(Some(Input::Escape)), KeyPress::Exit);
}

#[test]
fn key_press_reports_any_other_key() {
    assert_eq!(key_press(Some(Input::OtherKey)), KeyPress::Pressed);
    assert_eq!(key_press(Some(Input::Arrow(Direction::Up))), KeyPress::Pressed);
    assert_eq!(key_press(Some(Input::Arrow(Direction::Right))), KeyPress::Pressed);
}

#[test]
fn key_press_lets_other_events_pass() {
    assert_eq!(key_press(Some(Input::Other)), KeyPress::Idle);
}

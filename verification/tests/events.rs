use line_prompt::events::{Event, Key, MouseButton, MouseEvent, SystemEvent, TerminalEvent};

#[test]
fn ctrl_c_asks_to_exit() {
    let event = Event::from_terminal(TerminalEvent::Key(Key::Ctrl('c')));
    assert_eq!(event, Event::System(SystemEvent::Exit));
    assert!(event.is_exit());
}

#[test]
fn other_keys_pass_through() {
    let keys = [
        Key::Char('c'),
        Key::Ctrl('d'),
        Key::Alt('c'),
        Key::Char('\n'),
        Key::Up,
        Key::Esc,
        Key::F(5),
    ];
    for key in keys {
        let event = Event::from_terminal(TerminalEvent::Key(key));
        assert_eq!(event, Event::Key(key));
        assert!(!event.is_exit());
    }
}

#[test]
fn mouse_reports_pass_through() {
    let press = MouseEvent::Press(MouseButton::Left, 3, 4);
    assert_eq!(Event::from_terminal(TerminalEvent::Mouse(press)), Event::Mouse(press));
    let hold = MouseEvent::Hold(1, 1);
    assert_eq!(Event::from_terminal(TerminalEvent::Mouse(hold)), Event::Mouse(hold));
}

#[test]
fn unsupported_bytes_pass_through() {
    let event = Event::from_terminal(TerminalEvent::Unsupported(vec![27, 91, 50]));
    assert_eq!(event, Event::Unsupported(vec![27, 91, 50]));
    assert!(!event.is_exit());
}

#[test]
fn only_the_exit_request_ends_the_stream() {
    assert!(Event::System(SystemEvent::Exit).is_exit());
    assert!(!Event::Key(Key::Ctrl('c')).is_exit());
    assert!(!Event::Resize(80, 24).is_exit());
    assert!(!Event::Mouse(MouseEvent::Release(1, 1)).is_exit());
    assert!(!Event::Unsupported(Vec::new()).is_exit());
}

#[test]
fn same_size_is_no_event() {
    assert_eq!(Event::from_size((80, 24), (80, 24)), None);
}

#[test]
fn changed_size_is_a_resize_to_the_new_size() {
    assert_eq!(Event::from_size((80, 24), (100, 24)), Some(Event::Resize(100, 24)));
    assert_eq!(Event::from_size((80, 24), (80, 30)), Some(Event::Resize(80, 30)));
    assert_eq!(Event::from_size((80, 24), (24, 80)), Some(Event::Resize(24, 80)));
}

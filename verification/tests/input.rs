use space_recorder::input::{handle_key_event, key_event_to_bytes, KeyAction, KeyCode, KeyEvent, KeyModifiers, ModalCommand};

#[test]
fn test_key_event_to_bytes_regular_char() {
    let event = KeyEvent::new(KeyCode::Char('a'), KeyModifiers::none());
    assert_eq!(key_event_to_bytes(event), Some(vec![b'a']));
}

#[test]
fn test_key_event_to_bytes_ctrl_c() {
    let event = KeyEvent::new(KeyCode::Char('c'), KeyModifiers::control());
    assert_eq!(key_event_to_bytes(event), Some(vec![0x03]));
}

#[test]
fn test_key_event_to_bytes_ctrl_d() {
    let event = KeyEvent::new(KeyCode::Char('d'), KeyModifiers::control());
    assert_eq!(key_event_to_bytes(event), Some(vec![0x04]));
}

#[test]
fn test_key_event_to_bytes_ctrl_z() {
    let event = KeyEvent::new(KeyCode::Char('z'), KeyModifiers::control());
    assert_eq!(key_event_to_bytes(event), Some(vec![0x1A]));
}

#[test]
fn test_key_event_to_bytes_enter() {
    let event = KeyEvent::new(KeyCode::Enter, KeyModifiers::none());
    assert_eq!(key_event_to_bytes(event), Some(vec![b'\r']));
}

#[test]
fn test_key_event_to_bytes_backspace() {
    let event = KeyEvent::new(KeyCode::Backspace, KeyModifiers::none());
    assert_eq!(key_event_to_bytes(event), Some(vec![0x7F]));
}

#[test]
fn test_key_event_to_bytes_arrow_up() {
    let event = KeyEvent::new(KeyCode::Up, KeyModifiers::none());
    assert_eq!(key_event_to_bytes(event), Some(b"\x1B[A".to_vec()));
}

#[test]
fn test_key_event_to_bytes_arrow_down() {
    let event = KeyEvent::new(KeyCode::Down, KeyModifiers::none());
    assert_eq!(key_event_to_bytes(event), Some(b"\x1B[B".to_vec()));
}

#[test]
fn test_key_event_to_bytes_arrow_left() {
    let event = KeyEvent::new(KeyCode::Left, KeyModifiers::none());
    assert_eq!(key_event_to_bytes(event), Some(b"\x1B[D".to_vec()));
}

#[test]
fn test_key_event_to_bytes_arrow_right() {
    let event = KeyEvent::new(KeyCode::Right, KeyModifiers::none());
    assert_eq!(key_event_to_bytes(event), Some(b"\x1B[C".to_vec()));
}

#[test]
fn test_key_event_to_bytes_escape() {
    let event = KeyEvent::new(KeyCode::Esc, KeyModifiers::none());
    assert_eq!(key_event_to_bytes(event), Some(vec![0x1B]));
}

#[test]
fn test_key_event_to_bytes_tab() {
    let event = KeyEvent::new(KeyCode::Tab, KeyModifiers::none());
    assert_eq!(key_event_to_bytes(event), Some(vec![b'\t']));
}

#[test]
fn test_key_event_to_bytes_alt_c() {
    let event = KeyEvent::new(KeyCode::Char('c'), KeyModifiers::alt());
    assert_eq!(key_event_to_bytes(event), Some(vec![0x1B, b'c']));
}

#[test]
fn test_handle_key_event_other_alt_keys_forwarded() {
    let event = KeyEvent::new(KeyCode::Char('x'), KeyModifiers::alt());
    match handle_key_event(event) {
        KeyAction::Forward(bytes) => assert_eq!(bytes, vec![0x1B, b'x']),
        _ => panic!("Expected Forward action for Alt+X"),
    }
}

#[test]
fn test_handle_key_event_regular_keys_forwarded() {
    let event = KeyEvent::new(KeyCode::Char('a'), KeyModifiers::none());
    match handle_key_event(event) {
        KeyAction::Forward(bytes) => assert_eq!(bytes, vec![b'a']),
        _ => panic!("Expected Forward action for regular 'a'"),
    }
}

#[test]
fn test_handle_key_event_ctrl_keys_forwarded() {
    let event = KeyEvent::new(KeyCode::Char('c'), KeyModifiers::control());
    match handle_key_event(event) {
        KeyAction::Forward(bytes) => assert_eq!(bytes, vec![0x03]),
        _ => panic!("Expected Forward action for Ctrl+C"),
    }
}

#[test]
fn hotkeys_become_modal_commands() {
    let alt = KeyModifiers::alt();
    let cases = [
        ('c', ModalCommand::Toggle),
        ('C', ModalCommand::Toggle),
        ('p', ModalCommand::CyclePosition),
        ('s', ModalCommand::CycleSize),
        ('a', ModalCommand::CycleCharset),
        ('T', ModalCommand::CycleTransparency),
    ];
    for (c, cmd) in cases {
        assert_eq!(handle_key_event(KeyEvent::new(KeyCode::Char(c), alt)), KeyAction::Handled(cmd));
    }
}

#[test]
fn other_keys() {
    assert_eq!(key_event_to_bytes(KeyEvent::new(KeyCode::Char('é'), KeyModifiers::none())), Some(vec![0xC3, 0xA9]));
    assert_eq!(key_event_to_bytes(KeyEvent::new(KeyCode::F(5), KeyModifiers::none())), Some(b"\x1B[15~".to_vec()));
    assert_eq!(key_event_to_bytes(KeyEvent::new(KeyCode::F(13), KeyModifiers::none())), None);
    assert_eq!(key_event_to_bytes(KeyEvent::new(KeyCode::Char('['), KeyModifiers::control())), Some(vec![0x1B]));
    assert_eq!(key_event_to_bytes(KeyEvent::new(KeyCode::Char('1'), KeyModifiers::control())), None);
    assert_eq!(key_event_to_bytes(KeyEvent::new(KeyCode::Char('C'), KeyModifiers::control())), Some(vec![0x03]));
    assert_eq!(handle_key_event(KeyEvent::new(KeyCode::Other, KeyModifiers::none())), KeyAction::NoAction);
    let ctrl_alt = KeyModifiers::control().union(KeyModifiers::alt());
    assert_eq!(handle_key_event(KeyEvent::new(KeyCode::Char('c'), ctrl_alt)), KeyAction::Handled(ModalCommand::Toggle));
}

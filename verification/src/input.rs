//! Keyboard input: the camera-modal hotkeys (Alt + key) and the bytes that
//! every other key sends to the shell's terminal.
use vstd::prelude::*;
use crate::text::push_char;

verus! {

/// Modifier keys held with a key, as bit flags (shift 1, control 2, alt 4,
/// super 8, hyper 16, meta 32).
#[derive(Debug, Clone, Copy, PartialEq, Eq, Structural)]
pub struct KeyModifiers {
    pub bits: u8,
}

pub open spec fn has_flag(bits: u8, flag: u8) -> bool {
    bits & flag == flag
}

impl KeyModifiers {
    /// No modifier.
    pub fn none() -> (m: KeyModifiers)
        ensures
            m.bits == 0,
    {
        KeyModifiers { bits: 0 }
    }

    /// Shift held.
    pub fn shift() -> (m: KeyModifiers)
        ensures
            m.bits == 1,
    {
        KeyModifiers { bits: 1 }
    }

    /// Control held.
    pub fn control() -> (m: KeyModifiers)
        ensures
            m.bits == 2,
    {
        KeyModifiers { bits: 2 }
    }

    /// Alt held.
    pub fn alt() -> (m: KeyModifiers)
        ensures
            m.bits == 4,
    {
        KeyModifiers { bits: 4 }
    }

    /// The modifiers of both.
    pub fn union(self, other: KeyModifiers) -> (m: KeyModifiers)
        ensures
            m.bits == self.bits | other.bits,
    {
        KeyModifiers { bits: self.bits | other.bits }
    }

    pub open spec fn control_held(self) -> bool {
        has_flag(self.bits, 2)
    }

    pub open spec fn alt_held(self) -> bool {
        has_flag(self.bits, 4)
    }

    /// Whether control is held.
    pub fn contains_control(&self) -> (b: bool)
        ensures
            b == self.control_held(),
    {
        self.bits & 2 == 2
    }

    /// Whether alt is held.
    pub fn contains_alt(&self) -> (b: bool)
        ensures
            b == self.alt_held(),
    {
        self.bits & 4 == 4
    }
}

/// A key of the keyboard.
#[derive(Debug, Clone, Copy, PartialEq, Eq, Structural)]
pub enum KeyCode {
    Char(char),
    Enter,
    Tab,
    Backspace,
    Esc,
    Up,
    Down,
    Left,
    Right,
    Home,
    End,
    PageUp,
    PageDown,
    Insert,
    Delete,
    /// Function key `F(n)`
    F(u8),
    /// Any other key
    Other,
}

/// A key press with its modifiers.
#[derive(Debug, Clone, Copy, PartialEq, Eq, Structural)]
pub struct KeyEvent {
    pub code: KeyCode,
    pub modifiers: KeyModifiers,
}

impl KeyEvent {
    pub fn new(code: KeyCode, modifiers: KeyModifiers) -> (e: KeyEvent)
        ensures
            e.code == code,
            e.modifiers == modifiers,
    {
        KeyEvent { code, modifiers }
    }
}

/// A change of the camera modal that a hotkey asks for.
#[derive(Debug, Clone, Copy, PartialEq, Eq, Structural)]
pub enum ModalCommand {
    /// Alt+C: show or hide the camera
    Toggle,
    /// Alt+P: next position
    CyclePosition,
    /// Alt+S: next size
    CycleSize,
    /// Alt+A: next character set
    CycleCharset,
    /// Alt+T: next transparency
    CycleTransparency,
}

/// Result of handling a key event.
#[derive(Debug, Clone, PartialEq, Eq)]
pub enum KeyAction {
    /// The key was a hotkey (not forwarded to the shell)
    Handled(ModalCommand),
    /// The key is forwarded to the shell as these bytes
    Forward(Vec<u8>),
    /// Nothing to do
    NoAction,
}

pub open spec fn is_ascii_alpha(c: char) -> bool {
    ('a' <= c <= 'z') || ('A' <= c <= 'Z')
}

/// The control code of Ctrl with an ASCII letter: 1 for A through 26 for Z.
pub open spec fn control_code(c: char) -> u8 {
    if 'A' <= c <= 'Z' {
        (c as int - 'A' as int + 1) as u8
    } else {
        (c as int - 'a' as int + 1) as u8
    }
}

/// Bytes of a key held with Ctrl.
pub open spec fn control_bytes(code: KeyCode) -> Option<Seq<u8>> {
    match code {
        KeyCode::Char(c) => if is_ascii_alpha(c) {
            Some(seq![control_code(c)])
        } else if c == '[' {
            Some(seq![0x1Bu8])
        } else if c == '\\' {
            Some(seq![0x1Cu8])
        } else if c == ']' {
            Some(seq![0x1Du8])
        } else if c == '^' {
            Some(seq![0x1Eu8])
        } else if c == '_' {
            Some(seq![0x1Fu8])
        } else if c == ' ' {
            Some(seq![0x00u8])
        } else {
            None
        },
        _ => None,
    }
}

/// Escape sequence of a special key.
pub open spec fn special_bytes(code: KeyCode) -> Option<Seq<u8>> {
    match code {
        KeyCode::Enter => Some(seq![0x0Du8]),
        KeyCode::Tab => Some(seq![0x09u8]),
        KeyCode::Backspace => Some(seq![0x7Fu8]),
        KeyCode::Esc => Some(seq![0x1Bu8]),
        KeyCode::Up => Some(seq![0x1Bu8, 0x5B, 0x41]),
        KeyCode::Down => Some(seq![0x1Bu8, 0x5B, 0x42]),
        KeyCode::Right => Some(seq![0x1Bu8, 0x5B, 0x43]),
        KeyCode::Left => Some(seq![0x1Bu8, 0x5B, 0x44]),
        KeyCode::Home => Some(seq![0x1Bu8, 0x5B, 0x48]),
        KeyCode::End => Some(seq![0x1Bu8, 0x5B, 0x46]),
        KeyCode::PageUp => Some(seq![0x1Bu8, 0x5B, 0x35, 0x7E]),
        KeyCode::PageDown => Some(seq![0x1Bu8, 0x5B, 0x36, 0x7E]),
        KeyCode::Insert => Some(seq![0x1Bu8, 0x5B, 0x32, 0x7E]),
        KeyCode::Delete => Some(seq![0x1Bu8, 0x5B, 0x33, 0x7E]),
        KeyCode::F(n) => if n == 1 {
            Some(seq![0x1Bu8, 0x4F, 0x50])
        } else if n == 2 {
            Some(seq![0x1Bu8, 0x4F, 0x51])
        } else if n == 3 {
            Some(seq![0x1Bu8, 0x4F, 0x52])
        } else if n == 4 {
            Some(seq![0x1Bu8, 0x4F, 0x53])
        } else if n == 5 {
            Some(seq![0x1Bu8, 0x5B, 0x31, 0x35, 0x7E])
        } else if n == 6 {
            Some(seq![0x1Bu8, 0x5B, 0x31, 0x37, 0x7E])
        } else if n == 7 {
            Some(seq![0x1Bu8, 0x5B, 0x31, 0x38, 0x7E])
        } else if n == 8 {
            Some(seq![0x1Bu8, 0x5B, 0x31, 0x39, 0x7E])
        } else if n == 9 {
            Some(seq![0x1Bu8, 0x5B, 0x32, 0x30, 0x7E])
        } else if n == 10 {
            Some(seq![0x1Bu8, 0x5B, 0x32, 0x31, 0x7E])
        } else if n == 11 {
            Some(seq![0x1Bu8, 0x5B, 0x32, 0x33, 0x7E])
        } else if n == 12 {
            Some(seq![0x1Bu8, 0x5B, 0x32, 0x34, 0x7E])
        } else {
            None
        },
        _ => None,
    }
}

/// The bytes that a key event sends to the terminal: with Ctrl, the control
/// code of a letter or of `[ \ ] ^ _ space`; with Alt, ESC and the
/// character's low byte; otherwise a character's UTF-8 encoding or a special
/// key's escape sequence. `None` for keys that send nothing.
pub open spec fn key_bytes(event: KeyEvent) -> Option<Seq<u8>> {
    if event.modifiers.control_held() {
        control_bytes(event.code)
    } else if event.modifiers.alt_held() {
        match event.code {
            KeyCode::Char(c) => Some(seq![0x1Bu8, (c as u32 % 256) as u8]),
            _ => None,
        }
    } else {
        match event.code {
            KeyCode::Char(c) => Some(vstd::utf8::encode_utf8(seq![c])),
            _ => special_bytes(event.code),
        }
    }
}

fn char_utf8(c: char) -> (b: Vec<u8>)
    ensures
        b@ == vstd::utf8::encode_utf8(seq![c]),
{
    let mut s = String::new();
    push_char(&mut s, c);
    assert(s@ =~= seq![c]);
    let bytes = s.as_str().as_bytes();
    vstd::slice::slice_to_vec(bytes)
}

fn special_key_bytes(code: KeyCode) -> (r: Option<Vec<u8>>)
    ensures
        match special_bytes(code) {
            Some(b) => r matches Some(v) && v@ == b,
            None => r is None,
        },
{
    match code {
        KeyCode::Enter => Some(vec![0x0Du8]),
        KeyCode::Tab => Some(vec![0x09u8]),
        KeyCode::Backspace => Some(vec![0x7Fu8]),
        KeyCode::Esc => Some(vec![0x1Bu8]),
        KeyCode::Up => Some(vec![0x1Bu8, 0x5B, 0x41]),
        KeyCode::Down => Some(vec![0x1Bu8, 0x5B, 0x42]),
        KeyCode::Right => Some(vec![0x1Bu8, 0x5B, 0x43]),
        KeyCode::Left => Some(vec![0x1Bu8, 0x5B, 0x44]),
        KeyCode::Home => Some(vec![0x1Bu8, 0x5B, 0x48]),
        KeyCode::End => Some(vec![0x1Bu8, 0x5B, 0x46]),
        KeyCode::PageUp => Some(vec![0x1Bu8, 0x5B, 0x35, 0x7E]),
        KeyCode::PageDown => Some(vec![0x1Bu8, 0x5B, 0x36, 0x7E]),
        KeyCode::Insert => Some(vec![0x1Bu8, 0x5B, 0x32, 0x7E]),
        KeyCode::Delete => Some(vec![0x1Bu8, 0x5B, 0x33, 0x7E]),
        KeyCode::F(n) => {
            if n == 1 {
                Some(vec![0x1Bu8, 0x4F, 0x50])
            } else if n == 2 {
                Some(vec![0x1Bu8, 0x4F, 0x51])
            } else if n == 3 {
                Some(vec![0x1Bu8, 0x4F, 0x52])
            } else if n == 4 {
                Some(vec![0x1Bu8, 0x4F, 0x53])
            } else if n == 5 {
                Some(vec![0x1Bu8, 0x5B, 0x31, 0x35, 0x7E])
            } else if n == 6 {
                Some(vec![0x1Bu8, 0x5B, 0x31, 0x37, 0x7E])
            } else if n == 7 {
                Some(vec![0x1Bu8, 0x5B, 0x31, 0x38, 0x7E])
            } else if n == 8 {
                Some(vec![0x1Bu8, 0x5B, 0x31, 0x39, 0x7E])
            } else if n == 9 {
                Some(vec![0x1Bu8, 0x5B, 0x32, 0x30, 0x7E])
            } else if n == 10 {
                Some(vec![0x1Bu8, 0x5B, 0x32, 0x31, 0x7E])
            } else if n == 11 {
                Some(vec![0x1Bu8, 0x5B, 0x32, 0x33, 0x7E])
            } else if n == 12 {
                Some(vec![0x1Bu8, 0x5B, 0x32, 0x34, 0x7E])
            } else {
                None
            }
        },
        _ => None,
    }
}

/// Convert a key event to the bytes sent to the terminal.
pub fn key_event_to_bytes(event: KeyEvent) -> (r: Option<Vec<u8>>)
    ensures
        match key_bytes(event) {
            Some(b) => r matches Some(v) && v@ == b,
            None => r is None,
        },
{
    if event.modifiers.contains_control() {
        return match event.code {
            KeyCode::Char(c) => {
                if ('a' <= c && c <= 'z') || ('A' <= c && c <= 'Z') {
                    let code: u8 = if 'A' <= c && c <= 'Z' {
                        ((c as u32) - ('A' as u32) + 1) as u8
                    } else {
                        ((c as u32) - ('a' as u32) + 1) as u8
                    };
                    Some(vec![code])
                } else if c == '[' {
                    Some(vec![0x1Bu8])
                } else if c == '\\' {
                    Some(vec![0x1Cu8])
                } else if c == ']' {
                    Some(vec![0x1Du8])
                } else if c == '^' {
                    Some(vec![0x1Eu8])
                } else if c == '_' {
                    Some(vec![0x1Fu8])
                } else if c == ' ' {
                    Some(vec![0x00u8])
                } else {
                    None
                }
            },
            _ => None,
        };
    }
    if event.modifiers.contains_alt() {
        return match event.code {
            KeyCode::Char(c) => Some(vec![0x1Bu8, ((c as u32) % 256) as u8]),
            _ => None,
        };
    }
    match event.code {
        KeyCode::Char(c) => Some(char_utf8(c)),
        _ => special_key_bytes(event.code),
    }
}

/// The modal command of an Alt hotkey (either case of C, P, S, A, T).
pub open spec fn hotkey(event: KeyEvent) -> Option<ModalCommand> {
    if event.modifiers.alt_held() {
        match event.code {
            KeyCode::Char(c) => if c == 'c' || c == 'C' {
                Some(ModalCommand::Toggle)
            } else if c == 'p' || c == 'P' {
                Some(ModalCommand::CyclePosition)
            } else if c == 's' || c == 'S' {
                Some(ModalCommand::CycleSize)
            } else if c == 'a' || c == 'A' {
                Some(ModalCommand::CycleCharset)
            } else if c == 't' || c == 'T' {
                Some(ModalCommand::CycleTransparency)
            } else {
                None
            },
            _ => None,
        }
    } else {
        None
    }
}

/// Handle a key event: a hotkey becomes a modal command and is not
/// forwarded; any other key is forwarded as its bytes, if it has any.
pub fn handle_key_event(event: KeyEvent) -> (r: KeyAction)
    ensures
        match hotkey(event) {
            Some(cmd) => r == KeyAction::Handled(cmd),
            None => match key_bytes(event) {
                Some(b) => r matches KeyAction::Forward(v) && v@ == b,
                None => r == KeyAction::NoAction,
            },
        },
{
    if event.modifiers.contains_alt() {
        match event.code {
            KeyCode::Char(c) => {
                if c == 'c' || c == 'C' {
                    return KeyAction::Handled(ModalCommand::Toggle);
                } else if c == 'p' || c == 'P' {
                    return KeyAction::Handled(ModalCommand::CyclePosition);
                } else if c == 's' || c == 'S' {
                    return KeyAction::Handled(ModalCommand::CycleSize);
                } else if c == 'a' || c == 'A' {
                    return KeyAction::Handled(ModalCommand::CycleCharset);
                } else if c == 't' || c == 'T' {
                    return KeyAction::Handled(ModalCommand::CycleTransparency);
                }
            },
            _ => {},
        }
    }
    match key_event_to_bytes(event) {
        Some(bytes) => KeyAction::Forward(bytes),
        None => KeyAction::NoAction,
    }
}

/// Ctrl with a letter sends the same control code whatever the letter's
/// case, from 1 for A to 26 for Z.
pub proof fn control_letters_ignore_case(c: char)
    requires
        'a' <= c <= 'z',
    ensures
        control_bytes(KeyCode::Char(c)) == control_bytes(KeyCode::Char((c as int - 32) as char)),
        control_bytes(KeyCode::Char(c)) == Some(seq![(c as int - 'a' as int + 1) as u8]),
{
}

/// The number `n` of the VT220 sequence `ESC [ n ~` that an editing or upper
/// function key sends (0 for other keys).
pub open spec fn vt220_number(code: KeyCode) -> int {
    match code {
        KeyCode::Insert => 2,
        KeyCode::Delete => 3,
        KeyCode::PageUp => 5,
        KeyCode::PageDown => 6,
        KeyCode::F(n) => if n == 5 {
            15
        } else if n == 6 {
            17
        } else if n == 7 {
            18
        } else if n == 8 {
            19
        } else if n == 9 {
            20
        } else if n == 10 {
            21
        } else if n == 11 {
            23
        } else if n == 12 {
            24
        } else {
            0
        },
        _ => 0,
    }
}

/// ASCII decimal digits of a number below 100.
pub open spec fn decimal_digits(n: int) -> Seq<u8> {
    if n < 10 {
        seq![(0x30 + n) as u8]
    } else {
        seq![(0x30 + n / 10) as u8, (0x30 + n % 10) as u8]
    }
}

/// Without Ctrl or Alt, Insert, Delete, PageUp, PageDown and F5 to F12 send
/// their VT220 sequence `ESC [ n ~`: Insert 2, Delete 3, PageUp 5, PageDown 6,
/// F5 15, F6 17, F7 18, F8 19, F9 20, F10 21, F11 23, F12 24.
pub proof fn tilde_keys_send_vt220_sequences(event: KeyEvent)
    requires
        !event.modifiers.control_held(),
        !event.modifiers.alt_held(),
        vt220_number(event.code) > 0,
    ensures
        key_bytes(event) == Some(
            seq![0x1Bu8, 0x5Bu8] + decimal_digits(vt220_number(event.code)) + seq![0x7Eu8],
        ),
{
    let n = vt220_number(event.code);
    let expected = seq![0x1Bu8, 0x5Bu8] + decimal_digits(n) + seq![0x7Eu8];
    assert(key_bytes(event) == special_bytes(event.code));
    assert(special_bytes(event.code) matches Some(b) && b =~= expected);
}

/// The special key that a byte sequence stands for, read back from the
/// sequence alone.
spec fn special_key_of(s: Seq<u8>) -> Option<KeyCode> {
    if s.len() == 1 {
        if s[0] == 0x0D {
            Some(KeyCode::Enter)
        } else if s[0] == 0x09 {
            Some(KeyCode::Tab)
        } else if s[0] == 0x7F {
            Some(KeyCode::Backspace)
        } else if s[0] == 0x1B {
            Some(KeyCode::Esc)
        } else {
            None
        }
    } else if s.len() == 3 && s[1] == 0x4F {
        if 0x50 <= s[2] <= 0x53 {
            Some(KeyCode::F((s[2] - 0x4F) as u8))
        } else {
            None
        }
    } else if s.len() == 3 {
        if s[2] == 0x41 {
            Some(KeyCode::Up)
        } else if s[2] == 0x42 {
            Some(KeyCode::Down)
        } else if s[2] == 0x43 {
            Some(KeyCode::Right)
        } else if s[2] == 0x44 {
            Some(KeyCode::Left)
        } else if s[2] == 0x48 {
            Some(KeyCode::Home)
        } else if s[2] == 0x46 {
            Some(KeyCode::End)
        } else {
            None
        }
    } else if s.len() == 4 {
        if s[2] == 0x32 {
            Some(KeyCode::Insert)
        } else if s[2] == 0x33 {
            Some(KeyCode::Delete)
        } else if s[2] == 0x35 {
            Some(KeyCode::PageUp)
        } else if s[2] == 0x36 {
            Some(KeyCode::PageDown)
        } else {
            None
        }
    } else if s.len() == 5 {
        let n = (s[2] - 0x30) * 10 + (s[3] - 0x30);
        if n == 15 {
            Some(KeyCode::F(5))
        } else if n == 17 {
            Some(KeyCode::F(6))
        } else if n == 18 {
            Some(KeyCode::F(7))
        } else if n == 19 {
            Some(KeyCode::F(8))
        } else if n == 20 {
            Some(KeyCode::F(9))
        } else if n == 21 {
            Some(KeyCode::F(10))
        } else if n == 23 {
            Some(KeyCode::F(11))
        } else if n == 24 {
            Some(KeyCode::F(12))
        } else {
            None
        }
    } else {
        None
    }
}

proof fn lemma_special_bytes_identify_key(code: KeyCode)
    requires
        special_bytes(code) is Some,
    ensures
        special_key_of(special_bytes(code)->0) == Some(code),
{
}

/// Without Ctrl or Alt, two different keys other than characters never send
/// the same bytes: the terminal can always tell which key was pressed.
pub proof fn distinct_special_keys_send_distinct_bytes(a: KeyEvent, b: KeyEvent)
    requires
        !a.modifiers.control_held(),
        !a.modifiers.alt_held(),
        !b.modifiers.control_held(),
        !b.modifiers.alt_held(),
        !(a.code is Char),
        !(b.code is Char),
        key_bytes(a) is Some,
        a.code != b.code,
    ensures
        key_bytes(a) != key_bytes(b),
{
    lemma_special_bytes_identify_key(a.code);
    if key_bytes(b) is Some {
        lemma_special_bytes_identify_key(b.code);
    }
}

/// Final letter of the ANSI cursor sequence `ESC [ x` of a cursor key (0 for
/// other keys): Up A, Down B, Right C, Left D, Home H, End F.
pub open spec fn cursor_letter(code: KeyCode) -> int {
    match code {
        KeyCode::Up => 'A' as int,
        KeyCode::Down => 'B' as int,
        KeyCode::Right => 'C' as int,
        KeyCode::Left => 'D' as int,
        KeyCode::Home => 'H' as int,
        KeyCode::End => 'F' as int,
        _ => 0,
    }
}

/// Without Ctrl or Alt, the cursor keys send `ESC [` and their letter, F1 to
/// F4 send `ESC O` and `P` to `S`, and Enter, Tab, Backspace and Esc send the
/// single control byte CR, HT, DEL and ESC.
pub proof fn cursor_and_control_keys_send_ansi_bytes(event: KeyEvent)
    requires
        !event.modifiers.control_held(),
        !event.modifiers.alt_held(),
    ensures
        cursor_letter(event.code) > 0 ==> key_bytes(event) == Some(
            seq![0x1Bu8, '[' as u8, cursor_letter(event.code) as u8],
        ),
        event.code matches KeyCode::F(n) ==> (1 <= n <= 4 ==> key_bytes(event) == Some(
            seq![0x1Bu8, 'O' as u8, ('P' as int + n - 1) as u8],
        )),
        event.code == KeyCode::Enter ==> key_bytes(event) == Some(seq!['\r' as u8]),
        event.code == KeyCode::Tab ==> key_bytes(event) == Some(seq!['\t' as u8]),
        event.code == KeyCode::Backspace ==> key_bytes(event) == Some(seq![0x7Fu8]),
        event.code == KeyCode::Esc ==> key_bytes(event) == Some(seq![0x1Bu8]),
{
}

} // verus!

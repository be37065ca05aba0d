//! Global hotkeys that adjust the overlay's opacity.
use vstd::prelude::*;

verus! {

/// A hotkey event that occurred.
#[derive(Debug, Clone, Copy, PartialEq, Eq, Structural)]
pub enum HotkeyEvent {
    /// Increase opacity by 0.1
    IncreaseOpacity,
    /// Decrease opacity by 0.1
    DecreaseOpacity,
}

/// Keys that the global listener watches.
#[derive(Debug, Clone, Copy, PartialEq, Eq, Structural)]
pub enum ListenedKey {
    /// `=` (with shift, `+`)
    Equal,
    /// `-`
    Minus,
    /// The Q key
    Q,
    /// Any other key
    Other,
}

/// The hotkey event of a key press: `=`/`+` raises the opacity, `-` lowers
/// it; Shift+Q counts as `+` on layouts that put it there.
pub open spec fn hotkey_of(key: ListenedKey, shift: bool) -> Option<HotkeyEvent> {
    match key {
        ListenedKey::Equal => Some(HotkeyEvent::IncreaseOpacity),
        ListenedKey::Q => if shift {
            Some(HotkeyEvent::IncreaseOpacity)
        } else {
            None
        },
        ListenedKey::Minus => Some(HotkeyEvent::DecreaseOpacity),
        ListenedKey::Other => None,
    }
}

/// The hotkey event of a key press, if it is one.
pub fn hotkey_event(key: ListenedKey, shift: bool) -> (r: Option<HotkeyEvent>)
    ensures
        r == hotkey_of(key, shift),
{
    match key {
        ListenedKey::Equal => Some(HotkeyEvent::IncreaseOpacity),
        ListenedKey::Q => {
            if shift {
                Some(HotkeyEvent::IncreaseOpacity)
            } else {
                None
            }
        },
        ListenedKey::Minus => Some(HotkeyEvent::DecreaseOpacity),
        ListenedKey::Other => None,
    }
}

} // verus!

//! Placement and size presets of the camera modal on the terminal screen.
use vstd::prelude::*;

verus! {

/// Corner or center of the screen where the camera modal is drawn.
#[derive(Debug, Clone, Copy, PartialEq, Eq, Structural)]
pub enum ModalPosition {
    TopLeft,
    TopRight,
    BottomLeft,
    BottomRight,
    Center,
}

/// Size preset of the camera modal.
#[derive(Debug, Clone, Copy, PartialEq, Eq, Structural)]
pub enum ModalSize {
    Small,
    Medium,
    Large,
    XLarge,
    Huge,
}

} // verus!

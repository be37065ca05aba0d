//! Option values of the command line: modal position, modal size and
//! character set, with the names by which they are given.
use vstd::prelude::*;
use crate::ascii::CharSet;
use crate::terminal::{ModalPosition, ModalSize};
use crate::text::str_eq;

verus! {

/// Camera modal position on screen.
#[derive(Debug, Clone, Copy, PartialEq, Eq, Structural)]
pub enum Position {
    TopLeft,
    TopRight,
    BottomLeft,
    BottomRight,
    Center,
}

impl Default for Position {
    fn default() -> (p: Position)
        ensures
            p == Position::BottomRight,
    {
        Position::BottomRight
    }
}

/// The position a command-line value names.
pub open spec fn position_named(v: Seq<char>) -> Option<Position> {
    if v == "top-left"@ {
        Some(Position::TopLeft)
    } else if v == "top-right"@ {
        Some(Position::TopRight)
    } else if v == "bottom-left"@ {
        Some(Position::BottomLeft)
    } else if v == "bottom-right"@ {
        Some(Position::BottomRight)
    } else if v == "center"@ {
        Some(Position::Center)
    } else {
        None
    }
}

pub open spec fn modal_position_of(p: Position) -> ModalPosition {
    match p {
        Position::TopLeft => ModalPosition::TopLeft,
        Position::TopRight => ModalPosition::TopRight,
        Position::BottomLeft => ModalPosition::BottomLeft,
        Position::BottomRight => ModalPosition::BottomRight,
        Position::Center => ModalPosition::Center,
    }
}

impl Position {
    /// The position named by a command-line value (`top-left`, `top-right`,
    /// `bottom-left`, `bottom-right`, `center`).
    pub fn parse_value(v: &str) -> (r: Option<Position>)
        ensures
            r == position_named(v@),
    {
        if str_eq(v, "top-left") {
            Some(Position::TopLeft)
        } else if str_eq(v, "top-right") {
            Some(Position::TopRight)
        } else if str_eq(v, "bottom-left") {
            Some(Position::BottomLeft)
        } else if str_eq(v, "bottom-right") {
            Some(Position::BottomRight)
        } else if str_eq(v, "center") {
            Some(Position::Center)
        } else {
            None
        }
    }
}

impl From<Position> for ModalPosition {
    fn from(p: Position) -> (m: ModalPosition) {
        match p {
            Position::TopLeft => ModalPosition::TopLeft,
            Position::TopRight => ModalPosition::TopRight,
            Position::BottomLeft => ModalPosition::BottomLeft,
            Position::BottomRight => ModalPosition::BottomRight,
            Position::Center => ModalPosition::Center,
        }
    }
}

impl vstd::std_specs::convert::FromSpecImpl<Position> for ModalPosition {
    open spec fn obeys_from_spec() -> bool {
        true
    }

    open spec fn from_spec(p: Position) -> ModalPosition {
        modal_position_of(p)
    }
}

/// Camera modal size preset.
#[derive(Debug, Clone, Copy, PartialEq, Eq, Structural)]
pub enum Size {
    Small,
    Medium,
    Large,
    Xlarge,
    Huge,
}

impl Default for Size {
    fn default() -> (s: Size)
        ensures
            s == Size::Small,
    {
        Size::Small
    }
}

/// The size a command-line value names.
pub open spec fn size_named(v: Seq<char>) -> Option<Size> {
    if v == "small"@ {
        Some(Size::Small)
    } else if v == "medium"@ {
        Some(Size::Medium)
    } else if v == "large"@ {
        Some(Size::Large)
    } else if v == "xlarge"@ {
        Some(Size::Xlarge)
    } else if v == "huge"@ {
        Some(Size::Huge)
    } else {
        None
    }
}

pub open spec fn modal_size_of(s: Size) -> ModalSize {
    match s {
        Size::Small => ModalSize::Small,
        Size::Medium => ModalSize::Medium,
        Size::Large => ModalSize::Large,
        Size::Xlarge => ModalSize::XLarge,
        Size::Huge => ModalSize::Huge,
    }
}

impl Size {
    /// The size named by a command-line value (`small`, `medium`, `large`,
    /// `xlarge`, `huge`).
    pub fn parse_value(v: &str) -> (r: Option<Size>)
        ensures
            r == size_named(v@),
    {
        if str_eq(v, "small") {
            Some(Size::Small)
        } else if str_eq(v, "medium") {
            Some(Size::Medium)
        } else if str_eq(v, "large") {
            Some(Size::Large)
        } else if str_eq(v, "xlarge") {
            Some(Size::Xlarge)
        } else if str_eq(v, "huge") {
            Some(Size::Huge)
        } else {
            None
        }
    }
}

impl From<Size> for ModalSize {
    fn from(s: Size) -> (m: ModalSize) {
        match s {
            Size::Small => ModalSize::Small,
            Size::Medium => ModalSize::Medium,
            Size::Large => ModalSize::Large,
            Size::Xlarge => ModalSize::XLarge,
            Size::Huge => ModalSize::Huge,
        }
    }
}

impl vstd::std_specs::convert::FromSpecImpl<Size> for ModalSize {
    open spec fn obeys_from_spec() -> bool {
        true
    }

    open spec fn from_spec(s: Size) -> ModalSize {
        modal_size_of(s)
    }
}

/// ASCII character set for rendering.
#[derive(Debug, Clone, Copy, PartialEq, Eq, Structural)]
pub enum CharacterSet {
    Standard,
    Blocks,
    Minimal,
    Braille,
}

impl Default for CharacterSet {
    fn default() -> (c: CharacterSet)
        ensures
            c == CharacterSet::Standard,
    {
        CharacterSet::Standard
    }
}

/// The character set a command-line value names.
pub open spec fn charset_named(v: Seq<char>) -> Option<CharacterSet> {
    if v == "standard"@ {
        Some(CharacterSet::Standard)
    } else if v == "blocks"@ {
        Some(CharacterSet::Blocks)
    } else if v == "minimal"@ {
        Some(CharacterSet::Minimal)
    } else if v == "braille"@ {
        Some(CharacterSet::Braille)
    } else {
        None
    }
}

pub open spec fn render_charset_of(c: CharacterSet) -> CharSet {
    match c {
        CharacterSet::Standard => CharSet::Standard,
        CharacterSet::Blocks => CharSet::Blocks,
        CharacterSet::Minimal => CharSet::Minimal,
        CharacterSet::Braille => CharSet::Braille,
    }
}

impl CharacterSet {
    /// The character set named by a command-line value (`standard`,
    /// `blocks`, `minimal`, `braille`).
    pub fn parse_value(v: &str) -> (r: Option<CharacterSet>)
        ensures
            r == charset_named(v@),
    {
        if str_eq(v, "standard") {
            Some(CharacterSet::Standard)
        } else if str_eq(v, "blocks") {
            Some(CharacterSet::Blocks)
        } else if str_eq(v, "minimal") {
            Some(CharacterSet::Minimal)
        } else if str_eq(v, "braille") {
            Some(CharacterSet::Braille)
        } else {
            None
        }
    }
}

impl From<CharacterSet> for CharSet {
    fn from(c: CharacterSet) -> (r: CharSet) {
        match c {
            CharacterSet::Standard => CharSet::Standard,
            CharacterSet::Blocks => CharSet::Blocks,
            CharacterSet::Minimal => CharSet::Minimal,
            CharacterSet::Braille => CharSet::Braille,
        }
    }
}

impl vstd::std_specs::convert::FromSpecImpl<CharacterSet> for CharSet {
    open spec fn obeys_from_spec() -> bool {
        true
    }

    open spec fn from_spec(c: CharacterSet) -> CharSet {
        render_charset_of(c)
    }
}

/// Converting the command-line options to the modal's settings loses
/// nothing: distinct positions, sizes and character sets stay distinct.
pub proof fn option_conversions_are_injective(p: Position, q: Position, s: Size, t: Size, c: CharacterSet, d: CharacterSet)
    ensures
        modal_position_of(p) == modal_position_of(q) ==> p == q,
        modal_size_of(s) == modal_size_of(t) ==> s == t,
        render_charset_of(c) == render_charset_of(d) ==> c == d,
{
}

} // verus!

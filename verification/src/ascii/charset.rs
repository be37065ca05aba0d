use vstd::prelude::*;

verus! {

/// Standard density ramp (10 levels), from darkest (space) to brightest (`@`).
pub const STANDARD_CHARSET: [char; 10] = [' ', '.', ':', '-', '=', '+', '*', '#', '%', '@'];

/// Block character ramp (5 levels), from darkest (space) to brightest (full block).
pub const BLOCKS_CHARSET: [char; 5] = [' ', '░', '▒', '▓', '█'];

/// Minimal ramp (4 levels).
pub const MINIMAL_CHARSET: [char; 4] = [' ', '.', ':', '#'];

/// Character set used for rendering; cycled with a hotkey.
#[derive(Debug, Clone, Copy, PartialEq, Eq, Structural)]
pub enum CharSet {
    Standard,
    Blocks,
    Minimal,
    Braille,
}

pub open spec fn standard_chars() -> Seq<char> {
    seq![' ', '.', ':', '-', '=', '+', '*', '#', '%', '@']
}

pub open spec fn blocks_chars() -> Seq<char> {
    seq![' ', '░', '▒', '▓', '█']
}

pub open spec fn minimal_chars() -> Seq<char> {
    seq![' ', '.', ':', '#']
}

impl CharSet {
    /// The ramp of this character set; braille renders by another algorithm
    /// and has an empty ramp.
    pub open spec fn spec_chars(self) -> Seq<char> {
        match self {
            CharSet::Standard => standard_chars(),
            CharSet::Blocks => blocks_chars(),
            CharSet::Minimal => minimal_chars(),
            CharSet::Braille => Seq::empty(),
        }
    }

    pub fn chars(&self) -> (r: &'static [char])
        ensures
            r@ == self.spec_chars(),
    {
        match self {
            CharSet::Standard => &STANDARD_CHARSET,
            CharSet::Blocks => &BLOCKS_CHARSET,
            CharSet::Minimal => &MINIMAL_CHARSET,
            CharSet::Braille => &[],
        }
    }

    /// The character set that follows this one in the cycle
    /// Standard -> Blocks -> Minimal -> Braille -> Standard.
    pub open spec fn spec_next(self) -> CharSet {
        match self {
            CharSet::Standard => CharSet::Blocks,
            CharSet::Blocks => CharSet::Minimal,
            CharSet::Minimal => CharSet::Braille,
            CharSet::Braille => CharSet::Standard,
        }
    }

    pub fn next(&self) -> (r: CharSet)
        ensures
            r == self.spec_next(),
    {
        match self {
            CharSet::Standard => CharSet::Blocks,
            CharSet::Blocks => CharSet::Minimal,
            CharSet::Minimal => CharSet::Braille,
            CharSet::Braille => CharSet::Standard,
        }
    }

    /// Human-readable name of the character set.
    pub open spec fn spec_name(self) -> Seq<char> {
        match self {
            CharSet::Standard => "standard"@,
            CharSet::Blocks => "blocks"@,
            CharSet::Minimal => "minimal"@,
            CharSet::Braille => "braille"@,
        }
    }

    pub fn name(&self) -> (r: &'static str)
        ensures
            r@ == self.spec_name(),
    {
        match self {
            CharSet::Standard => "standard",
            CharSet::Blocks => "blocks",
            CharSet::Minimal => "minimal",
            CharSet::Braille => "braille",
        }
    }

    pub fn is_braille(&self) -> (r: bool)
        ensures
            r <==> *self == CharSet::Braille,
    {
        match self {
            CharSet::Braille => true,
            _ => false,
        }
    }
}

impl Default for CharSet {
    fn default() -> (r: CharSet)
        ensures
            r == CharSet::Standard,
    {
        CharSet::Standard
    }
}

/// Cycling with `next` returns to the starting character set after four steps,
/// and visits four distinct sets on the way.
pub proof fn next_cycles_with_period_four(c: CharSet)
    ensures
        c.spec_next().spec_next().spec_next().spec_next() == c,
        c.spec_next() != c,
        c.spec_next().spec_next() != c,
        c.spec_next().spec_next().spec_next() != c,
{
}

/// Every character set but braille has a non-empty ramp that starts with a space.
pub proof fn ramps_start_dark(c: CharSet)
    ensures
        c.spec_chars().len() == 0 <==> c == CharSet::Braille,
        c != CharSet::Braille ==> c.spec_chars()[0] == ' ',
{
}

} // verus!

//! Reading of the lines typed at the generation prompt: text to generate a
//! video from, or a slash command.
use vstd::prelude::*;
use crate::text::{chars_are, lowercase, split_words, string_from_chars, str_chars, to_lowercase, trim, trim_chars, words};

verus! {

/// What a prompt line asks for, before a command's argument is read.
#[derive(Debug, Clone, PartialEq, Eq)]
pub enum PromptLine {
    /// Generate a video from this text
    Generate(String),
    /// `/clear`: clear the overlay
    Clear,
    /// `/opacity <value>`: set the overlay's opacity to the value, once read
    Opacity(String),
    /// `/opacity` without a value
    OpacityUsage,
    /// An unknown slash command
    UnknownCommand(String),
}

/// A `PromptLine` with strings as character sequences.
pub enum PromptReading {
    Generate(Seq<char>),
    Clear,
    Opacity(Seq<char>),
    OpacityUsage,
    UnknownCommand(Seq<char>),
}

pub open spec fn reading_of(line: PromptLine) -> PromptReading {
    match line {
        PromptLine::Generate(t) => PromptReading::Generate(t@),
        PromptLine::Clear => PromptReading::Clear,
        PromptLine::Opacity(v) => PromptReading::Opacity(v@),
        PromptLine::OpacityUsage => PromptReading::OpacityUsage,
        PromptLine::UnknownCommand(c) => PromptReading::UnknownCommand(c@),
    }
}

/// The reading of a slash command from its words, the first already in
/// lowercase as `command`.
pub open spec fn command_reading(command: Seq<char>, parts: Seq<Seq<char>>) -> PromptReading {
    if command == "/clear"@ {
        PromptReading::Clear
    } else if command == "/opacity"@ {
        if parts.len() < 2 {
            PromptReading::OpacityUsage
        } else {
            PromptReading::Opacity(parts[1])
        }
    } else {
        PromptReading::UnknownCommand(parts[0])
    }
}

/// The reading of a prompt line: nothing for a blank line; a slash command
/// (its first word compared in lowercase) when the trimmed line starts
/// with `/`; otherwise the trimmed line is text to generate from.
pub open spec fn line_reading(input: Seq<char>) -> Option<PromptReading> {
    let t = trim(input);
    if t.len() == 0 {
        None
    } else if t[0] == '/' {
        Some(command_reading(lowercase(words(t)[0]), words(t)))
    } else {
        Some(PromptReading::Generate(t))
    }
}

proof fn lemma_words_start(s: Seq<char>)
    requires
        s.len() > 0,
        !crate::text::is_whitespace(s[0]),
    ensures
        words(s).len() > 0,
    decreases s.len(),
{
    if s.len() > 1 {
        assert(s.drop_last()[0] == s[0]);
        lemma_words_start(s.drop_last());
        if !crate::text::is_whitespace(s.last()) && !crate::text::is_whitespace(s[s.len() - 2]) {
            assert(words(s.drop_last()).len() > 0);
        }
    }
}

/// Read a line typed at the prompt, telling apart the lines that are no
/// command (blank lines, unknown slash commands, `/opacity` without a value).
pub fn read_prompt_line(input: &str) -> (r: Option<PromptLine>)
    ensures
        match line_reading(input@) {
            None => r is None,
            Some(x) => r matches Some(l) && reading_of(l) == x,
        },
{
    let chars = str_chars(input);
    let t = trim_chars(chars.as_slice());
    if t.len() == 0 {
        return None;
    }
    if t[0] != '/' {
        return Some(PromptLine::Generate(string_from_chars(t.as_slice())));
    }
    let parts = split_words(t.as_slice());
    proof {
        lemma_words_start(t@);
    }
    let first = string_from_chars(parts[0].as_slice());
    let lower = to_lowercase(first.as_str());
    let lc = str_chars(lower.as_str());
    if chars_are(lc.as_slice(), "/clear") {
        Some(PromptLine::Clear)
    } else if chars_are(lc.as_slice(), "/opacity") {
        if parts.len() < 2 {
            Some(PromptLine::OpacityUsage)
        } else {
            Some(PromptLine::Opacity(string_from_chars(parts[1].as_slice())))
        }
    } else {
        Some(PromptLine::UnknownCommand(first))
    }
}

/// The command of a prompt line: blank lines, unknown slash commands and
/// `/opacity` without a value give none; an `/opacity` value is handed on as
/// typed, for the caller to read as a number.
pub open spec fn command_of(input: Seq<char>) -> Option<PromptReading> {
    match line_reading(input) {
        Some(PromptReading::UnknownCommand(_)) => None,
        Some(PromptReading::OpacityUsage) => None,
        other => other,
    }
}

/// Parse a line typed at the prompt into a command, if it is one.
pub fn parse_input(input: &str) -> (r: Option<PromptLine>)
    ensures
        match command_of(input@) {
            None => r is None,
            Some(x) => r matches Some(l) && reading_of(l) == x,
        },
{
    match read_prompt_line(input) {
        Some(PromptLine::UnknownCommand(_)) => None,
        Some(PromptLine::OpacityUsage) => None,
        other => other,
    }
}

} // verus!

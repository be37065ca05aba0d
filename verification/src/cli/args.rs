//! The command-line grammar: options with their defaults, the
//! `list-cameras` and `config show|init` subcommands, and the errors that
//! reject an argument list.
use vstd::prelude::*;
use crate::cli::enums::{charset_named, position_named, size_named, CharacterSet, Position, Size};
use crate::text::{chars_are, index_of, parse_u32, parse_unsigned, str_chars, string_from_chars, find};

verus! {

/// Configuration subcommand actions.
#[derive(Debug, Clone, Copy, PartialEq, Eq, Structural)]
pub enum ConfigAction {
    /// Show current configuration
    Show,
    /// Create default config file
    Init,
}

/// Subcommands.
#[derive(Debug, Clone, Copy, PartialEq, Eq, Structural)]
pub enum Command {
    /// List available cameras
    ListCameras,
    /// Configuration management
    Config { action: ConfigAction },
}

/// Parsed command-line arguments.
#[derive(Debug)]
pub struct Args {
    /// Subcommand, if any
    pub command: Option<Command>,
    /// Shell to spawn (`-s`, `--shell`; default: $SHELL or /bin/zsh)
    pub shell: Option<String>,
    /// Camera device index (`--camera`, default 0)
    pub camera: u32,
    /// Disable camera on start (`--no-camera`)
    pub no_camera: bool,
    /// Camera position (`-p`, `--position`, default bottom-right)
    pub position: Position,
    /// Camera size (`--size`, default small)
    pub size: Size,
    /// ASCII character set (`--charset`, default blocks)
    pub charset: CharacterSet,
    /// Mirror camera horizontally (`--mirror`)
    pub mirror: bool,
    /// Invert brightness, for light terminals (`--invert`)
    pub invert: bool,
    /// Hide status bar (`--no-status`)
    pub no_status: bool,
    /// Config file path (`-c`, `--config`)
    pub config: Option<String>,
}

/// Why an argument list is not accepted. `DisplayHelp` and `DisplayVersion`
/// are requests for the usage text or the version rather than mistakes.
#[derive(Debug)]
pub enum ArgsError {
    /// `-h`, `--help` or `help` was given
    DisplayHelp,
    /// `-V` or `--version` was given
    DisplayVersion,
    /// An argument that the grammar does not know
    UnknownArgument(String),
    /// An option that takes a value was given none
    MissingValue(String),
    /// An option's value is not one it accepts
    InvalidValue { arg: String, value: String },
    /// A flag was given a value
    UnexpectedValue(String),
    /// An option was given more than once
    Repeated(String),
    /// A subcommand that needs an action was given none
    MissingSubcommand(String),
}

/// The options of the grammar.
#[derive(Debug, Clone, Copy, PartialEq, Eq, Structural)]
pub enum ArgOption {
    Shell,
    Camera,
    NoCamera,
    Position,
    Size,
    Charset,
    Mirror,
    Invert,
    NoStatus,
    Config,
}

/// What an argument list holds once parsed, with strings as character
/// sequences.
pub struct ArgsModel {
    pub command: Option<Command>,
    pub shell: Option<Seq<char>>,
    pub camera: u32,
    pub no_camera: bool,
    pub position: Position,
    pub size: Size,
    pub charset: CharacterSet,
    pub mirror: bool,
    pub invert: bool,
    pub no_status: bool,
    pub config: Option<Seq<char>>,
}

/// An `ArgsError` with strings as character sequences.
pub enum ArgsErrorModel {
    DisplayHelp,
    DisplayVersion,
    UnknownArgument(Seq<char>),
    MissingValue(Seq<char>),
    InvalidValue(Seq<char>, Seq<char>),
    UnexpectedValue(Seq<char>),
    Repeated(Seq<char>),
    MissingSubcommand(Seq<char>),
}

pub open spec fn opt_text(s: Option<String>) -> Option<Seq<char>> {
    match s {
        Some(t) => Some(t@),
        None => None,
    }
}

impl Args {
    pub open spec fn model(&self) -> ArgsModel {
        ArgsModel {
            command: self.command,
            shell: opt_text(self.shell),
            camera: self.camera,
            no_camera: self.no_camera,
            position: self.position,
            size: self.size,
            charset: self.charset,
            mirror: self.mirror,
            invert: self.invert,
            no_status: self.no_status,
            config: opt_text(self.config),
        }
    }
}

impl ArgsError {
    pub open spec fn model(&self) -> ArgsErrorModel {
        match self {
            ArgsError::DisplayHelp => ArgsErrorModel::DisplayHelp,
            ArgsError::DisplayVersion => ArgsErrorModel::DisplayVersion,
            ArgsError::UnknownArgument(a) => ArgsErrorModel::UnknownArgument(a@),
            ArgsError::MissingValue(a) => ArgsErrorModel::MissingValue(a@),
            ArgsError::InvalidValue { arg, value } => ArgsErrorModel::InvalidValue(arg@, value@),
            ArgsError::UnexpectedValue(a) => ArgsErrorModel::UnexpectedValue(a@),
            ArgsError::Repeated(a) => ArgsErrorModel::Repeated(a@),
            ArgsError::MissingSubcommand(a) => ArgsErrorModel::MissingSubcommand(a@),
        }
    }
}

pub open spec fn result_model(r: Result<Args, ArgsError>) -> Result<ArgsModel, ArgsErrorModel> {
    match r {
        Ok(a) => Ok(a.model()),
        Err(e) => Err(e.model()),
    }
}

/// The arguments as character sequences.
pub open spec fn argv_text(argv: Seq<&str>) -> Seq<Seq<char>> {
    argv.map_values(|t: &str| t@)
}

/// The character sequences of the arguments.
pub open spec fn tokens_text(v: Seq<Vec<char>>) -> Seq<Seq<char>> {
    v.map_values(|t: Vec<char>| t@)
}

/// Values of every option that is not given.
pub open spec fn default_args() -> ArgsModel {
    ArgsModel {
        command: None,
        shell: None,
        camera: 0,
        no_camera: false,
        position: Position::BottomRight,
        size: Size::Small,
        charset: CharacterSet::Blocks,
        mirror: false,
        invert: false,
        no_status: false,
        config: None,
    }
}

/// The option a long name (without the leading `--`) names.
pub open spec fn long_option(name: Seq<char>) -> Option<ArgOption> {
    if name == "shell"@ {
        Some(ArgOption::Shell)
    } else if name == "camera"@ {
        Some(ArgOption::Camera)
    } else if name == "no-camera"@ {
        Some(ArgOption::NoCamera)
    } else if name == "position"@ {
        Some(ArgOption::Position)
    } else if name == "size"@ {
        Some(ArgOption::Size)
    } else if name == "charset"@ {
        Some(ArgOption::Charset)
    } else if name == "mirror"@ {
        Some(ArgOption::Mirror)
    } else if name == "invert"@ {
        Some(ArgOption::Invert)
    } else if name == "no-status"@ {
        Some(ArgOption::NoStatus)
    } else if name == "config"@ {
        Some(ArgOption::Config)
    } else {
        None
    }
}

/// The option a short name names: `-s`, `-p`, `-c`.
pub open spec fn short_option(c: char) -> Option<ArgOption> {
    if c == 's' {
        Some(ArgOption::Shell)
    } else if c == 'p' {
        Some(ArgOption::Position)
    } else if c == 'c' {
        Some(ArgOption::Config)
    } else {
        None
    }
}

pub open spec fn option_index(o: ArgOption) -> int {
    match o {
        ArgOption::Shell => 0,
        ArgOption::Camera => 1,
        ArgOption::NoCamera => 2,
        ArgOption::Position => 3,
        ArgOption::Size => 4,
        ArgOption::Charset => 5,
        ArgOption::Mirror => 6,
        ArgOption::Invert => 7,
        ArgOption::NoStatus => 8,
        ArgOption::Config => 9,
    }
}

/// Whether the option takes a value (the others are flags).
pub open spec fn takes_value(o: ArgOption) -> bool {
    match o {
        ArgOption::NoCamera | ArgOption::Mirror | ArgOption::Invert | ArgOption::NoStatus => false,
        _ => true,
    }
}

/// How an option is named in messages.
pub open spec fn option_display(o: ArgOption) -> Seq<char> {
    match o {
        ArgOption::Shell => "--shell"@,
        ArgOption::Camera => "--camera"@,
        ArgOption::NoCamera => "--no-camera"@,
        ArgOption::Position => "--position"@,
        ArgOption::Size => "--size"@,
        ArgOption::Charset => "--charset"@,
        ArgOption::Mirror => "--mirror"@,
        ArgOption::Invert => "--invert"@,
        ArgOption::NoStatus => "--no-status"@,
        ArgOption::Config => "--config"@,
    }
}

/// The option that an argument names, with the value attached to it:
/// `--name` or `--name=value`; `-x`, `-xvalue` or `-x=value`.
pub open spec fn token_option(t: Seq<char>) -> Option<(ArgOption, Option<Seq<char>>)> {
    if t.len() >= 2 && t[0] == '-' && t[1] == '-' {
        let body = t.skip(2);
        let eq = index_of(body, seq!['=']);
        let name = if eq < 0 { body } else { body.take(eq) };
        match long_option(name) {
            None => None,
            Some(o) => Some((o, if eq < 0 { None } else { Some(body.skip(eq + 1)) })),
        }
    } else if t.len() >= 2 && t[0] == '-' {
        match short_option(t[1]) {
            None => None,
            Some(o) => {
                let rest = t.skip(2);
                Some(
                    (
                        o,
                        if rest.len() == 0 {
                            None
                        } else if rest[0] == '=' {
                            Some(rest.skip(1))
                        } else {
                            Some(rest)
                        },
                    ),
                )
            },
        }
    } else {
        None
    }
}

/// The arguments with the value `v` given to the value-taking option `o`.
pub open spec fn with_value(a: ArgsModel, o: ArgOption, v: Seq<char>) -> Result<ArgsModel, ArgsErrorModel> {
    let bad = ArgsErrorModel::InvalidValue(option_display(o), v);
    match o {
        ArgOption::Shell => Ok(ArgsModel { shell: Some(v), ..a }),
        ArgOption::Config => Ok(ArgsModel { config: Some(v), ..a }),
        ArgOption::Camera => match parse_unsigned(v, u32::MAX as int) {
            Some(n) => Ok(ArgsModel { camera: n as u32, ..a }),
            None => Err(bad),
        },
        ArgOption::Position => match position_named(v) {
            Some(p) => Ok(ArgsModel { position: p, ..a }),
            None => Err(bad),
        },
        ArgOption::Size => match size_named(v) {
            Some(s) => Ok(ArgsModel { size: s, ..a }),
            None => Err(bad),
        },
        ArgOption::Charset => match charset_named(v) {
            Some(c) => Ok(ArgsModel { charset: c, ..a }),
            None => Err(bad),
        },
        _ => Ok(a),
    }
}

/// The arguments with the flag `o` set.
pub open spec fn with_flag(a: ArgsModel, o: ArgOption) -> ArgsModel {
    match o {
        ArgOption::NoCamera => ArgsModel { no_camera: true, ..a },
        ArgOption::Mirror => ArgsModel { mirror: true, ..a },
        ArgOption::Invert => ArgsModel { invert: true, ..a },
        ArgOption::NoStatus => ArgsModel { no_status: true, ..a },
        _ => a,
    }
}

pub open spec fn is_help(t: Seq<char>) -> bool {
    t == "--help"@ || t == "-h"@
}

pub open spec fn is_version(t: Seq<char>) -> bool {
    t == "--version"@ || t == "-V"@
}

/// An argument that starts a new option rather than giving a value.
pub open spec fn looks_like_flag(t: Seq<char>) -> bool {
    t.len() > 1 && t[0] == '-'
}

/// The end of a subcommand's arguments: nothing may follow but a request
/// for help.
pub open spec fn finish_subcommand(toks: Seq<Seq<char>>, i: int, a: ArgsModel) -> Result<
    ArgsModel,
    ArgsErrorModel,
> {
    if i >= toks.len() {
        Ok(a)
    } else if is_help(toks[i]) {
        Err(ArgsErrorModel::DisplayHelp)
    } else {
        Err(ArgsErrorModel::UnknownArgument(toks[i]))
    }
}

/// The result of reading the arguments from position `i` on, with the
/// options read so far in `a` and the ones already given marked in `seen`.
pub open spec fn parse_tokens(toks: Seq<Seq<char>>, i: int, a: ArgsModel, seen: Seq<bool>) -> Result<
    ArgsModel,
    ArgsErrorModel,
>
    decreases toks.len() - i,
{
    if i < 0 || i >= toks.len() {
        Ok(a)
    } else {
        let t = toks[i];
        if is_help(t) || t == "help"@ {
            Err(ArgsErrorModel::DisplayHelp)
        } else if is_version(t) {
            Err(ArgsErrorModel::DisplayVersion)
        } else if t == "list-cameras"@ {
            finish_subcommand(toks, i + 1, ArgsModel { command: Some(Command::ListCameras), ..a })
        } else if t == "config"@ {
            if i + 1 >= toks.len() {
                Err(ArgsErrorModel::MissingSubcommand("config"@))
            } else {
                let u = toks[i + 1];
                if is_help(u) || u == "help"@ {
                    Err(ArgsErrorModel::DisplayHelp)
                } else if u == "show"@ {
                    finish_subcommand(
                        toks,
                        i + 2,
                        ArgsModel { command: Some(Command::Config { action: ConfigAction::Show }), ..a },
                    )
                } else if u == "init"@ {
                    finish_subcommand(
                        toks,
                        i + 2,
                        ArgsModel { command: Some(Command::Config { action: ConfigAction::Init }), ..a },
                    )
                } else {
                    Err(ArgsErrorModel::UnknownArgument(u))
                }
            }
        } else if t == "--"@ {
            if i + 1 < toks.len() {
                Err(ArgsErrorModel::UnknownArgument(toks[i + 1]))
            } else {
                Ok(a)
            }
        } else {
            match token_option(t) {
                None => Err(ArgsErrorModel::UnknownArgument(t)),
                Some((o, attached)) => {
                    let k = option_index(o);
                    if seen[k] {
                        Err(ArgsErrorModel::Repeated(option_display(o)))
                    } else if takes_value(o) {
                        match attached {
                            Some(v) => match with_value(a, o, v) {
                                Ok(b) => parse_tokens(toks, i + 1, b, seen.update(k, true)),
                                Err(e) => Err(e),
                            },
                            None => if i + 1 < toks.len() && !looks_like_flag(toks[i + 1]) {
                                match with_value(a, o, toks[i + 1]) {
                                    Ok(b) => parse_tokens(toks, i + 2, b, seen.update(k, true)),
                                    Err(e) => Err(e),
                                }
                            } else {
                                Err(ArgsErrorModel::MissingValue(option_display(o)))
                            },
                        }
                    } else {
                        match attached {
                            Some(_) => Err(ArgsErrorModel::UnexpectedValue(option_display(o))),
                            None => parse_tokens(toks, i + 1, with_flag(a, o), seen.update(k, true)),
                        }
                    }
                },
            }
        }
    }
}

/// The result of parsing a whole argument list; the first argument is the
/// program's name.
pub open spec fn parse_args(argv: Seq<Seq<char>>) -> Result<ArgsModel, ArgsErrorModel> {
    parse_tokens(argv, 1, default_args(), Seq::new(10, |k: int| false))
}

fn option_slot(o: ArgOption) -> (k: usize)
    ensures
        k == option_index(o),
{
    match o {
        ArgOption::Shell => 0,
        ArgOption::Camera => 1,
        ArgOption::NoCamera => 2,
        ArgOption::Position => 3,
        ArgOption::Size => 4,
        ArgOption::Charset => 5,
        ArgOption::Mirror => 6,
        ArgOption::Invert => 7,
        ArgOption::NoStatus => 8,
        ArgOption::Config => 9,
    }
}

fn option_is_flag(o: ArgOption) -> (b: bool)
    ensures
        b == !takes_value(o),
{
    match o {
        ArgOption::NoCamera | ArgOption::Mirror | ArgOption::Invert | ArgOption::NoStatus => true,
        _ => false,
    }
}

fn option_name(o: ArgOption) -> (s: String)
    ensures
        s@ == option_display(o),
{
    let t = match o {
        ArgOption::Shell => "--shell",
        ArgOption::Camera => "--camera",
        ArgOption::NoCamera => "--no-camera",
        ArgOption::Position => "--position",
        ArgOption::Size => "--size",
        ArgOption::Charset => "--charset",
        ArgOption::Mirror => "--mirror",
        ArgOption::Invert => "--invert",
        ArgOption::NoStatus => "--no-status",
        ArgOption::Config => "--config",
    };
    String::from_str(t)
}

fn long_option_named(name: &[char]) -> (r: Option<ArgOption>)
    ensures
        r == long_option(name@),
{
    if chars_are(name, "shell") {
        Some(ArgOption::Shell)
    } else if chars_are(name, "camera") {
        Some(ArgOption::Camera)
    } else if chars_are(name, "no-camera") {
        Some(ArgOption::NoCamera)
    } else if chars_are(name, "position") {
        Some(ArgOption::Position)
    } else if chars_are(name, "size") {
        Some(ArgOption::Size)
    } else if chars_are(name, "charset") {
        Some(ArgOption::Charset)
    } else if chars_are(name, "mirror") {
        Some(ArgOption::Mirror)
    } else if chars_are(name, "invert") {
        Some(ArgOption::Invert)
    } else if chars_are(name, "no-status") {
        Some(ArgOption::NoStatus)
    } else if chars_are(name, "config") {
        Some(ArgOption::Config)
    } else {
        None
    }
}

fn short_option_named(c: char) -> (r: Option<ArgOption>)
    ensures
        r == short_option(c),
{
    if c == 's' {
        Some(ArgOption::Shell)
    } else if c == 'p' {
        Some(ArgOption::Position)
    } else if c == 'c' {
        Some(ArgOption::Config)
    } else {
        None
    }
}

/// The option an argument names and the value attached to it.
fn option_of(t: &[char]) -> (r: Option<(ArgOption, Option<Vec<char>>)>)
    ensures
        match token_option(t@) {
            None => r is None,
            Some((o, attached)) => r matches Some((p, w)) && p == o && match attached {
                None => w is None,
                Some(v) => w matches Some(x) && x@ == v,
            },
        },
{
    let n = t.len();
    if n >= 2 && t[0] == '-' && t[1] == '-' {
        let body = vstd::slice::slice_subrange(t, 2, n);
        assert(body@ =~= t@.skip(2));
        match find(body, &['=']) {
            None => {
                assert(seq!['='] =~= ['=']@);
                match long_option_named(body) {
                    None => None,
                    Some(o) => Some((o, None)),
                }
            },
            Some(eq) => {
                assert(seq!['='] =~= ['=']@);
                let name = vstd::slice::slice_subrange(body, 0, eq);
                let value = vstd::slice::slice_subrange(body, eq + 1, body.len());
                assert(name@ =~= body@.take(eq as int));
                assert(value@ =~= body@.skip(eq + 1));
                match long_option_named(name) {
                    None => None,
                    Some(o) => Some((o, Some(vstd::slice::slice_to_vec(value)))),
                }
            },
        }
    } else if n >= 2 && t[0] == '-' {
        match short_option_named(t[1]) {
            None => None,
            Some(o) => {
                if n == 2 {
                    Some((o, None))
                } else if t[2] == '=' {
                    let value = vstd::slice::slice_subrange(t, 3, n);
                    assert(value@ =~= t@.skip(2).skip(1));
                    Some((o, Some(vstd::slice::slice_to_vec(value))))
                } else {
                    let value = vstd::slice::slice_subrange(t, 2, n);
                    assert(value@ =~= t@.skip(2));
                    Some((o, Some(vstd::slice::slice_to_vec(value))))
                }
            },
        }
    } else {
        None
    }
}

/// Gives the value `v` to the value-taking option `o`.
fn apply_value(a: &mut Args, o: ArgOption, v: &[char]) -> (r: Result<(), ArgsError>)
    requires
        takes_value(o),
    ensures
        match with_value(old(a).model(), o, v@) {
            Ok(m) => r is Ok && final(a).model() == m,
            Err(e) => r matches Err(x) && x.model() == e,
        },
{
    let text = string_from_chars(v);
    match o {
        ArgOption::Shell => {
            a.shell = Some(text);
            Ok(())
        },
        ArgOption::Config => {
            a.config = Some(text);
            Ok(())
        },
        ArgOption::Camera => match parse_u32(v) {
            Some(n) => {
                a.camera = n;
                Ok(())
            },
            None => Err(ArgsError::InvalidValue { arg: option_name(o), value: text }),
        },
        ArgOption::Position => match Position::parse_value(text.as_str()) {
            Some(p) => {
                a.position = p;
                Ok(())
            },
            None => Err(ArgsError::InvalidValue { arg: option_name(o), value: text }),
        },
        ArgOption::Size => match Size::parse_value(text.as_str()) {
            Some(s) => {
                a.size = s;
                Ok(())
            },
            None => Err(ArgsError::InvalidValue { arg: option_name(o), value: text }),
        },
        ArgOption::Charset => match CharacterSet::parse_value(text.as_str()) {
            Some(c) => {
                a.charset = c;
                Ok(())
            },
            None => Err(ArgsError::InvalidValue { arg: option_name(o), value: text }),
        },
        _ => Ok(()),
    }
}

/// Sets the flag `o`.
fn apply_flag(a: &mut Args, o: ArgOption)
    ensures
        final(a).model() == with_flag(old(a).model(), o),
{
    match o {
        ArgOption::NoCamera => a.no_camera = true,
        ArgOption::Mirror => a.mirror = true,
        ArgOption::Invert => a.invert = true,
        ArgOption::NoStatus => a.no_status = true,
        _ => {},
    }
}

/// Reads what follows a subcommand: nothing, or a request for help.
fn finish(toks: &Vec<Vec<char>>, i: usize, a: Args) -> (r: Result<Args, ArgsError>)
    ensures
        result_model(r) == finish_subcommand(tokens_text(toks@), i as int, a.model()),
{
    let ghost tv = tokens_text(toks@);
    if i >= toks.len() {
        Ok(a)
    } else if chars_are(toks[i].as_slice(), "--help") || chars_are(toks[i].as_slice(), "-h") {
        Err(ArgsError::DisplayHelp)
    } else {
        Err(ArgsError::UnknownArgument(string_from_chars(toks[i].as_slice())))
    }
}

/// Whether an argument is one of the words that the grammar reads before
/// options: a request for help or the version, a subcommand, or `--`.
pub open spec fn is_keyword(t: Seq<char>) -> bool {
    is_help(t) || t == "help"@ || is_version(t) || t == "list-cameras"@ || t == "config"@ || t == "--"@
}

/// Reads the option at position `i`, with its value; returns the position
/// after them.
fn read_option(toks: &Vec<Vec<char>>, i: usize, a: &mut Args, seen: &mut Vec<bool>) -> (r: Result<usize, ArgsError>)
    requires
        i < toks@.len(),
        old(seen)@.len() == 10,
        !is_keyword(toks@[i as int]@),
    ensures
        final(seen)@.len() == 10,
        match r {
            Ok(j) => i < j <= toks@.len() && parse_tokens(
                tokens_text(toks@),
                i as int,
                old(a).model(),
                old(seen)@,
            ) == parse_tokens(tokens_text(toks@), j as int, final(a).model(), final(seen)@),
            Err(e) => parse_tokens(tokens_text(toks@), i as int, old(a).model(), old(seen)@)
                == Err::<ArgsModel, ArgsErrorModel>(e.model()),
        },
{
    let ghost tv = tokens_text(toks@);
    let n = toks.len();
    let t = toks[i].as_slice();
    assert(t@ == tv[i as int]);
    match option_of(t) {
        None => Err(ArgsError::UnknownArgument(string_from_chars(t))),
        Some((o, attached)) => {
            let k = option_slot(o);
            if seen[k] {
                return Err(ArgsError::Repeated(option_name(o)));
            }
            if option_is_flag(o) {
                if attached.is_some() {
                    return Err(ArgsError::UnexpectedValue(option_name(o)));
                }
                apply_flag(a, o);
                seen.set(k, true);
                Ok(i + 1)
            } else {
                match attached {
                    Some(v) => {
                        match apply_value(a, o, v.as_slice()) {
                            Ok(()) => {},
                            Err(e) => {
                                return Err(e);
                            },
                        }
                        seen.set(k, true);
                        Ok(i + 1)
                    },
                    None => {
                        if i + 1 < n && !(toks[i + 1].len() > 1 && toks[i + 1][0] == '-') {
                            assert(toks[i + 1 as int]@ == tv[i + 1]);
                            match apply_value(a, o, toks[i + 1].as_slice()) {
                                Ok(()) => {},
                                Err(e) => {
                                    return Err(e);
                                },
                            }
                            seen.set(k, true);
                            Ok(i + 2)
                        } else {
                            Err(ArgsError::MissingValue(option_name(o)))
                        }
                    },
                }
            }
        },
    }
}

impl Args {
    /// The arguments when no option is given.
    pub fn defaults() -> (a: Args)
        ensures
            a.model() == default_args(),
    {
        Args {
            command: None,
            shell: None,
            camera: 0,
            no_camera: false,
            position: Position::BottomRight,
            size: Size::Small,
            charset: CharacterSet::Blocks,
            mirror: false,
            invert: false,
            no_status: false,
            config: None,
        }
    }

    /// Parse an argument list (the program's name first); the error says
    /// which argument was not accepted, or that help or the version was
    /// asked for.
    pub fn try_parse_from(argv: &[&str]) -> (r: Result<Args, ArgsError>)
        ensures
            result_model(r) == parse_args(argv_text(argv@)),
    {
        let mut toks: Vec<Vec<char>> = Vec::new();
        let mut j: usize = 0;
        while j < argv.len()
            invariant
                j <= argv@.len(),
                toks@.len() == j,
                tokens_text(toks@) =~= argv_text(argv@).take(j as int),
            decreases argv@.len() - j,
        {
            let chars = str_chars(argv[j]);
            assert(chars@ == argv_text(argv@)[j as int]);
            let ghost before = toks@;
            toks.push(chars);
            assert forall|k: int| 0 <= k < j + 1 implies #[trigger] toks@[k]@ == argv_text(argv@)[k] by {
                if k < j {
                    assert(tokens_text(before)[k] == argv_text(argv@).take(j as int)[k]);
                }
            }
            assert(tokens_text(toks@) =~= argv_text(argv@).take(j + 1));
            j = j + 1;
        }
        let ghost tv = tokens_text(toks@);
        assert(tv =~= argv_text(argv@));
        let n = toks.len();
        let mut a = Args::defaults();
        let mut seen: Vec<bool> = Vec::new();
        while seen.len() < 10
            invariant
                seen@.len() <= 10,
                forall|k: int| 0 <= k < seen@.len() ==> !seen@[k],
            decreases 10 - seen@.len(),
        {
            seen.push(false);
        }
        assert(seen@ =~= Seq::new(10, |k: int| false));
        let mut i: usize = 1;
        while i < n
            invariant
                n == toks@.len(),
                tv == tokens_text(toks@),
                tv == argv_text(argv@),
                seen@.len() == 10,
                parse_args(tv) == parse_tokens(tv, i as int, a.model(), seen@),
            decreases n - i,
        {
            let t = toks[i].as_slice();
            assert(t@ == tv[i as int]);
            if chars_are(t, "--help") || chars_are(t, "-h") || chars_are(t, "help") {
                return Err(ArgsError::DisplayHelp);
            } else if chars_are(t, "--version") || chars_are(t, "-V") {
                return Err(ArgsError::DisplayVersion);
            } else if chars_are(t, "list-cameras") {
                a.command = Some(Command::ListCameras);
                return finish(&toks, i + 1, a);
            } else if chars_are(t, "config") {
                if i + 1 >= n {
                    return Err(ArgsError::MissingSubcommand(String::from_str("config")));
                }
                let u = toks[i + 1].as_slice();
                assert(u@ == tv[i + 1]);
                if chars_are(u, "--help") || chars_are(u, "-h") || chars_are(u, "help") {
                    return Err(ArgsError::DisplayHelp);
                } else if chars_are(u, "show") {
                    a.command = Some(Command::Config { action: ConfigAction::Show });
                    return finish(&toks, i + 2, a);
                } else if chars_are(u, "init") {
                    a.command = Some(Command::Config { action: ConfigAction::Init });
                    return finish(&toks, i + 2, a);
                } else {
                    return Err(ArgsError::UnknownArgument(string_from_chars(u)));
                }
            } else if chars_are(t, "--") {
                if i + 1 < n {
                    assert(toks[i + 1 as int]@ == tv[i + 1]);
                    return Err(ArgsError::UnknownArgument(string_from_chars(toks[i + 1].as_slice())));
                }
                return Ok(a);
            }
            match read_option(&toks, i, &mut a, &mut seen) {
                Ok(next) => {
                    i = next;
                },
                Err(e) => {
                    return Err(e);
                },
            }
        }
        Ok(a)
    }

    /// Parse an argument list that the grammar accepts (the program's name
    /// first).
    pub fn parse_from(argv: &[&str]) -> (a: Args)
        requires
            parse_args(argv_text(argv@)) is Ok,
        ensures
            parse_args(argv_text(argv@)) == Ok::<ArgsModel, ArgsErrorModel>(a.model()),
    {
        match Args::try_parse_from(argv) {
            Ok(a) => a,
            Err(_) => vstd::pervasive::unreached(),
        }
    }
}

} // verus!

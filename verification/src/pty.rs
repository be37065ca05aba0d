//! Pseudo-terminal settings: the terminal size handed to the PTY, the
//! errors of PTY operations, and the choice of the shell to spawn.
use vstd::prelude::*;
use crate::text::push_str;

verus! {

/// Terminal size configuration.
#[derive(Debug, Clone, Copy, PartialEq, Eq, Structural)]
pub struct PtySize {
    pub rows: u16,
    pub cols: u16,
    pub pixel_width: u16,
    pub pixel_height: u16,
}

impl Default for PtySize {
    fn default() -> (s: PtySize)
        ensures
            s.rows == 24,
            s.cols == 80,
            s.pixel_width == 0,
            s.pixel_height == 0,
    {
        PtySize { rows: 24, cols: 80, pixel_width: 0, pixel_height: 0 }
    }
}

/// Errors of PTY operations, each with the underlying error's message.
#[derive(Debug)]
pub enum PtyError {
    /// Failed to create PTY pair
    PtyCreationFailed(String),
    /// Failed to spawn shell
    SpawnFailed(String),
    /// Failed to get reader from PTY
    ReaderFailed(String),
    /// Failed to get writer from PTY
    WriterFailed(String),
    /// PTY I/O error
    IoError(String),
    /// Failed to resize PTY
    ResizeFailed(String),
}

pub open spec fn pty_message(e: PtyError) -> Seq<char> {
    match e {
        PtyError::PtyCreationFailed(m) => "Failed to create PTY: "@ + m@,
        PtyError::SpawnFailed(m) => "Failed to spawn shell: "@ + m@,
        PtyError::ReaderFailed(m) => "Failed to get PTY reader: "@ + m@,
        PtyError::WriterFailed(m) => "Failed to get PTY writer: "@ + m@,
        PtyError::IoError(m) => "PTY I/O error: "@ + m@,
        PtyError::ResizeFailed(m) => "Failed to resize PTY: "@ + m@,
    }
}

impl PtyError {
    /// The user-facing message of this error.
    pub fn to_string(&self) -> (r: String)
        ensures
            r@ == pty_message(*self),
    {
        let mut s = String::new();
        let m = match self {
            PtyError::PtyCreationFailed(m) => {
                push_str(&mut s, "Failed to create PTY: ");
                m
            },
            PtyError::SpawnFailed(m) => {
                push_str(&mut s, "Failed to spawn shell: ");
                m
            },
            PtyError::ReaderFailed(m) => {
                push_str(&mut s, "Failed to get PTY reader: ");
                m
            },
            PtyError::WriterFailed(m) => {
                push_str(&mut s, "Failed to get PTY writer: ");
                m
            },
            PtyError::IoError(m) => {
                push_str(&mut s, "PTY I/O error: ");
                m
            },
            PtyError::ResizeFailed(m) => {
                push_str(&mut s, "Failed to resize PTY: ");
                m
            },
        };
        push_str(&mut s, m.as_str());
        s
    }
}

/// The shell chosen from the `--shell` argument and the `SHELL` variable of
/// the environment: the argument first, then the variable, then `/bin/zsh`.
pub open spec fn chosen_shell(cli_shell: Option<Seq<char>>, env_shell: Option<Seq<char>>) -> Seq<char> {
    match cli_shell {
        Some(s) => s,
        None => match env_shell {
            Some(s) => s,
            None => "/bin/zsh"@,
        },
    }
}

pub open spec fn opt_str(s: Option<&str>) -> Option<Seq<char>> {
    match s {
        Some(t) => Some(t@),
        None => None,
    }
}

/// Select the shell to spawn: the `--shell` argument if given, else the
/// `SHELL` variable of the environment if set, else `/bin/zsh`.
pub fn select_shell(cli_shell: Option<&str>, env_shell: Option<&str>) -> (r: String)
    ensures
        r@ == chosen_shell(opt_str(cli_shell), opt_str(env_shell)),
{
    match cli_shell {
        Some(s) => String::from_str(s),
        None => match env_shell {
            Some(s) => String::from_str(s),
            None => String::from_str("/bin/zsh"),
        },
    }
}

/// The shell to spawn when none is asked for: the `SHELL` variable of the
/// environment if set, else `/bin/zsh`.
pub fn default_shell(env_shell: Option<&str>) -> (r: String)
    ensures
        r@ == chosen_shell(None, opt_str(env_shell)),
{
    select_shell(None, env_shell)
}

} // verus!

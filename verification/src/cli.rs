//! Command-line interface: the option values and the argument grammar.
pub mod args;
pub mod commands;
pub mod enums;

pub use args::{Args, ArgsError, Command, ConfigAction};
pub use enums::{CharacterSet, Position, Size};

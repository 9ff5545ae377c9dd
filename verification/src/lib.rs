//! Verified core of a `cat`-style line concatenator.
//!
//! The library turns a sequence of input lines into the text that the tool
//! prints: every line followed by a newline, optionally prefixed with a
//! right-aligned line number and a tab.  Two flags control the numbering:
//! `number` numbers every line, `number_nonblank` numbers only nonblank
//! lines (blank lines then leave the counter untouched).  The counter
//! restarts at every input boundary.
//!
//! The command-line grammar lives here too: [`config::get_args`] builds a
//! [`config::Config`] from the raw argument tokens.  Opening files, reading
//! standard input and printing are left to the thin binary around the
//! library.

pub mod config;
pub mod diag;
pub mod laws;
pub mod numeral;
pub mod render;

pub use config::get_args;
pub use config::Config;
pub use config::ConfigError;
pub use render::format_output;
pub use render::process_all;
pub use render::process_input;
pub use render::process_line;

//! A shell prompt in one line: styled segments for the working directory,
//! the repository it lies in and the Nix shell around it.
//!
//! - [`color`] and [`style`]: text wrapped in styles, rendered as control
//!   sequences around the text.
//! - [`git`] and [`resolve`]: the search for the enclosing repository and
//!   what it has checked out, one step per answer of the file system.
//! - [`cwd`] and [`nix`]: the segments for the working directory and the
//!   Nix shell.
//! - [`prompt`] and [`error`]: the line itself, and the report of the
//!   segments that are missing.
//! - [`text`]: the operations on text that the rules are built from.
//!
//! Nothing here reads the environment or the file system: the caller hands
//! in what it has read.

pub mod color;
pub mod text;
pub mod style;
pub mod git;
pub mod resolve;
pub mod cwd;
pub mod nix;
pub mod error;
pub mod prompt;

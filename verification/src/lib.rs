//! A fixed-width, single-line text editor for terminal prompts.
//!
//! The editor keeps a short buffer of characters, takes one key at a time, and hands the
//! buffer out as a line when the newline key arrives. Around it stand the row that shows the
//! buffer on the terminal, the reaction of the prompt to a finished line, and the banner
//! that names the host.

use vstd::prelude::*;

pub mod command;
pub mod editor;
pub mod host;
pub mod laws;
pub mod screen;
pub mod text;

verus! {

/// Number of columns of the terminal row that the editor draws on.
pub const SCREEN_WIDTH: usize = 80;

/// Largest number of characters that the line buffer holds: the row less the two columns
/// of the prompt marker and the one of the cursor.
pub const MAX_LINE_LEN: usize = SCREEN_WIDTH - 3;

/// The key that erases the last character of the buffer.
pub const BACKSPACE: char = '\u{8}';

/// The key that ends a line.
pub const NEWLINE: char = '\n';

} // verus!

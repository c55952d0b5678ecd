//! What the prompt writes on the terminal: rows of fixed width, drawn over one another.

use vstd::prelude::*;
use crate::text::pad_to;
use crate::text::padded;
use crate::MAX_LINE_LEN;
use crate::SCREEN_WIDTH;

verus! {

/// The character that takes the terminal back to the first column of the row, so that the
/// next row is drawn over the last one.
pub const CARRIAGE_RETURN: char = '\r';

/// The glyph that marks where the next character will go.
pub const CURSOR: char = '_';

/// The marker that every prompt row starts with.
pub open spec fn prompt_marker() -> Seq<char> {
    seq!['>', ' ']
}

/// The buffer as it is shown: with the cursor glyph behind it when the cursor is on.
pub open spec fn shown(buffer: Seq<char>, cursor: bool) -> Seq<char> {
    if cursor {
        buffer.push(CURSOR)
    } else {
        buffer
    }
}

/// The columns of the prompt row: the marker, then the buffer and the cursor, left-justified
/// in the rest of the row.
pub open spec fn prompt_row(buffer: Seq<char>, cursor: bool) -> Seq<char> {
    prompt_marker() + padded(shown(buffer, cursor), (SCREEN_WIDTH - 2) as nat)
}

/// What a redraw writes: a carriage return and the prompt row.
pub open spec fn redraw_text(buffer: Seq<char>, cursor: bool) -> Seq<char> {
    seq![CARRIAGE_RETURN] + prompt_row(buffer, cursor)
}

/// What is written for a finished line: a carriage return and the line, left-justified in a
/// row of its own.
pub open spec fn echo_text(line: Seq<char>) -> Seq<char> {
    seq![CARRIAGE_RETURN] + padded(line, SCREEN_WIDTH as nat)
}

/// The text that draws the prompt row for `line` over the row drawn before. With a line of
/// at most `MAX_LINE_LEN` characters the text is one carriage return and `SCREEN_WIDTH`
/// columns, neither more nor less, whether the cursor is on or off.
pub fn redraw(line: &str, cursor: bool) -> (out: String)
    ensures
        out@ == redraw_text(line@, cursor),
        line@.len() <= MAX_LINE_LEN ==> out@.len() == SCREEN_WIDTH + 1,
{
    let mut field = line.to_owned();
    if cursor {
        field.push(CURSOR);
    }
    pad_to(&mut field, SCREEN_WIDTH - 2);
    let mut out = String::new();
    out.push(CARRIAGE_RETURN);
    out.push('>');
    out.push(' ');
    out.append(field.as_str());
    out
}

/// The text that shows a finished line in a row of its own, drawn over the prompt row. With
/// a line of at most `SCREEN_WIDTH` characters the text is one carriage return and
/// `SCREEN_WIDTH` columns.
pub fn echo(line: &str) -> (out: String)
    ensures
        out@ == echo_text(line@),
        line@.len() <= SCREEN_WIDTH ==> out@.len() == SCREEN_WIDTH + 1,
{
    let mut out = String::new();
    out.push(CARRIAGE_RETURN);
    out.append(line);
    pad_to(&mut out, SCREEN_WIDTH + 1);
    out
}

/// Whether the cursor glyph is drawn in redraw number `cycle` of a cursor that blinks with
/// the given period, counted in redraws: the glyph is on through the first half of each
/// period and off through the rest. A period of zero is a cursor that does not blink.
pub open spec fn cursor_shown(cycle: nat, period: nat) -> bool {
    period == 0 || 2 * (cycle % period) < period
}

/// Tells whether redraw number `cycle` draws the cursor glyph.
pub fn cursor_on(cycle: u64, period: u64) -> (on: bool)
    ensures
        on == cursor_shown(cycle as nat, period as nat),
{
    if period == 0 {
        true
    } else {
        let phase: u64 = cycle % period;
        phase < period - phase
    }
}

} // verus!

//! What holds of the editor, the rows and the reactions, whatever the input.

use vstd::prelude::*;
use crate::command::reaction_to;
use crate::command::Reaction;
use crate::editor::keys_before_newline;
use crate::editor::keys_of;
use crate::editor::lemma_newline_free_prefix;
use crate::editor::line_of;
use crate::editor::type_key;
use crate::editor::type_keys;
use crate::screen::echo_text;
use crate::screen::prompt_row;
use crate::screen::redraw_text;
use crate::text::padded;
use crate::BACKSPACE;
use crate::MAX_LINE_LEN;
use crate::NEWLINE;
use crate::SCREEN_WIDTH;

verus! {

/// A key that the editor acts on instead of keeping it: backspace or newline.
pub open spec fn is_control(key: char) -> bool {
    key == BACKSPACE || key == NEWLINE
}

/// The first `MAX_LINE_LEN` characters of `keys`, or all of them where they are fewer.
pub open spec fn cut_to_limit(keys: Seq<char>) -> Seq<char> {
    if keys.len() <= MAX_LINE_LEN {
        keys
    } else {
        keys.take(MAX_LINE_LEN as int)
    }
}

/// Backspace on a buffer that holds something removes its last character and no other;
/// backspace on an empty buffer leaves it empty, however often it is pressed.
pub proof fn lemma_backspace(buffer: Seq<char>)
    ensures
        buffer.len() > 0 ==> type_key(buffer, BACKSPACE) == buffer.drop_last(),
        buffer.len() > 0 ==> type_key(buffer, BACKSPACE).len() == buffer.len() - 1,
        buffer.len() == 0 ==> type_key(buffer, BACKSPACE) == buffer,
        type_key(type_key(Seq::empty(), BACKSPACE), BACKSPACE) == Seq::<char>::empty(),
{
}

/// A buffer within the limit stays within it, whatever is typed.
pub proof fn lemma_buffer_stays_within_limit(buffer: Seq<char>, keys: Seq<char>)
    requires
        buffer.len() <= MAX_LINE_LEN,
    ensures
        type_keys(buffer, keys).len() <= MAX_LINE_LEN,
    decreases keys.len(),
{
    if keys.len() > 0 {
        lemma_buffer_stays_within_limit(buffer, keys.drop_last());
    }
}

/// No line that a reader returns is longer than the limit.
pub proof fn lemma_line_within_limit(keys: Seq<char>)
    ensures
        line_of(keys) matches Some(line) ==> line.len() <= MAX_LINE_LEN,
{
    lemma_buffer_stays_within_limit(Seq::empty(), keys.take(keys_before_newline(keys) as int));
}

/// Keys without backspace and newline, typed into an empty buffer, leave the keys
/// themselves there, cut to the limit.
pub proof fn lemma_plain_keys_are_kept(keys: Seq<char>)
    requires
        forall|i: int| 0 <= i < keys.len() ==> !is_control(#[trigger] keys[i]),
    ensures
        type_keys(Seq::empty(), keys) == cut_to_limit(keys),
    decreases keys.len(),
{
    if keys.len() > 0 {
        let front = keys.drop_last();
        lemma_plain_keys_are_kept(front);
        assert(!is_control(keys[keys.len() - 1]));
        if front.len() < MAX_LINE_LEN {
            assert(front.push(keys.last()) == keys);
        } else {
            assert(front.take(MAX_LINE_LEN as int) == keys.take(MAX_LINE_LEN as int));
        }
    }
}

/// For keys without backspace and newline, followed by a newline, the line read is the run
/// of those keys, cut to the limit. What comes behind the newline does not matter.
pub proof fn lemma_plain_line_is_returned(keys: Seq<char>, rest: Seq<char>)
    requires
        forall|i: int| 0 <= i < keys.len() ==> !is_control(#[trigger] keys[i]),
    ensures
        line_of(keys.push(NEWLINE) + rest) == Some(cut_to_limit(keys)),
{
    let all = keys.push(NEWLINE) + rest;
    let n = keys.len() as int;
    assert forall|i: int| 0 <= i < n implies all[i] != NEWLINE by {
        assert(all[i] == keys[i]);
        assert(!is_control(keys[i]));
    }
    assert(all[n] == NEWLINE);
    lemma_newline_free_prefix(all, n);
    assert(all.take(n) == keys);
    lemma_plain_keys_are_kept(keys);
}

/// The same of raw bytes: where none of `typed` is the code of backspace or of newline, a
/// reader of `typed`, a newline and whatever follows returns the characters of `typed`, cut
/// to the limit.
pub proof fn lemma_plain_bytes_are_returned(typed: Seq<u8>, rest: Seq<u8>)
    requires
        forall|i: int| 0 <= i < typed.len() ==> typed[i] != 8 && typed[i] != 10,
    ensures
        line_of(keys_of(typed.push(10) + rest)) == Some(cut_to_limit(keys_of(typed))),
{
    let keys = keys_of(typed);
    assert forall|i: int| 0 <= i < keys.len() implies !is_control(#[trigger] keys[i]) by {
        assert(typed[i] != 8 && typed[i] != 10);
    }
    lemma_plain_line_is_returned(keys, keys_of(rest));
    assert(keys_of(typed.push(10) + rest) == keys.push(NEWLINE) + keys_of(rest));
}

/// A run of `SCREEN_WIDTH + 10` keys without backspace and newline, followed by a newline,
/// is read as a line of exactly `MAX_LINE_LEN` characters: the first of the run.
pub proof fn lemma_long_run_is_cut(keys: Seq<char>)
    requires
        keys.len() == SCREEN_WIDTH + 10,
        forall|i: int| 0 <= i < keys.len() ==> !is_control(#[trigger] keys[i]),
    ensures
        line_of(keys.push(NEWLINE)) == Some(keys.take(MAX_LINE_LEN as int)),
        keys.take(MAX_LINE_LEN as int).len() == MAX_LINE_LEN,
{
    lemma_plain_line_is_returned(keys, Seq::empty());
    assert(keys.push(NEWLINE) + Seq::<char>::empty() == keys.push(NEWLINE));
}

/// The prompt row fills `SCREEN_WIDTH` columns for every buffer within the limit, with the
/// cursor on or off, and a redraw writes that row and one carriage return before it.
pub proof fn lemma_prompt_row_fills_screen(buffer: Seq<char>, cursor: bool)
    requires
        buffer.len() <= MAX_LINE_LEN,
    ensures
        prompt_row(buffer, cursor).len() == SCREEN_WIDTH,
        redraw_text(buffer, cursor).len() == SCREEN_WIDTH + 1,
{
}

/// The row that shows a finished line fills `SCREEN_WIDTH` columns.
pub proof fn lemma_echo_fills_screen(line: Seq<char>)
    requires
        line.len() <= SCREEN_WIDTH,
    ensures
        padded(line, SCREEN_WIDTH as nat).len() == SCREEN_WIDTH,
        echo_text(line).len() == SCREEN_WIDTH + 1,
{
}

/// The secret word is congratulated and never ends the program, with or without support
/// for `exit`; and no other line is congratulated.
pub proof fn lemma_secret_is_congratulated(line: Seq<char>, exit_supported: bool)
    ensures
        reaction_to("secret"@, exit_supported) == Reaction::Congratulate,
        reaction_to(line, exit_supported) == Reaction::Congratulate <==> line == "secret"@,
{
}

/// `exit` ends the program where the prompt supports it, and only `exit` does; where the
/// prompt does not, no line ends the program.
pub proof fn lemma_exit_where_supported(line: Seq<char>)
    ensures
        reaction_to("exit"@, true) == Reaction::Terminate,
        reaction_to(line, true) == Reaction::Terminate <==> line == "exit"@,
        reaction_to(line, false) != Reaction::Terminate,
        reaction_to("exit"@, false) == Reaction::Continue,
{
    reveal_strlit("secret");
    reveal_strlit("exit");
    assert("secret"@.len() != "exit"@.len());
}

} // verus!

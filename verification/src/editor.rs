//! The line buffer and the keys that change it.

use vstd::prelude::*;
use crate::screen::redraw;
use crate::screen::redraw_text;
use crate::text::rem_last;
use crate::text::without_last;
use crate::BACKSPACE;
use crate::MAX_LINE_LEN;
use crate::NEWLINE;
use crate::SCREEN_WIDTH;

verus! {

/// The buffer after one key: backspace erases the last character, if there is one;
/// newline changes nothing; any other key is appended while the buffer is below
/// `MAX_LINE_LEN` characters and dropped once it is full.
pub open spec fn type_key(buffer: Seq<char>, key: char) -> Seq<char> {
    if key == BACKSPACE {
        without_last(buffer)
    } else if key == NEWLINE {
        buffer
    } else if buffer.len() < MAX_LINE_LEN {
        buffer.push(key)
    } else {
        buffer
    }
}

/// The buffer after a run of keys, taken in order.
pub open spec fn type_keys(buffer: Seq<char>, keys: Seq<char>) -> Seq<char>
    decreases keys.len(),
{
    if keys.len() == 0 {
        buffer
    } else {
        type_key(type_keys(buffer, keys.drop_last()), keys.last())
    }
}

/// The characters that a stream of raw bytes stands for: each byte is the character with
/// that code.
pub open spec fn keys_of(bytes: Seq<u8>) -> Seq<char> {
    Seq::new(bytes.len(), |i: int| bytes[i] as char)
}

/// Number of keys that come before the first newline; where there is no newline, the
/// number of all the keys.
pub open spec fn keys_before_newline(keys: Seq<char>) -> nat
    decreases keys.len(),
{
    if keys.len() == 0 || keys[0] == NEWLINE {
        0
    } else {
        1 + keys_before_newline(keys.drop_first())
    }
}

/// The line that a reader returns for `keys`: what the keys before the first newline leave
/// in a buffer that starts empty. Without a newline no line is returned.
pub open spec fn line_of(keys: Seq<char>) -> Option<Seq<char>> {
    let n = keys_before_newline(keys);
    if n < keys.len() {
        Some(type_keys(Seq::empty(), keys.take(n as int)))
    } else {
        None
    }
}

/// Number of keys that a reader takes from `keys`: those of the line and the newline that
/// ends it, or all of them where no newline comes.
pub open spec fn keys_used(keys: Seq<char>) -> nat {
    let n = keys_before_newline(keys);
    if n < keys.len() {
        n + 1
    } else {
        n
    }
}

/// `keys_before_newline` is the place of the first newline: no key before it is a newline,
/// and the key at it, if there is one, is.
pub proof fn lemma_keys_before_newline(keys: Seq<char>)
    ensures
        keys_before_newline(keys) <= keys.len(),
        forall|i: int| 0 <= i < keys_before_newline(keys) ==> keys[i] != NEWLINE,
        keys_before_newline(keys) < keys.len() ==> keys[keys_before_newline(keys) as int]
            == NEWLINE,
    decreases keys.len(),
{
    if keys.len() == 0 || keys[0] == NEWLINE {
    } else {
        let rest = keys.drop_first();
        lemma_keys_before_newline(rest);
        assert forall|i: int| 0 <= i < keys_before_newline(keys) implies keys[i] != NEWLINE by {
            if i > 0 {
                assert(keys[i] == rest[i - 1]);
            }
        }
        if keys_before_newline(keys) < keys.len() {
            assert(keys[keys_before_newline(keys) as int] == rest[keys_before_newline(rest) as int]);
        }
    }
}

/// A prefix of `keys` that holds no newline, and that ends where `keys` ends or where a
/// newline stands, is the prefix that `keys_before_newline` counts.
pub proof fn lemma_newline_free_prefix(keys: Seq<char>, n: int)
    requires
        0 <= n <= keys.len(),
        forall|i: int| 0 <= i < n ==> keys[i] != NEWLINE,
        n < keys.len() ==> keys[n] == NEWLINE,
    ensures
        keys_before_newline(keys) == n,
{
    lemma_keys_before_newline(keys);
    let m = keys_before_newline(keys) as int;
    if m < n {
        assert(keys[m] != NEWLINE);
    } else if n < m {
        assert(keys[n] == NEWLINE);
    }
}

/// A line buffer of at most `MAX_LINE_LEN` characters.
pub struct LineEditor {
    line: String,
}

impl LineEditor {
    #[verifier::type_invariant]
    spec fn within_limit(&self) -> bool {
        self.line@.len() <= MAX_LINE_LEN
    }

    /// The characters in the buffer, oldest first.
    pub closed spec fn view(&self) -> Seq<char> {
        self.line@
    }

    /// An editor with an empty buffer.
    pub fn new() -> (editor: Self)
        ensures
            editor@ == Seq::<char>::empty(),
    {
        LineEditor { line: String::new() }
    }

    /// The text in the buffer.
    pub fn line(&self) -> (text: &str)
        ensures
            text@ == self@,
            text@.len() <= MAX_LINE_LEN,
    {
        proof {
            use_type_invariant(self);
        }
        self.line.as_str()
    }

    /// Takes one key. Returns `true` when the key is the newline, which ends the line and
    /// leaves the buffer as it is.
    pub fn press(&mut self, key: char) -> (done: bool)
        ensures
            final(self)@ == type_key(old(self)@, key),
            final(self)@.len() <= MAX_LINE_LEN,
            done == (key == NEWLINE),
    {
        proof {
            use_type_invariant(&*self);
        }
        if key == BACKSPACE {
            self.line = rem_last(self.line.as_str()).to_owned();
            false
        } else if key == NEWLINE {
            true
        } else {
            if self.line.as_str().unicode_len() < MAX_LINE_LEN {
                let mut line = String::new();
                std::mem::swap(&mut self.line, &mut line);
                line.push(key);
                self.line = line;
            }
            false
        }
    }

    /// The text that draws the prompt row for the buffer over the row drawn before: one
    /// carriage return and `SCREEN_WIDTH` columns, whatever the buffer holds.
    pub fn redraw(&self, cursor: bool) -> (out: String)
        ensures
            out@ == redraw_text(self@, cursor),
            out@.len() == SCREEN_WIDTH + 1,
    {
        redraw(self.line(), cursor)
    }

    /// Gives the buffer up as a line.
    pub fn into_line(self) -> (line: String)
        ensures
            line@ == self@,
            line@.len() <= MAX_LINE_LEN,
    {
        proof {
            use_type_invariant(&self);
        }
        self.line
    }
}

/// Reads one line from recorded input, as the prompt does from the keyboard: the bytes are
/// typed into an empty buffer up to the first newline. Returns the line, if a newline ended
/// it, and the number of bytes taken, the newline among them.
pub fn read_line(input: &[u8]) -> (reading: (Option<String>, usize))
    ensures
        match reading.0 {
            Some(line) => line_of(keys_of(input@)) == Some(line@),
            None => line_of(keys_of(input@)) is None,
        },
        reading.1 == keys_used(keys_of(input@)),
{
    let ghost keys = keys_of(input@);
    let mut editor = LineEditor::new();
    let mut i: usize = 0;
    while i < input.len()
        invariant
            i <= input.len(),
            keys == keys_of(input@),
            forall|j: int| 0 <= j < i ==> keys[j] != NEWLINE,
            editor@ == type_keys(Seq::empty(), keys.take(i as int)),
        decreases input.len() - i,
    {
        let key = input[i] as char;
        assert(key == keys[i as int]);
        assert(keys.take(i + 1).drop_last() == keys.take(i as int));
        if editor.press(key) {
            proof {
                lemma_newline_free_prefix(keys, i as int);
            }
            return (Some(editor.into_line()), i + 1);
        }
        i += 1;
    }
    proof {
        lemma_newline_free_prefix(keys, i as int);
        assert(keys.take(i as int) == keys);
    }
    (None, i)
}

} // verus!

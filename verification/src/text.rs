//! Operations on character sequences and the strings that carry them.

use vstd::prelude::*;
use vstd::string::StringSliceAdditionalSpecFns;
use vstd::utf8::encode_utf8_decode_utf8;

verus! {

/// A sequence of characters without its last one; the empty sequence stays as it is.
pub open spec fn without_last(s: Seq<char>) -> Seq<char> {
    if s.len() == 0 {
        s
    } else {
        s.drop_last()
    }
}

/// `count` spaces.
pub open spec fn spaces(count: nat) -> Seq<char> {
    Seq::new(count, |i: int| ' ')
}

/// `s` left-justified in a field of `width` characters: spaces fill what `s` leaves, and a
/// sequence that is already as long as the field, or longer, is kept whole.
pub open spec fn padded(s: Seq<char>, width: nat) -> Seq<char> {
    if s.len() >= width {
        s
    } else {
        s + spaces((width - s.len()) as nat)
    }
}

/// Specification of `String::push` of the standard library: the character is appended at
/// the end, and the characters before it stay as they were.
pub assume_specification[ String::push ](s: &mut String, ch: char)
    ensures
        final(s)@ == old(s)@.push(ch),
;

/// Returns `value` without its last character, or `value` itself when it is empty.
pub fn rem_last(value: &str) -> (rest: &str)
    ensures
        rest@ == without_last(value@),
{
    let n: usize = value.unicode_len();
    if n == 0 {
        value
    } else {
        value.substring_char(0, n - 1)
    }
}

/// Tells whether two strings hold the same characters, case and all.
pub fn same_text(a: &str, b: &str) -> (same: bool)
    ensures
        same == (a@ == b@),
{
    let x = a.as_bytes();
    let y = b.as_bytes();
    proof {
        encode_utf8_decode_utf8(a@);
        encode_utf8_decode_utf8(b@);
    }
    if x.len() != y.len() {
        return false;
    }
    let mut i: usize = 0;
    while i < x.len()
        invariant
            i <= x.len(),
            x.len() == y.len(),
            x@ == a.spec_bytes(),
            y@ == b.spec_bytes(),
            forall|j: int| 0 <= j < i ==> x@[j] == y@[j],
        decreases x.len() - i,
    {
        if x[i] != y[i] {
            return false;
        }
        i += 1;
    }
    assert(x@ =~= y@);
    true
}

/// Appends spaces to `s` until it holds `width` characters; a longer `s` is left alone.
pub fn pad_to(s: &mut String, width: usize)
    ensures
        final(s)@ == padded(old(s)@, width as nat),
{
    let mut n: usize = s.as_str().unicode_len();
    while n < width
        invariant
            n == s@.len(),
            old(s)@.len() <= n,
            n <= width || n == old(s)@.len(),
            s@ == old(s)@ + spaces((n - old(s)@.len()) as nat),
        decreases width - n,
    {
        s.push(' ');
        n += 1;
    }
}

} // verus!

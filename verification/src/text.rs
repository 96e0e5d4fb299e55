//! Texts as sequences of characters.

use vstd::prelude::*;
use vstd::string::*;

verus! {

/// The characters of `raw`, in order.
pub fn characters(raw: &str) -> (chars: Vec<char>)
    ensures
        chars@ == raw@,
{
    let mut chars: Vec<char> = Vec::new();
    for c in it: raw.chars()
        invariant
            it.seq() == raw@,
            chars@ == it.seq().subrange(0, it.index() as int),
    {
        chars.push(c);
    }
    chars
}

/// Calls `String::push`, which appends one character to the end of the
/// string and leaves the rest as it was.
#[verifier::external_body]
pub(crate) fn push_char(out: &mut String, c: char)
    ensures
        final(out)@ == old(out)@.push(c),
{
    out.push(c)
}

/// Appends the characters of `chars` from position `from` up to, not
/// including, position `to`.
pub fn append_range(out: &mut String, chars: &Vec<char>, from: usize, to: usize)
    requires
        from <= to <= chars@.len(),
    ensures
        final(out)@ == old(out)@ + chars@.subrange(from as int, to as int),
{
    let mut at: usize = from;
    while at < to
        invariant
            from <= at <= to,
            to <= chars@.len(),
            out@ == old(out)@ + chars@.subrange(from as int, at as int),
        decreases to - at,
    {
        push_char(out, chars[at]);
        at = at + 1;
    }
}

/// The text that `chars` holds from position `from` up to, not including,
/// position `to`.
pub fn text_of(chars: &Vec<char>, from: usize, to: usize) -> (text: String)
    requires
        from <= to <= chars@.len(),
    ensures
        text@ == chars@.subrange(from as int, to as int),
{
    let mut text = String::new();
    append_range(&mut text, chars, from, to);
    text
}

} // verus!

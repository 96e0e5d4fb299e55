//! The placeholder grammars: what counts as a token at a cursor position.
//!
//! Positions are counted in characters. A bare name is a run of ASCII
//! letters, digits and underscores that does not start with a digit.

use vstd::prelude::*;
use crate::mode::ExpansionMode;

verus! {

/// Where a placeholder's name lies and where the token ends (exclusive).
pub struct Shape {
    pub name_from: int,
    pub name_to: int,
    pub end: int,
}

/// A recognised placeholder token, in character positions.
#[derive(Clone, Copy, Debug)]
pub struct Span {
    pub name_from: usize,
    pub name_to: usize,
    pub end: usize,
}

impl View for Span {
    type V = Shape;

    open spec fn view(&self) -> Shape {
        Shape { name_from: self.name_from as int, name_to: self.name_to as int, end: self.end as int }
    }
}

/// A character that may start a bare name.
pub open spec fn is_name_start(c: char) -> bool {
    ('a' <= c && c <= 'z') || ('A' <= c && c <= 'Z') || c == '_'
}

/// A character that may continue a bare name.
pub open spec fn is_name_char(c: char) -> bool {
    is_name_start(c) || ('0' <= c && c <= '9')
}

/// The first position at or after `from` that holds `c`, or the length of
/// `s` where there is none.
pub open spec fn find_from(s: Seq<char>, c: char, from: int) -> int
    decreases s.len() - from,
{
    if from < 0 || from >= s.len() {
        s.len() as int
    } else if s[from] == c {
        from
    } else {
        find_from(s, c, from + 1)
    }
}

/// The first position at or after `from` that holds no name character, or
/// the length of `s` where the name runs to the end.
pub open spec fn name_stop(s: Seq<char>, from: int) -> int
    decreases s.len() - from,
{
    if from < 0 || from >= s.len() {
        s.len() as int
    } else if !is_name_char(s[from]) {
        from
    } else {
        name_stop(s, from + 1)
    }
}

/// The Unix-style token that starts at `i`, if any: `${NAME}` closed by the
/// first `}` that follows, or `$` and a bare name.
pub open spec fn unix_at(s: Seq<char>, i: int) -> Option<Shape> {
    if !(0 <= i && i + 1 < s.len() && s[i] == '$') {
        None
    } else if s[i + 1] == '{' {
        let close = find_from(s, '}', i + 2);
        if close < s.len() {
            Some(Shape { name_from: i + 2, name_to: close, end: close + 1 })
        } else {
            None
        }
    } else if is_name_start(s[i + 1]) {
        let stop = name_stop(s, i + 1);
        Some(Shape { name_from: i + 1, name_to: stop, end: stop })
    } else {
        None
    }
}

/// The Windows-style token that starts at `i`, if any: `%NAME%`, closed by
/// the first `%` that follows.
pub open spec fn windows_at(s: Seq<char>, i: int) -> Option<Shape> {
    if !(0 <= i && i < s.len() && s[i] == '%') {
        None
    } else {
        let close = find_from(s, '%', i + 1);
        if close < s.len() {
            Some(Shape { name_from: i + 1, name_to: close, end: close + 1 })
        } else {
            None
        }
    }
}

/// The token that starts at `i` under `mode`, if any. Where both grammars
/// are active the Unix grammar is tried first.
pub open spec fn token_at(s: Seq<char>, mode: ExpansionMode, i: int) -> Option<Shape> {
    if mode.reads_unix() && unix_at(s, i) is Some {
        unix_at(s, i)
    } else if mode.reads_windows() {
        windows_at(s, i)
    } else {
        None
    }
}

/// `find_from` stays between its start and the end of the text, stops on
/// `c`, and passes over no `c`.
pub proof fn lemma_find_from(s: Seq<char>, c: char, from: int)
    requires
        0 <= from <= s.len(),
    ensures
        from <= find_from(s, c, from) <= s.len(),
        find_from(s, c, from) < s.len() ==> s[find_from(s, c, from)] == c,
        forall|j: int| from <= j < find_from(s, c, from) ==> s[j] != c,
    decreases s.len() - from,
{
    if from < s.len() && s[from] != c {
        lemma_find_from(s, c, from + 1);
    }
}

/// `name_stop` stays between its start and the end of the text, and the
/// characters it passes over are name characters.
pub proof fn lemma_name_stop(s: Seq<char>, from: int)
    requires
        0 <= from <= s.len(),
    ensures
        from <= name_stop(s, from) <= s.len(),
        name_stop(s, from) < s.len() ==> !is_name_char(s[name_stop(s, from)]),
        forall|j: int| from <= j < name_stop(s, from) ==> is_name_char(s[j]),
    decreases s.len() - from,
{
    if from < s.len() && is_name_char(s[from]) {
        lemma_name_stop(s, from + 1);
    }
}

/// A token lies inside the text, is not empty, and holds its name.
pub proof fn lemma_token_bounds(s: Seq<char>, mode: ExpansionMode, i: int)
    requires
        token_at(s, mode, i) is Some,
    ensures
        0 <= i < token_at(s, mode, i).unwrap().name_from,
        token_at(s, mode, i).unwrap().name_from <= token_at(s, mode, i).unwrap().name_to,
        token_at(s, mode, i).unwrap().name_to <= token_at(s, mode, i).unwrap().end,
        token_at(s, mode, i).unwrap().end <= s.len(),
        s[i] == '$' || s[i] == '%',
        s[i] == '$' ==> mode.reads_unix(),
        s[i] == '%' ==> mode.reads_windows(),
{
    if s[i] == '$' {
        if s[i + 1] == '{' {
            lemma_find_from(s, '}', i + 2);
        } else {
            lemma_name_stop(s, i + 1);
        }
    } else {
        lemma_find_from(s, '%', i + 1);
    }
}

/// Searches `chars` for `c` from position `from` on.
pub fn find_char(chars: &Vec<char>, c: char, from: usize) -> (at: usize)
    requires
        from <= chars@.len(),
    ensures
        at == find_from(chars@, c, from as int),
        from <= at <= chars@.len(),
{
    let mut at: usize = from;
    while at < chars.len() && chars[at] != c
        invariant
            from <= at <= chars@.len(),
            find_from(chars@, c, from as int) == find_from(chars@, c, at as int),
        decreases chars@.len() - at,
    {
        at = at + 1;
    }
    at
}

/// Tells whether `c` may start a bare name.
pub fn starts_name(c: char) -> (yes: bool)
    ensures
        yes == is_name_start(c),
{
    (c >= 'a' && c <= 'z') || (c >= 'A' && c <= 'Z') || c == '_'
}

/// Tells whether `c` may continue a bare name.
pub fn continues_name(c: char) -> (yes: bool)
    ensures
        yes == is_name_char(c),
{
    starts_name(c) || (c >= '0' && c <= '9')
}

/// Finds where the run of name characters that starts at `from` ends.
pub fn skip_name(chars: &Vec<char>, from: usize) -> (at: usize)
    requires
        from <= chars@.len(),
    ensures
        at == name_stop(chars@, from as int),
        from <= at <= chars@.len(),
{
    let mut at: usize = from;
    while at < chars.len() && continues_name(chars[at])
        invariant
            from <= at <= chars@.len(),
            name_stop(chars@, from as int) == name_stop(chars@, at as int),
        decreases chars@.len() - at,
    {
        at = at + 1;
    }
    at
}

/// Recognises the placeholder token that starts at position `i` of `chars`
/// under `mode`, if there is one.
pub fn scan_at(chars: &Vec<char>, mode: ExpansionMode, i: usize) -> (found: Option<Span>)
    requires
        i < chars@.len(),
    ensures
        found is Some <==> token_at(chars@, mode, i as int) is Some,
        found is Some ==> found.unwrap()@ == token_at(chars@, mode, i as int).unwrap(),
        found is Some ==> i < found.unwrap().name_from <= found.unwrap().name_to
            <= found.unwrap().end <= chars@.len(),
{
    let len = chars.len();
    let first = chars[i];
    if first == '$' && mode != ExpansionMode::Windows {
        if i + 1 < len {
            let second = chars[i + 1];
            if second == '{' {
                let close = find_char(chars, '}', i + 2);
                if close < len {
                    return Some(Span { name_from: i + 2, name_to: close, end: close + 1 });
                }
            } else if starts_name(second) {
                let stop = skip_name(chars, i + 1);
                proof {
                    lemma_name_stop(chars@, i + 1);
                }
                return Some(Span { name_from: i + 1, name_to: stop, end: stop });
            }
        }
        None
    } else if first == '%' && mode != ExpansionMode::Unix {
        let close = find_char(chars, '%', i + 1);
        if close < len {
            Some(Span { name_from: i + 1, name_to: close, end: close + 1 })
        } else {
            None
        }
    } else {
        None
    }
}

} // verus!

//! The expansion pass: one scan from left to right, each placeholder
//! replaced by the answer to its lookup, everything else copied through.

use vstd::prelude::*;
use vstd::string::*;
use crate::environment::read_variable;
use crate::grammar::{scan_at, token_at, Shape};
use crate::laws::{lemma_identity, lemma_token_free_is_literal};
use crate::mode::ExpansionMode;
use crate::text::{append_range, characters, push_char, text_of};

verus! {

/// The names of the placeholders of `s` from position `i` on, in the order
/// in which the scan meets them.
pub open spec fn names(s: Seq<char>, mode: ExpansionMode, i: int) -> Seq<Seq<char>>
    decreases s.len() - i,
{
    if i < 0 || i >= s.len() {
        Seq::empty()
    } else {
        match token_at(s, mode, i) {
            Some(t) => if i < t.end <= s.len() {
                seq![s.subrange(t.name_from, t.name_to)] + names(s, mode, t.end)
            } else {
                Seq::empty()
            },
            None => names(s, mode, i + 1),
        }
    }
}

/// What takes the place of the token `t` that starts at `i`, given the
/// answer to its lookup: the value where there is one, else the token as
/// written.
pub open spec fn replacement(s: Seq<char>, i: int, t: Shape, answer: Option<Seq<char>>) -> Seq<
    char,
> {
    match answer {
        Some(value) => value,
        None => s.subrange(i, t.end),
    }
}

/// The answer that stands at position `k` of `answers`; a lookup that has
/// no answer counts as a variable that is not set.
pub open spec fn answer_at(answers: Seq<Option<Seq<char>>>, k: int) -> Option<Seq<char>> {
    if 0 <= k < answers.len() {
        answers[k]
    } else {
        None
    }
}

/// The expansion of `s` from position `i` on, where the placeholders met
/// from there take their answers from `answers`, starting at `k`.
///
/// A substituted value is never scanned again, and a character at which no
/// token starts is copied alone. A token is never empty and never runs past
/// the text (`lemma_token_bounds`); the test on its end only makes it plain
/// that the scan moves forward.
pub open spec fn render(
    s: Seq<char>,
    mode: ExpansionMode,
    i: int,
    answers: Seq<Option<Seq<char>>>,
    k: int,
) -> Seq<char>
    decreases s.len() - i,
{
    if i < 0 || i >= s.len() {
        Seq::empty()
    } else {
        match token_at(s, mode, i) {
            Some(t) => if i < t.end <= s.len() {
                replacement(s, i, t, answer_at(answers, k)) + render(
                    s,
                    mode,
                    t.end,
                    answers,
                    k + 1,
                )
            } else {
                Seq::empty()
            },
            None => seq![s[i]] + render(s, mode, i + 1, answers, k),
        }
    }
}

/// The value that `vars` gives to `name` from entry `j` on: that of the
/// first entry with this name.
pub open spec fn value_in(vars: Seq<(Seq<char>, Seq<char>)>, name: Seq<char>, j: int) -> Option<
    Seq<char>,
>
    decreases vars.len() - j,
{
    if j < 0 || j >= vars.len() {
        None
    } else if vars[j].0 == name {
        Some(vars[j].1)
    } else {
        value_in(vars, name, j + 1)
    }
}

/// The answers that `vars` gives to each of `wanted`.
pub open spec fn answers_in(vars: Seq<(Seq<char>, Seq<char>)>, wanted: Seq<Seq<char>>) -> Seq<
    Option<Seq<char>>,
> {
    Seq::new(wanted.len(), |k: int| value_in(vars, wanted[k], 0))
}

/// The text contains `c`.
pub open spec fn has_char(s: Seq<char>, c: char) -> bool {
    exists|j: int| 0 <= j < s.len() && s[j] == c
}

/// The text contains a character that introduces a placeholder under
/// `mode`.
pub open spec fn has_delimiter(s: Seq<char>, mode: ExpansionMode) -> bool {
    (mode.reads_unix() && has_char(s, '$')) || (mode.reads_windows() && has_char(s, '%'))
}

/// No token starts anywhere in the text under `mode`.
pub open spec fn token_free(s: Seq<char>, mode: ExpansionMode) -> bool {
    forall|j: int| 0 <= j < s.len() ==> token_at(s, mode, j) is None
}

/// `out` is an expansion of `raw`: its rendering with one answer for each
/// of its placeholders.
pub open spec fn is_expansion(raw: Seq<char>, mode: ExpansionMode, out: Seq<char>) -> bool {
    exists|answers: Seq<Option<Seq<char>>>|
        answers.len() == names(raw, mode, 0).len() && out == #[trigger] render(
            raw,
            mode,
            0,
            answers,
            0,
        )
}

/// Lists the names of the placeholders of `raw`, in the order in which they
/// occur.
pub fn placeholder_names(raw: &str, mode: ExpansionMode) -> (found: Vec<String>)
    ensures
        found.deep_view() == names(raw@, mode, 0),
{
    let chars = characters(raw);
    let len = chars.len();
    let mut found: Vec<String> = Vec::new();
    let mut i: usize = 0;
    while i < len
        invariant
            chars@ == raw@,
            len == raw@.len(),
            i <= len,
            found.deep_view() + names(raw@, mode, i as int) == names(raw@, mode, 0),
        decreases len - i,
    {
        match scan_at(&chars, mode, i) {
            Some(span) => {
                let name = text_of(&chars, span.name_from, span.name_to);
                found.push(name);
                i = span.end;
            },
            None => {
                i = i + 1;
            },
        }
    }
    found
}

/// The answer to lookup number `k`, where `answers` holds one.
pub fn nth_answer(answers: &Vec<Option<String>>, k: usize) -> (answer: Option<&String>)
    ensures
        match answer {
            Some(value) => answer_at(answers.deep_view(), k as int) == Some(value@),
            None => answer_at(answers.deep_view(), k as int) is None,
        },
{
    if k < answers.len() {
        match &answers[k] {
            Some(value) => Some(value),
            None => None,
        }
    } else {
        None
    }
}

/// Expands `raw` with the answers given: the placeholder met as number `k`
/// is replaced by the value of `answers[k]`, or stays as written where that
/// is `None` or `answers` is too short.
pub fn substitute(raw: &str, mode: ExpansionMode, answers: &Vec<Option<String>>) -> (out: String)
    ensures
        out@ == render(raw@, mode, 0, answers.deep_view(), 0),
{
    let chars = characters(raw);
    let len = chars.len();
    let mut out = String::new();
    let mut i: usize = 0;
    let mut k: usize = 0;
    let ghost given = answers.deep_view();
    while i < len
        invariant
            chars@ == raw@,
            len == raw@.len(),
            i <= len,
            k <= i,
            given == answers.deep_view(),
            out@ + render(raw@, mode, i as int, given, k as int) == render(raw@, mode, 0, given, 0),
        decreases len - i,
    {
        match scan_at(&chars, mode, i) {
            Some(span) => {
                match nth_answer(answers, k) {
                    Some(value) => {
                        out.append(value.as_str());
                    },
                    None => {
                        append_range(&mut out, &chars, i, span.end);
                    },
                }
                i = span.end;
                k = k + 1;
            },
            None => {
                push_char(&mut out, chars[i]);
                i = i + 1;
            },
        }
    }
    out
}

/// Looks `name` up in `vars`; where several entries carry the name, the
/// first one counts.
pub fn find_value(vars: &Vec<(String, String)>, name: &String) -> (value: Option<String>)
    ensures
        match value {
            Some(v) => value_in(vars.deep_view(), name@, 0) == Some(v@),
            None => value_in(vars.deep_view(), name@, 0) is None,
        },
{
    let mut j: usize = 0;
    while j < vars.len()
        invariant
            j <= vars@.len(),
            value_in(vars.deep_view(), name@, 0) == value_in(vars.deep_view(), name@, j as int),
        decreases vars@.len() - j,
    {
        if vars[j].0 == *name {
            return Some(vars[j].1.clone());
        }
        j = j + 1;
    }
    None
}

/// Expands `raw` against a given set of variables instead of the process
/// environment: each placeholder whose name `vars` holds is replaced by its
/// value, each other one stays as written.
pub fn expand_with(raw: &str, mode: ExpansionMode, vars: &Vec<(String, String)>) -> (out: String)
    ensures
        out@ == render(raw@, mode, 0, answers_in(vars.deep_view(), names(raw@, mode, 0)), 0),
        is_expansion(raw@, mode, out@),
        !has_delimiter(raw@, mode) ==> out@ == raw@,
        token_free(raw@, mode) ==> out@ == raw@,
{
    let wanted = placeholder_names(raw, mode);
    let mut answers: Vec<Option<String>> = Vec::new();
    let mut k: usize = 0;
    while k < wanted.len()
        invariant
            k <= wanted@.len(),
            wanted.deep_view() == names(raw@, mode, 0),
            answers@.len() == k,
            forall|n: int|
                0 <= n < k ==> #[trigger] answers.deep_view()[n] == value_in(
                    vars.deep_view(),
                    names(raw@, mode, 0)[n],
                    0,
                ),
        decreases wanted@.len() - k,
    {
        let ghost earlier = answers.deep_view();
        let value = find_value(vars, &wanted[k]);
        answers.push(value);
        proof {
            assert forall|n: int| 0 <= n < k + 1 implies #[trigger] answers.deep_view()[n]
                == value_in(vars.deep_view(), names(raw@, mode, 0)[n], 0) by {
                if n < k {
                    assert(answers.deep_view()[n] == earlier[n]);
                }
            }
        }
        k = k + 1;
    }
    proof {
        assert(answers.deep_view() =~= answers_in(vars.deep_view(), names(raw@, mode, 0)));
        if !has_delimiter(raw@, mode) {
            lemma_identity(raw@, mode, answers.deep_view());
        }
        if token_free(raw@, mode) {
            lemma_token_free_is_literal(raw@, mode, answers.deep_view());
        }
    }
    substitute(raw, mode, &answers)
}

/// Expands `raw` against the process environment: the variable of each
/// placeholder is looked up once, in the order of the text, and the text is
/// then rendered with the answers. What the environment answers is not
/// known here; whatever it answers, the result is the rendering of `raw`
/// with one answer for each placeholder.
pub fn expand(raw: &str, mode: ExpansionMode) -> (out: String)
    ensures
        is_expansion(raw@, mode, out@),
        !has_delimiter(raw@, mode) ==> out@ == raw@,
        token_free(raw@, mode) ==> out@ == raw@,
{
    let wanted = placeholder_names(raw, mode);
    let mut answers: Vec<Option<String>> = Vec::new();
    let mut k: usize = 0;
    while k < wanted.len()
        invariant
            k <= wanted@.len(),
            answers@.len() == k,
        decreases wanted@.len() - k,
    {
        let value = read_variable(wanted[k].as_str());
        answers.push(value);
        k = k + 1;
    }
    proof {
        if !has_delimiter(raw@, mode) {
            lemma_identity(raw@, mode, answers.deep_view());
        }
        if token_free(raw@, mode) {
            lemma_token_free_is_literal(raw@, mode, answers.deep_view());
        }
    }
    substitute(raw, mode, &answers)
}

} // verus!

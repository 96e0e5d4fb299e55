//! What holds of every expansion, whatever the environment answers.

use vstd::prelude::*;
use crate::expand::{
    answer_at, answers_in, has_delimiter, names, render, replacement, token_free, value_in,
};
use crate::grammar::{lemma_token_bounds, token_at, unix_at, windows_at};
use crate::mode::ExpansionMode;

verus! {

/// The two grammars never claim the same position: a Unix-style token starts
/// with `$`, a Windows-style one with `%`. So the order in which they are
/// tried where both are active decides nothing.
pub proof fn lemma_grammars_apart(s: Seq<char>, i: int)
    ensures
        !(unix_at(s, i) is Some && windows_at(s, i) is Some),
{
}

/// Each mode reads its own grammar and no other; where both are active, a
/// token of either grammar is read wherever it starts.
pub proof fn lemma_mode_reads(s: Seq<char>, i: int)
    ensures
        token_at(s, ExpansionMode::Unix, i) == unix_at(s, i),
        token_at(s, ExpansionMode::Windows, i) == windows_at(s, i),
        unix_at(s, i) is Some ==> token_at(s, ExpansionMode::All, i) == unix_at(s, i),
        windows_at(s, i) is Some ==> token_at(s, ExpansionMode::All, i) == windows_at(s, i),
        token_at(s, ExpansionMode::All, i) is Some ==> unix_at(s, i) is Some || windows_at(s, i)
            is Some,
{
}

/// A text without a character that introduces a placeholder under `mode`
/// holds no token.
pub proof fn lemma_no_delimiter_no_token(s: Seq<char>, mode: ExpansionMode)
    requires
        !has_delimiter(s, mode),
    ensures
        token_free(s, mode),
{
    assert forall|j: int| 0 <= j < s.len() implies token_at(s, mode, j) is None by {
        if token_at(s, mode, j) is Some {
            lemma_token_bounds(s, mode, j);
        }
    }
}

/// Where no token starts from `i` on, the rest of the text is rendered as
/// it stands and holds no placeholder name.
pub proof fn lemma_render_without_tokens(
    s: Seq<char>,
    mode: ExpansionMode,
    i: int,
    answers: Seq<Option<Seq<char>>>,
    k: int,
)
    requires
        0 <= i <= s.len(),
        forall|j: int| i <= j < s.len() ==> token_at(s, mode, j) is None,
    ensures
        render(s, mode, i, answers, k) == s.subrange(i, s.len() as int),
        names(s, mode, i).len() == 0,
    decreases s.len() - i,
{
    if i < s.len() {
        lemma_render_without_tokens(s, mode, i + 1, answers, k);
    }
}

/// Where every lookup from number `k` on finds nothing, the rest of the text
/// is rendered as it stands: a placeholder that is not resolved stays as
/// written.
pub proof fn lemma_render_unanswered(
    s: Seq<char>,
    mode: ExpansionMode,
    i: int,
    answers: Seq<Option<Seq<char>>>,
    k: int,
)
    requires
        0 <= i <= s.len(),
        forall|n: int| k <= n ==> answer_at(answers, n) is None,
    ensures
        render(s, mode, i, answers, k) == s.subrange(i, s.len() as int),
    decreases s.len() - i,
{
    if i < s.len() {
        match token_at(s, mode, i) {
            Some(t) => {
                lemma_token_bounds(s, mode, i);
                lemma_render_unanswered(s, mode, t.end, answers, k + 1);
            },
            None => {
                lemma_render_unanswered(s, mode, i + 1, answers, k);
            },
        }
    }
}

/// Identity: a text that holds no character that introduces a placeholder
/// under the mode is its own expansion, whatever the lookups would answer.
/// In particular `%` is inert under the Unix mode and `$` under the Windows
/// mode.
pub proof fn lemma_identity(s: Seq<char>, mode: ExpansionMode, answers: Seq<Option<Seq<char>>>)
    requires
        !has_delimiter(s, mode),
    ensures
        render(s, mode, 0, answers, 0) == s,
        names(s, mode, 0).len() == 0,
{
    lemma_no_delimiter_no_token(s, mode);
    lemma_render_without_tokens(s, mode, 0, answers, 0);
}

/// Malformed tokens pass through: a text in which no well-formed token
/// starts is its own expansion, whatever delimiters it holds.
pub proof fn lemma_token_free_is_literal(
    s: Seq<char>,
    mode: ExpansionMode,
    answers: Seq<Option<Seq<char>>>,
)
    requires
        token_free(s, mode),
    ensures
        render(s, mode, 0, answers, 0) == s,
{
    lemma_render_without_tokens(s, mode, 0, answers, 0);
}

/// Unresolved placeholders stay literal: where no lookup finds a value, the
/// text is its own expansion.
pub proof fn lemma_unresolved_is_literal(
    s: Seq<char>,
    mode: ExpansionMode,
    answers: Seq<Option<Seq<char>>>,
)
    requires
        forall|n: int| 0 <= n < answers.len() ==> answers[n] is None,
    ensures
        render(s, mode, 0, answers, 0) == s,
{
    lemma_render_unanswered(s, mode, 0, answers, 0);
}

/// A text that is one token is replaced as a whole: by the answer to its
/// lookup, which is not scanned again whatever it holds, or by itself where
/// the lookup finds nothing.
pub proof fn lemma_single_token(s: Seq<char>, mode: ExpansionMode, answers: Seq<Option<Seq<char>>>)
    requires
        token_at(s, mode, 0) is Some,
        token_at(s, mode, 0).unwrap().end == s.len(),
    ensures
        render(s, mode, 0, answers, 0) == replacement(
            s,
            0,
            token_at(s, mode, 0).unwrap(),
            answer_at(answers, 0),
        ),
        names(s, mode, 0) == seq![
            s.subrange(token_at(s, mode, 0).unwrap().name_from, token_at(s, mode, 0).unwrap().name_to),
        ],
{
    lemma_token_bounds(s, mode, 0);
    assert(render(s, mode, s.len() as int, answers, 1) =~= Seq::empty());
    assert(names(s, mode, s.len() as int) =~= Seq::empty());
}

/// Against a given set of variables: where it binds none of the names that
/// the text asks for, the text is its own expansion.
pub proof fn lemma_unbound_is_literal(
    s: Seq<char>,
    mode: ExpansionMode,
    vars: Seq<(Seq<char>, Seq<char>)>,
)
    requires
        forall|k: int|
            0 <= k < names(s, mode, 0).len() ==> value_in(vars, #[trigger] names(s, mode, 0)[k], 0)
                is None,
    ensures
        render(s, mode, 0, answers_in(vars, names(s, mode, 0)), 0) == s,
{
    lemma_unresolved_is_literal(s, mode, answers_in(vars, names(s, mode, 0)));
}

/// Fixed point: where an expansion of `s` holds no placeholder, expanding it
/// once more changes nothing, whatever the lookups of either pass answer.
pub proof fn lemma_fixed_point(
    s: Seq<char>,
    mode: ExpansionMode,
    first: Seq<Option<Seq<char>>>,
    second: Seq<Option<Seq<char>>>,
)
    requires
        token_free(render(s, mode, 0, first, 0), mode),
    ensures
        render(render(s, mode, 0, first, 0), mode, 0, second, 0) == render(s, mode, 0, first, 0),
{
    lemma_token_free_is_literal(render(s, mode, 0, first, 0), mode, second);
}

} // verus!

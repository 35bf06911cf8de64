use vstd::prelude::*;

use crate::lexer::{
    is_alpha, line_end, number_end, quote_end, single_char_type, scan, skip_to, spec_next, spec_peek, word_end, LexerView,
};
use crate::token::{word_type, TokenType};

verus! {

/// The state after `n` further calls of `next`.
pub open spec fn next_n(v: LexerView, n: nat) -> LexerView
    decreases n,
{
    if n == 0 {
        v
    } else {
        next_n(spec_next(v).1, (n - 1) as nat)
    }
}

/// Peeking twice without a `next` in between returns the same token and
/// leaves the state as the first peek left it.
pub proof fn lemma_peek_idempotent(v: LexerView)
    requires
        v.wf(),
    ensures
        spec_peek(spec_peek(v).1) == spec_peek(v),
{
}

/// A `next` after a `peek` returns the token the peek returned, and leaves
/// the same state as a `next` without the peek.
pub proof fn lemma_peek_then_next(v: LexerView)
    requires
        v.wf(),
    ensures
        spec_next(spec_peek(v).1).0 == spec_peek(v).0,
        spec_next(spec_peek(v).1) == spec_next(v),
{
}

/// Once `next` has scanned the end of input, every later `next` returns an
/// end-of-input token again, and the state no longer changes.
pub proof fn lemma_eof_stable(v: LexerView, n: nat)
    requires
        v.wf(),
        v.peeked is None,
        spec_next(v).0.kind == TokenType::EOF,
    ensures
        next_n(spec_next(v).1, n) == spec_next(v).1,
        spec_next(next_n(spec_next(v).1, n)).0.kind == TokenType::EOF,
    decreases n,
{
    let w = spec_next(v).1;
    let start = skip_to(v.input, v.pos, false);
    lemma_skip_to_bounds(v.input, v.pos, false);
    if start < v.input.len() {
        lemma_scan_not_eof(v.input, start);
    }
    assert(skip_to(w.input, w.pos, false) == w.pos);
    assert(spec_next(w).1 == w);
    if n > 0 {
        lemma_eof_stable(v, (n - 1) as nat);
        lemma_next_n_last(w, n);
    }
}

proof fn lemma_scan_not_eof(s: Seq<char>, i: int)
    requires
        0 <= i < s.len(),
    ensures
        scan(s, i).0 != TokenType::EOF,
{
    let c = s[i];
    if single_char_type(c) is Some {
        assert(single_char_type(c)->0 != TokenType::EOF);
    }
    if is_alpha(c) {
        let t = s.subrange(i, word_end(s, i));
        assert(word_type(t) != TokenType::EOF);
    }
}

proof fn lemma_next_n_last(w: LexerView, n: nat)
    requires
        n > 0,
        spec_next(w).1 == w,
    ensures
        next_n(w, n) == next_n(w, (n - 1) as nat),
    decreases n,
{
    if n > 1 {
        lemma_next_n_last(w, (n - 1) as nat);
    }
}

proof fn lemma_skip_to_bounds(s: Seq<char>, i: int, in_comment: bool)
    requires
        0 <= i <= s.len(),
    ensures
        i <= skip_to(s, i, in_comment) <= s.len(),
    decreases s.len() - i,
{
    if i < s.len() {
        if in_comment {
            lemma_skip_to_bounds(s, i + 1, s[i] != '\n');
        } else if crate::lexer::is_blank(s[i]) {
            lemma_skip_to_bounds(s, i + 1, false);
        } else if i + 1 < s.len() && s[i] == '-' && s[i + 1] == '-' {
            lemma_skip_to_bounds(s, i + 2, true);
        }
    }
}

proof fn lemma_word_end_bounds(s: Seq<char>, i: int)
    requires
        0 <= i <= s.len(),
    ensures
        i <= word_end(s, i) <= s.len(),
    decreases s.len() - i,
{
    if i < s.len() {
        lemma_word_end_bounds(s, i + 1);
    }
}

proof fn lemma_number_end_bounds(s: Seq<char>, i: int, dot: bool)
    requires
        0 <= i <= s.len(),
    ensures
        i <= number_end(s, i, dot) <= s.len(),
    decreases s.len() - i,
{
    if i < s.len() {
        lemma_number_end_bounds(s, i + 1, dot || s[i] == '.');
    }
}

proof fn lemma_quote_end_bounds(s: Seq<char>, i: int)
    requires
        0 <= i <= s.len(),
    ensures
        i <= quote_end(s, i) <= s.len(),
        quote_end(s, i) < s.len() ==> s[quote_end(s, i)] == '\'',
    decreases s.len() - i,
{
    if i < s.len() {
        lemma_quote_end_bounds(s, i + 1);
    }
}

/// Every token but an illegal one carries exactly the input text it was
/// scanned from; a string literal carries the text between its quotes.
pub proof fn lemma_scan_literal(s: Seq<char>, i: int)
    requires
        0 <= i <= s.len(),
    ensures
        i <= scan(s, i).2 <= s.len(),
        scan(s, i).0 != TokenType::Illegal && scan(s, i).0 != TokenType::String ==> scan(
            s,
            i,
        ).1 == s.subrange(i, scan(s, i).2),
        scan(s, i).0 == TokenType::String ==> {
            &&& i + 2 <= scan(s, i).2
            &&& s[i] == '\''
            &&& s[scan(s, i).2 - 1] == '\''
            &&& scan(s, i).1 == s.subrange(i + 1, scan(s, i).2 - 1)
        },
{
    if i < s.len() {
        let c = s[i];
        lemma_word_end_bounds(s, i);
        lemma_number_end_bounds(s, i, false);
        lemma_quote_end_bounds(s, i + 1);
        if i + 1 < s.len() {
            assert(s.subrange(i, i + 2) =~= seq![c, s[i + 1]]);
        }
        assert(s.subrange(i, i + 1) =~= seq![c]);
    } else {
        assert(s.subrange(i, i) =~= Seq::<char>::empty());
    }
}

/// What `next` scans from the cursor, with no token buffered: every token
/// but an illegal one holds the input text from its start to where the
/// cursor stops (between the quotes, for a string literal).
pub proof fn lemma_next_literal(v: LexerView)
    requires
        v.wf(),
        v.peeked is None,
    ensures
        ({
            let (t, w) = spec_next(v);
            let start = t.location.column as int;
            &&& v.pos <= start <= w.pos <= v.input.len()
            &&& t.kind != TokenType::Illegal && t.kind != TokenType::String ==> t.text
                == v.input.subrange(start, w.pos)
            &&& t.kind == TokenType::String ==> t.text == v.input.subrange(start + 1, w.pos - 1)
        }),
{
    let start = skip_to(v.input, v.pos, false);
    lemma_skip_to_bounds(v.input, v.pos, false);
    lemma_scan_literal(v.input, start);
}

proof fn lemma_comment_rest(s: Seq<char>, j: int)
    requires
        0 <= j <= s.len(),
    ensures
        skip_to(s, j, true) == skip_to(s, line_end(s, j), false),
    decreases s.len() - j,
{
    if j < s.len() && s[j] != '\n' {
        lemma_comment_rest(s, j + 1);
    }
}

/// A line comment is skipped up to its line break: scanning goes on as if
/// the input resumed at the newline (or the end of input) that ends it.
pub proof fn lemma_comment_skipped(s: Seq<char>, i: int)
    requires
        0 <= i,
        i + 1 < s.len(),
        s[i] == '-',
        s[i + 1] == '-',
    ensures
        skip_to(s, i, false) == skip_to(s, line_end(s, i), false),
{
    assert(line_end(s, i) == line_end(s, i + 1));
    assert(line_end(s, i + 1) == line_end(s, i + 2));
    lemma_comment_rest(s, i + 2);
}

} // verus!

use vstd::prelude::*;
use vstd::std_specs::iter::IteratorSpec;

use crate::token::{word_type, Location, LocationView, Token, TokenType, TokenView};

verus! {

/// Relies on String::push: the character is appended at the end.
pub assume_specification[ std::string::String::push ](s: &mut std::string::String, ch: char)
    ensures
        final(s)@ == old(s)@.push(ch),
;

// ---------------------------------------------------------------------------
// Character classes

/// Blank characters between tokens: space, tab, newline and carriage return.
pub open spec fn is_blank(c: char) -> bool {
    c == ' ' || c == '\t' || c == '\n' || c == '\r'
}

pub open spec fn is_alpha(c: char) -> bool {
    ('a' <= c <= 'z') || ('A' <= c <= 'Z')
}

pub open spec fn is_digit(c: char) -> bool {
    '0' <= c <= '9'
}

/// Characters that may continue a word once it has started with a letter.
pub open spec fn is_word_char(c: char) -> bool {
    is_alpha(c) || is_digit(c) || c == '_'
}

fn blank(c: char) -> (r: bool)
    ensures
        r == is_blank(c),
{
    c == ' ' || c == '\t' || c == '\n' || c == '\r'
}

fn alpha(c: char) -> (r: bool)
    ensures
        r == is_alpha(c),
{
    ('a' <= c && c <= 'z') || ('A' <= c && c <= 'Z')
}

fn digit(c: char) -> (r: bool)
    ensures
        r == is_digit(c),
{
    '0' <= c && c <= '9'
}

fn word_char(c: char) -> (r: bool)
    ensures
        r == is_word_char(c),
{
    alpha(c) || digit(c) || c == '_'
}

// ---------------------------------------------------------------------------
// Positions and lines

/// Number of newlines strictly before index `i`: the line index of `i`.
pub open spec fn newlines_before(s: Seq<char>, i: int) -> nat
    decreases i,
{
    if i <= 0 {
        0
    } else {
        newlines_before(s, i - 1) + if s[i - 1] == '\n' {
            1nat
        } else {
            0nat
        }
    }
}

/// Index where the line holding `i` begins.
pub open spec fn line_start(s: Seq<char>, i: int) -> int
    decreases i,
{
    if i <= 0 {
        0
    } else if s[i - 1] == '\n' {
        i
    } else {
        line_start(s, i - 1)
    }
}

/// Index of the newline that ends the line holding `i`, or the end of input.
pub open spec fn line_end(s: Seq<char>, i: int) -> int
    decreases s.len() - i,
{
    if i >= s.len() {
        s.len() as int
    } else if s[i] == '\n' {
        i
    } else {
        line_end(s, i + 1)
    }
}

/// Text of the line holding `i`, without its line break.
pub open spec fn line_text(s: Seq<char>, i: int) -> Seq<char> {
    let a = line_start(s, i);
    let b = line_end(s, i);
    if a < b && s[b - 1] == '\r' {
        s.subrange(a, b - 1)
    } else {
        s.subrange(a, b)
    }
}

/// The location of index `i`: line index, running column, line text.
pub open spec fn location_at(s: Seq<char>, i: int) -> LocationView {
    LocationView { line_text: line_text(s, i), line: newlines_before(s, i), column: i as nat }
}

// ---------------------------------------------------------------------------
// Scanning rules

/// First index at or after `i` that is neither blank nor inside a line
/// comment; `in_comment` says whether `i` lies inside a `--` comment.
pub open spec fn skip_to(s: Seq<char>, i: int, in_comment: bool) -> int
    decreases s.len() - i,
{
    if i < 0 || i >= s.len() {
        i
    } else if in_comment {
        skip_to(s, i + 1, s[i] != '\n')
    } else if is_blank(s[i]) {
        skip_to(s, i + 1, false)
    } else if i + 1 < s.len() && s[i] == '-' && s[i + 1] == '-' {
        skip_to(s, i + 2, true)
    } else {
        i
    }
}

/// The character at `i + 1` exists and is `c`.
pub open spec fn followed_by(s: Seq<char>, i: int, c: char) -> bool {
    i + 1 < s.len() && s[i + 1] == c
}

/// End of the run of word characters that starts at `i`.
pub open spec fn word_end(s: Seq<char>, i: int) -> int
    decreases s.len() - i,
{
    if 0 <= i < s.len() && is_word_char(s[i]) {
        word_end(s, i + 1)
    } else {
        i
    }
}

/// End of the run of digits, with at most one decimal point, that starts at
/// `i`; `dot` says whether a point has been taken already. A second point
/// ends the number.
pub open spec fn number_end(s: Seq<char>, i: int, dot: bool) -> int
    decreases s.len() - i,
{
    if 0 <= i < s.len() && (is_digit(s[i]) || (s[i] == '.' && !dot)) {
        number_end(s, i + 1, dot || s[i] == '.')
    } else {
        i
    }
}

/// Index of the first quote at or after `i`, or the end of input.
pub open spec fn quote_end(s: Seq<char>, i: int) -> int
    decreases s.len() - i,
{
    if i >= s.len() {
        s.len() as int
    } else if s[i] == '\'' {
        i
    } else {
        quote_end(s, i + 1)
    }
}

/// The token type for a one-character token, or `None`.
pub open spec fn single_char_type(c: char) -> Option<TokenType> {
    if c == '=' {
        Some(TokenType::Eq)
    } else if c == ';' {
        Some(TokenType::Semicolon)
    } else if c == '.' {
        Some(TokenType::Period)
    } else if c == '(' {
        Some(TokenType::LParen)
    } else if c == ')' {
        Some(TokenType::RParen)
    } else if c == ',' {
        Some(TokenType::Comma)
    } else if c == '+' {
        Some(TokenType::Plus)
    } else if c == '{' {
        Some(TokenType::LBrace)
    } else if c == '[' {
        Some(TokenType::LSquareBrace)
    } else if c == ']' {
        Some(TokenType::RSquareBrace)
    } else if c == '}' {
        Some(TokenType::RBrace)
    } else if c == '-' {
        Some(TokenType::Minus)
    } else if c == '*' {
        Some(TokenType::Asterisk)
    } else if c == '/' {
        Some(TokenType::Slash)
    } else if c == '?' {
        Some(TokenType::Question)
    } else {
        None
    }
}

/// The token that starts at index `i`: its type, its text, and the index
/// just past it.
pub open spec fn scan(s: Seq<char>, i: int) -> (TokenType, Seq<char>, int) {
    if i < 0 || i >= s.len() {
        (TokenType::EOF, Seq::empty(), i)
    } else {
        let c = s[i];
        if c == '!' || c == '<' || c == '>' {
            if followed_by(s, i, '=') {
                let k = if c == '!' {
                    TokenType::NotEq
                } else if c == '<' {
                    TokenType::Lte
                } else {
                    TokenType::Gte
                };
                (k, seq![c, '='], i + 2)
            } else {
                let k = if c == '!' {
                    TokenType::Bang
                } else if c == '<' {
                    TokenType::Lt
                } else {
                    TokenType::Gt
                };
                (k, seq![c], i + 1)
            }
        } else if c == ':' {
            if followed_by(s, i, ':') {
                (TokenType::DoubleColon, seq![':', ':'], i + 2)
            } else {
                (TokenType::Colon, seq![':'], i + 1)
            }
        } else if single_char_type(c) is Some {
            (single_char_type(c)->0, seq![c], i + 1)
        } else if c == '\'' {
            let j = quote_end(s, i + 1);
            if j >= s.len() {
                (TokenType::Illegal, seq!['\''], s.len() as int)
            } else {
                (TokenType::String, s.subrange(i + 1, j), j + 1)
            }
        } else if is_alpha(c) {
            let j = word_end(s, i);
            (word_type(s.subrange(i, j)), s.subrange(i, j), j)
        } else if is_digit(c) {
            let j = number_end(s, i, false);
            let t = s.subrange(i, j);
            (if t.contains('.') {
                TokenType::Float
            } else {
                TokenType::Int
            }, t, j)
        } else {
            (TokenType::Illegal, seq![c], i + 1)
        }
    }
}

// ---------------------------------------------------------------------------
// The tokenizer as a state machine

/// Abstract state of a tokenizer: the input, the cursor index and the
/// buffered token.
pub struct LexerView {
    pub input: Seq<char>,
    pub pos: int,
    pub peeked: Option<TokenView>,
}

impl LexerView {
    pub open spec fn wf(self) -> bool {
        0 <= self.pos <= self.input.len()
    }
}

/// The token scanned from the cursor, after blanks and comments.
pub open spec fn scan_from(s: Seq<char>, pos: int) -> (TokenView, int) {
    let start = skip_to(s, pos, false);
    let (k, text, end) = scan(s, start);
    (TokenView { kind: k, text, location: location_at(s, start) }, end)
}

/// What `next` returns and the state it leaves.
pub open spec fn spec_next(v: LexerView) -> (TokenView, LexerView) {
    match v.peeked {
        Some(t) => (t, LexerView { input: v.input, pos: v.pos, peeked: None }),
        None => {
            let (t, end) = scan_from(v.input, v.pos);
            (t, LexerView { input: v.input, pos: end, peeked: None })
        },
    }
}

/// What `peek` returns and the state it leaves.
pub open spec fn spec_peek(v: LexerView) -> (TokenView, LexerView) {
    match v.peeked {
        Some(t) => (t, v),
        None => {
            let (t, end) = scan_from(v.input, v.pos);
            (t, LexerView { input: v.input, pos: end, peeked: Some(t) })
        },
    }
}

/// The initial state for an input.
pub open spec fn spec_start(input: Seq<char>) -> LexerView {
    LexerView { input, pos: 0, peeked: None }
}

// ---------------------------------------------------------------------------
// Lemmas on the scanning rules

proof fn lemma_newlines_bounded(s: Seq<char>, i: int)
    requires
        0 <= i,
    ensures
        newlines_before(s, i) <= i,
    decreases i,
{
    if i > 0 {
        lemma_newlines_bounded(s, i - 1);
    }
}

// ---------------------------------------------------------------------------
// The tokenizer

/// A tokenizer over one input text, with one token of lookahead.
pub struct Lexer {
    chars: Vec<char>,
    pos: usize,
    cur_line: usize,
    peeked: Option<Token>,
}

impl View for Lexer {
    type V = LexerView;

    closed spec fn view(&self) -> LexerView {
        LexerView {
            input: self.chars@,
            pos: self.pos as int,
            peeked: match self.peeked {
                Some(t) => Some(t@),
                None => None,
            },
        }
    }
}

/// Copies `chars[a..b]` into a new string.
fn copy_range(chars: &Vec<char>, a: usize, b: usize) -> (r: String)
    requires
        a <= b <= chars@.len(),
    ensures
        r@ == chars@.subrange(a as int, b as int),
{
    let mut r = String::new();
    let mut k = a;
    while k < b
        invariant
            a <= k <= b <= chars@.len(),
            r@ == chars@.subrange(a as int, k as int),
        decreases b - k,
    {
        r.push(chars[k]);
        assert(chars@.subrange(a as int, k + 1) == chars@.subrange(a as int, k as int).push(chars@[k as int]));
        k = k + 1;
    }
    r
}

impl Lexer {
    /// The tokenizer's internal invariant.
    pub closed spec fn wf(&self) -> bool {
        &&& self.pos <= self.chars@.len()
        &&& self.cur_line == newlines_before(self.chars@, self.pos as int)
    }

    /// A tokenizer positioned at the start of `input`.
    pub fn new(input: &str) -> (r: Lexer)
        ensures
            r.wf(),
            r@ == spec_start(input@),
    {
        let mut it = input.chars();
        let mut chars: Vec<char> = Vec::new();
        proof {
            vstd::string::axiom_spec_iter(input);
        }
        loop
            invariant
                chars@ + it.remaining() == input@,
                it.decrease() is Some,
            ensures
                chars@ == input@,
            decreases it.decrease()->0,
        {
            let ghost before = it;
            let step = it.next();
            proof {
                vstd::string::next_postcondition(&before, &it, step);
            }
            match step {
                Some(c) => {
                    chars.push(c);
                },
                None => {
                    break;
                },
            }
        }
        Lexer { chars, pos: 0, cur_line: 0, peeked: None }
    }

    /// The character under the cursor, or `None` at the end of input.
    fn current(&self) -> (r: Option<char>)
        requires
            self.wf(),
        ensures
            self.pos < self.chars@.len() ==> r == Some(self.chars@[self.pos as int]),
            self.pos >= self.chars@.len() ==> r is None,
    {
        if self.pos < self.chars.len() {
            Some(self.chars[self.pos])
        } else {
            None
        }
    }

    /// The character just after the cursor, or `None`.
    fn peek_char(&self) -> (r: Option<char>)
        requires
            self.wf(),
        ensures
            self.pos + 1 < self.chars@.len() ==> r == Some(self.chars@[self.pos + 1]),
            self.pos + 1 >= self.chars@.len() ==> r is None,
    {
        if self.pos < self.chars.len() && self.pos + 1 < self.chars.len() {
            Some(self.chars[self.pos + 1])
        } else {
            None
        }
    }

    /// Moves the cursor one character forward; at the end of input it stays.
    fn read_char(&mut self)
        requires
            old(self).wf(),
        ensures
            final(self).wf(),
            final(self).chars@ == old(self).chars@,
            final(self).peeked == old(self).peeked,
            old(self).pos < old(self).chars@.len() ==> final(self).pos == old(self).pos + 1,
            old(self).pos >= old(self).chars@.len() ==> final(self).pos == old(self).pos,
    {
        if self.pos < self.chars.len() {
            proof {
                lemma_newlines_bounded(self.chars@, self.pos as int);
            }
            if self.chars[self.pos] == '\n' {
                self.cur_line = self.cur_line + 1;
            }
            self.pos = self.pos + 1;
        }
    }

    /// The location of the cursor: line index, running column and the text
    /// of the line.
    pub fn location(&self) -> (r: Location)
        requires
            self.wf(),
        ensures
            r@ == location_at(self@.input, self@.pos),
    {
        let ghost s = self.chars@;
        let mut a = self.pos;
        while a > 0 && self.chars[a - 1] != '\n'
            invariant
                a <= self.pos <= s.len(),
                s == self.chars@,
                line_start(s, a as int) == line_start(s, self.pos as int),
            decreases a,
        {
            a = a - 1;
        }
        let mut b = self.pos;
        while b < self.chars.len() && self.chars[b] != '\n'
            invariant
                self.pos <= b <= s.len(),
                s == self.chars@,
                line_end(s, b as int) == line_end(s, self.pos as int),
            decreases s.len() - b,
        {
            b = b + 1;
        }
        if a < b && self.chars[b - 1] == '\r' {
            b = b - 1;
        }
        Location { line_str: copy_range(&self.chars, a, b), line: self.cur_line, column: self.pos }
    }

    /// The character after the cursor exists and is `c`.
    fn next_is(&self, c: char) -> (r: bool)
        requires
            self.wf(),
        ensures
            r == followed_by(self.chars@, self.pos as int, c),
    {
        match self.peek_char() {
            Some(d) => d == c,
            None => false,
        }
    }

    /// Moves the cursor past blanks and line comments.
    fn skip(&mut self)
        requires
            old(self).wf(),
        ensures
            final(self).wf(),
            final(self).chars@ == old(self).chars@,
            final(self).peeked == old(self).peeked,
            final(self).pos == skip_to(old(self).chars@, old(self).pos as int, false),
    {
        let ghost s = self.chars@;
        let ghost target = skip_to(s, self.pos as int, false);
        let mut in_comment = false;
        loop
            invariant
                self.wf(),
                self.chars@ == s,
                self.peeked == old(self).peeked,
                skip_to(s, self.pos as int, in_comment) == target,
            ensures
                self.wf(),
                self.chars@ == s,
                self.peeked == old(self).peeked,
                self.pos == target,
            decreases s.len() - self.pos,
        {
            let c = match self.current() {
                Some(c) => c,
                None => break,
            };
            if in_comment {
                in_comment = c != '\n';
                self.read_char();
            } else if blank(c) {
                self.read_char();
            } else if c == '-' && self.next_is('-') {
                self.read_char();
                self.read_char();
                in_comment = true;
            } else {
                break;
            }
        }
    }

    /// Reads the run of word characters at the cursor.
    fn read_literal(&mut self) -> (r: String)
        requires
            old(self).wf(),
        ensures
            final(self).wf(),
            final(self).chars@ == old(self).chars@,
            final(self).peeked == old(self).peeked,
            final(self).pos == word_end(old(self).chars@, old(self).pos as int),
            r@ == old(self).chars@.subrange(old(self).pos as int, final(self).pos as int),
    {
        let ghost s = self.chars@;
        let start = self.pos;
        while self.pos < self.chars.len() && word_char(self.chars[self.pos])
            invariant
                self.wf(),
                self.chars@ == s,
                self.peeked == old(self).peeked,
                start <= self.pos,
                word_end(s, self.pos as int) == word_end(s, start as int),
            decreases s.len() - self.pos,
        {
            self.read_char();
        }
        copy_range(&self.chars, start, self.pos)
    }

    /// Reads the number at the cursor: digits with at most one decimal
    /// point. Also says whether a point was read.
    fn read_number(&mut self) -> (r: (String, bool))
        requires
            old(self).wf(),
        ensures
            final(self).wf(),
            final(self).chars@ == old(self).chars@,
            final(self).peeked == old(self).peeked,
            final(self).pos == number_end(old(self).chars@, old(self).pos as int, false),
            r.0@ == old(self).chars@.subrange(old(self).pos as int, final(self).pos as int),
            r.1 == r.0@.contains('.'),
    {
        let ghost s = self.chars@;
        let start = self.pos;
        let mut dot = false;
        while self.pos < self.chars.len() && (digit(self.chars[self.pos]) || (self.chars[self.pos]
            == '.' && !dot))
            invariant
                self.wf(),
                self.chars@ == s,
                self.peeked == old(self).peeked,
                start <= self.pos,
                number_end(s, self.pos as int, dot) == number_end(s, start as int, false),
                dot == exists|k: int| start <= k < self.pos && s[k] == '.',
            decreases s.len() - self.pos,
        {
            if self.chars[self.pos] == '.' {
                dot = true;
            }
            self.read_char();
        }
        let r = copy_range(&self.chars, start, self.pos);
        proof {
            if dot {
                let k = choose|k: int| start <= k < self.pos && s[k] == '.';
                assert(r@[k - start] == '.');
            } else {
                assert forall|i: int| 0 <= i < r@.len() implies r@[i] != '.' by {
                    assert(s[start + i] == r@[i]);
                }
            }
        }
        (r, dot)
    }

    /// Reads a quoted string whose opening quote is under the cursor. Gives
    /// `None`, with the cursor at the end, when no closing quote follows.
    fn read_string(&mut self) -> (r: Option<String>)
        requires
            old(self).wf(),
            old(self).pos < old(self).chars@.len(),
        ensures
            final(self).wf(),
            final(self).chars@ == old(self).chars@,
            final(self).peeked == old(self).peeked,
            quote_end(old(self).chars@, old(self).pos + 1) >= old(self).chars@.len() ==> {
                &&& r is None
                &&& final(self).pos == old(self).chars@.len()
            },
            quote_end(old(self).chars@, old(self).pos + 1) < old(self).chars@.len() ==> {
                &&& r is Some
                &&& r->0@ == old(self).chars@.subrange(
                    old(self).pos + 1,
                    quote_end(old(self).chars@, old(self).pos + 1),
                )
                &&& final(self).pos == quote_end(old(self).chars@, old(self).pos + 1) + 1
            },
    {
        let ghost s = self.chars@;
        self.read_char();
        let start = self.pos;
        while self.pos < self.chars.len() && self.chars[self.pos] != '\''
            invariant
                self.wf(),
                self.chars@ == s,
                self.peeked == old(self).peeked,
                start == old(self).pos + 1,
                start <= self.pos,
                quote_end(s, self.pos as int) == quote_end(s, start as int),
            decreases s.len() - self.pos,
        {
            self.read_char();
        }
        if self.pos >= self.chars.len() {
            None
        } else {
            let text = copy_range(&self.chars, start, self.pos);
            self.read_char();
            Some(text)
        }
    }

    /// Consumes and returns the next token: the buffered one if `peek`
    /// left one, else one freshly scanned after blanks and comments.
    pub fn next(&mut self) -> (r: Token)
        requires
            old(self).wf(),
        ensures
            final(self).wf(),
            final(self)@.wf(),
            (r@, final(self)@) == spec_next(old(self)@),
    {
        match self.peeked.take() {
            Some(t) => {
                return t;
            },
            None => {},
        }
        self.skip();
        let ghost s = self.chars@;
        let ghost start = self.pos as int;
        let loc = self.location();
        let c = match self.current() {
            Some(c) => c,
            None => {
                return Token::new(TokenType::EOF, String::new(), loc);
            },
        };
        let (kind, literal) = if c == '!' || c == '<' || c == '>' {
            if self.next_is('=') {
                self.read_char();
                self.read_char();
                let k = if c == '!' {
                    TokenType::NotEq
                } else if c == '<' {
                    TokenType::Lte
                } else {
                    TokenType::Gte
                };
                (k, two_char_string(c, '='))
            } else {
                self.read_char();
                let k = if c == '!' {
                    TokenType::Bang
                } else if c == '<' {
                    TokenType::Lt
                } else {
                    TokenType::Gt
                };
                (k, char_string(c))
            }
        } else if c == ':' {
            if self.next_is(':') {
                self.read_char();
                self.read_char();
                (TokenType::DoubleColon, two_char_string(':', ':'))
            } else {
                self.read_char();
                (TokenType::Colon, char_string(':'))
            }
        } else if let Some(k) = single_char_kind(c) {
            self.read_char();
            (k, char_string(c))
        } else if c == '\'' {
            match self.read_string() {
                Some(text) => (TokenType::String, text),
                None => (TokenType::Illegal, char_string('\'')),
            }
        } else if alpha(c) {
            let text = self.read_literal();
            (TokenType::lookup_ident(text.as_str()), text)
        } else if digit(c) {
            let (text, dot) = self.read_number();
            (if dot {
                TokenType::Float
            } else {
                TokenType::Int
            }, text)
        } else {
            self.read_char();
            (TokenType::Illegal, char_string(c))
        };
        Token::new(kind, literal, loc)
    }

    /// Returns the next token without consuming it; repeated calls return
    /// the same token until `next` is called.
    pub fn peek(&mut self) -> (r: Option<&Token>)
        requires
            old(self).wf(),
        ensures
            final(self).wf(),
            final(self)@.wf(),
            r is Some,
            (r->0@, final(self)@) == spec_peek(old(self)@),
    {
        if self.peeked.is_none() {
            let t = self.next();
            self.peeked = Some(t);
        }
        self.peeked.as_ref()
    }
}

/// The token type of a one-character token.
fn single_char_kind(c: char) -> (r: Option<TokenType>)
    ensures
        r == single_char_type(c),
{
    if c == '=' {
        Some(TokenType::Eq)
    } else if c == ';' {
        Some(TokenType::Semicolon)
    } else if c == '.' {
        Some(TokenType::Period)
    } else if c == '(' {
        Some(TokenType::LParen)
    } else if c == ')' {
        Some(TokenType::RParen)
    } else if c == ',' {
        Some(TokenType::Comma)
    } else if c == '+' {
        Some(TokenType::Plus)
    } else if c == '{' {
        Some(TokenType::LBrace)
    } else if c == '[' {
        Some(TokenType::LSquareBrace)
    } else if c == ']' {
        Some(TokenType::RSquareBrace)
    } else if c == '}' {
        Some(TokenType::RBrace)
    } else if c == '-' {
        Some(TokenType::Minus)
    } else if c == '*' {
        Some(TokenType::Asterisk)
    } else if c == '/' {
        Some(TokenType::Slash)
    } else if c == '?' {
        Some(TokenType::Question)
    } else {
        None
    }
}

fn char_string(c: char) -> (r: String)
    ensures
        r@ == seq![c],
{
    let mut r = String::new();
    r.push(c);
    assert(r@ == seq![c]);
    r
}

fn two_char_string(a: char, b: char) -> (r: String)
    ensures
        r@ == seq![a, b],
{
    let mut r = String::new();
    r.push(a);
    r.push(b);
    assert(r@ == seq![a, b]);
    r
}

} // verus!

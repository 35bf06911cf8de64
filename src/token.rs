use vstd::prelude::*;

verus! {

/// Reserved words of the SQL dialect.
#[derive(Debug, PartialEq, Eq, Structural, Clone, Copy)]
pub enum Keyword {
    Select,
    Distinct,
    From,
    Where,
    As,
    And,
    Or,
    Not,
    Group,
    By,
    Order,
    Having,
    Limit,
    Offset,
    Join,
    Inner,
    Left,
    Right,
    Full,
    Outer,
    Cross,
    On,
    Insert,
    Into,
    Values,
    Update,
    Delete,
    Create,
    Table,
    Drop,
    Null,
    Is,
    In,
    Like,
    Between,
    Case,
    When,
    Then,
    Else,
    End,
    Asc,
    Desc,
    True,
    False,
    Cast,
    Extract,
    Year,
    Month,
    Day,
}

/// The category of a token.
#[derive(Debug, PartialEq, Eq, Structural, Clone, Copy)]
pub enum TokenType {
    /// End of input.
    EOF,
    /// A character, or an unterminated string, that no rule accepts.
    Illegal,
    Eq,
    NotEq,
    Bang,
    Lt,
    Lte,
    Gt,
    Gte,
    Semicolon,
    Colon,
    DoubleColon,
    Period,
    LParen,
    RParen,
    LBrace,
    RBrace,
    LSquareBrace,
    RSquareBrace,
    Comma,
    Plus,
    Minus,
    Asterisk,
    Slash,
    Question,
    String,
    Ident,
    Int,
    Float,
    Keyword(Keyword),
}

/// Where a token starts: the line index and the running column, both
/// counted from zero, and the text of the line that holds it.
#[derive(Debug, Clone)]
pub struct Location {
    pub line_str: String,
    pub line: usize,
    pub column: usize,
}

pub struct LocationView {
    pub line_text: Seq<char>,
    pub line: nat,
    pub column: nat,
}

impl View for Location {
    type V = LocationView;

    open spec fn view(&self) -> LocationView {
        LocationView { line_text: self.line_str@, line: self.line as nat, column: self.column as nat }
    }
}

/// A classified piece of the input.
#[derive(Debug, Clone)]
pub struct Token {
    pub token_type: TokenType,
    pub literal: String,
    pub location: Location,
}

pub struct TokenView {
    pub kind: TokenType,
    pub text: Seq<char>,
    pub location: LocationView,
}

impl View for Token {
    type V = TokenView;

    open spec fn view(&self) -> TokenView {
        TokenView { kind: self.token_type, text: self.literal@, location: self.location@ }
    }
}

impl Token {
    pub fn new(token_type: TokenType, literal: String, location: Location) -> (r: Token)
        ensures
            r.token_type == token_type,
            r.literal == literal,
            r.location == location,
    {
        Token { token_type, literal, location }
    }
}

/// Two letters are the same up to ASCII case; `upper` is an upper-case
/// letter, a digit or an underscore of a keyword's spelling.
pub open spec fn same_letter(c: char, upper: char) -> bool {
    c == upper || ('a' <= c <= 'z' && c as u32 == upper as u32 + 32)
}

/// `text` spells `word` when ASCII case is ignored.
pub open spec fn spelled(text: Seq<char>, word: Seq<char>) -> bool {
    &&& text.len() == word.len()
    &&& forall|k: int| 0 <= k < text.len() ==> same_letter(#[trigger] text[k], word[k])
}

fn spelled_as(text: &str, word: &str) -> (r: bool)
    ensures
        r == spelled(text@, word@),
{
    let n = word.unicode_len();
    if text.unicode_len() != n {
        return false;
    }
    let mut i: usize = 0;
    while i < n
        invariant
            n == word@.len(),
            text@.len() == n,
            i <= n,
            forall|k: int| 0 <= k < i ==> same_letter(#[trigger] text@[k], word@[k]),
        decreases n - i,
    {
        let c = text.get_char(i);
        let u = word.get_char(i);
        let same = c == u || ('a' <= c && c <= 'z' && c as u32 - 32 == u as u32);
        if !same {
            return false;
        }
        i = i + 1;
    }
    true
}

/// The reserved word that `text` spells, ignoring ASCII case.
pub open spec fn keyword_of(text: Seq<char>) -> Option<Keyword> {
    if spelled(text, "SELECT"@) {
        Some(Keyword::Select)
    } else if spelled(text, "DISTINCT"@) {
        Some(Keyword::Distinct)
    } else if spelled(text, "FROM"@) {
        Some(Keyword::From)
    } else if spelled(text, "WHERE"@) {
        Some(Keyword::Where)
    } else if spelled(text, "AS"@) {
        Some(Keyword::As)
    } else if spelled(text, "AND"@) {
        Some(Keyword::And)
    } else if spelled(text, "OR"@) {
        Some(Keyword::Or)
    } else if spelled(text, "NOT"@) {
        Some(Keyword::Not)
    } else if spelled(text, "GROUP"@) {
        Some(Keyword::Group)
    } else if spelled(text, "BY"@) {
        Some(Keyword::By)
    } else if spelled(text, "ORDER"@) {
        Some(Keyword::Order)
    } else if spelled(text, "HAVING"@) {
        Some(Keyword::Having)
    } else if spelled(text, "LIMIT"@) {
        Some(Keyword::Limit)
    } else if spelled(text, "OFFSET"@) {
        Some(Keyword::Offset)
    } else if spelled(text, "JOIN"@) {
        Some(Keyword::Join)
    } else if spelled(text, "INNER"@) {
        Some(Keyword::Inner)
    } else if spelled(text, "LEFT"@) {
        Some(Keyword::Left)
    } else if spelled(text, "RIGHT"@) {
        Some(Keyword::Right)
    } else if spelled(text, "FULL"@) {
        Some(Keyword::Full)
    } else if spelled(text, "OUTER"@) {
        Some(Keyword::Outer)
    } else if spelled(text, "CROSS"@) {
        Some(Keyword::Cross)
    } else if spelled(text, "ON"@) {
        Some(Keyword::On)
    } else if spelled(text, "INSERT"@) {
        Some(Keyword::Insert)
    } else if spelled(text, "INTO"@) {
        Some(Keyword::Into)
    } else if spelled(text, "VALUES"@) {
        Some(Keyword::Values)
    } else if spelled(text, "UPDATE"@) {
        Some(Keyword::Update)
    } else if spelled(text, "DELETE"@) {
        Some(Keyword::Delete)
    } else if spelled(text, "CREATE"@) {
        Some(Keyword::Create)
    } else if spelled(text, "TABLE"@) {
        Some(Keyword::Table)
    } else if spelled(text, "DROP"@) {
        Some(Keyword::Drop)
    } else if spelled(text, "NULL"@) {
        Some(Keyword::Null)
    } else if spelled(text, "IS"@) {
        Some(Keyword::Is)
    } else if spelled(text, "IN"@) {
        Some(Keyword::In)
    } else if spelled(text, "LIKE"@) {
        Some(Keyword::Like)
    } else if spelled(text, "BETWEEN"@) {
        Some(Keyword::Between)
    } else if spelled(text, "CASE"@) {
        Some(Keyword::Case)
    } else if spelled(text, "WHEN"@) {
        Some(Keyword::When)
    } else if spelled(text, "THEN"@) {
        Some(Keyword::Then)
    } else if spelled(text, "ELSE"@) {
        Some(Keyword::Else)
    } else if spelled(text, "END"@) {
        Some(Keyword::End)
    } else if spelled(text, "ASC"@) {
        Some(Keyword::Asc)
    } else if spelled(text, "DESC"@) {
        Some(Keyword::Desc)
    } else if spelled(text, "TRUE"@) {
        Some(Keyword::True)
    } else if spelled(text, "FALSE"@) {
        Some(Keyword::False)
    } else if spelled(text, "CAST"@) {
        Some(Keyword::Cast)
    } else if spelled(text, "EXTRACT"@) {
        Some(Keyword::Extract)
    } else if spelled(text, "YEAR"@) {
        Some(Keyword::Year)
    } else if spelled(text, "MONTH"@) {
        Some(Keyword::Month)
    } else if spelled(text, "DAY"@) {
        Some(Keyword::Day)
    } else {
        None
    }
}

/// The token type of a word: a keyword where the word spells one, an
/// identifier otherwise.
pub open spec fn word_type(text: Seq<char>) -> TokenType {
    match keyword_of(text) {
        Some(k) => TokenType::Keyword(k),
        None => TokenType::Ident,
    }
}

/// Looks a word up in the keyword table.
pub fn lookup_keyword(text: &str) -> (r: Option<Keyword>)
    ensures
        r == keyword_of(text@),
{
    if spelled_as(text, "SELECT") {
        Some(Keyword::Select)
    } else if spelled_as(text, "DISTINCT") {
        Some(Keyword::Distinct)
    } else if spelled_as(text, "FROM") {
        Some(Keyword::From)
    } else if spelled_as(text, "WHERE") {
        Some(Keyword::Where)
    } else if spelled_as(text, "AS") {
        Some(Keyword::As)
    } else if spelled_as(text, "AND") {
        Some(Keyword::And)
    } else if spelled_as(text, "OR") {
        Some(Keyword::Or)
    } else if spelled_as(text, "NOT") {
        Some(Keyword::Not)
    } else if spelled_as(text, "GROUP") {
        Some(Keyword::Group)
    } else if spelled_as(text, "BY") {
        Some(Keyword::By)
    } else if spelled_as(text, "ORDER") {
        Some(Keyword::Order)
    } else if spelled_as(text, "HAVING") {
        Some(Keyword::Having)
    } else if spelled_as(text, "LIMIT") {
        Some(Keyword::Limit)
    } else if spelled_as(text, "OFFSET") {
        Some(Keyword::Offset)
    } else if spelled_as(text, "JOIN") {
        Some(Keyword::Join)
    } else if spelled_as(text, "INNER") {
        Some(Keyword::Inner)
    } else if spelled_as(text, "LEFT") {
        Some(Keyword::Left)
    } else if spelled_as(text, "RIGHT") {
        Some(Keyword::Right)
    } else if spelled_as(text, "FULL") {
        Some(Keyword::Full)
    } else if spelled_as(text, "OUTER") {
        Some(Keyword::Outer)
    } else if spelled_as(text, "CROSS") {
        Some(Keyword::Cross)
    } else if spelled_as(text, "ON") {
        Some(Keyword::On)
    } else if spelled_as(text, "INSERT") {
        Some(Keyword::Insert)
    } else if spelled_as(text, "INTO") {
        Some(Keyword::Into)
    } else if spelled_as(text, "VALUES") {
        Some(Keyword::Values)
    } else if spelled_as(text, "UPDATE") {
        Some(Keyword::Update)
    } else if spelled_as(text, "DELETE") {
        Some(Keyword::Delete)
    } else if spelled_as(text, "CREATE") {
        Some(Keyword::Create)
    } else if spelled_as(text, "TABLE") {
        Some(Keyword::Table)
    } else if spelled_as(text, "DROP") {
        Some(Keyword::Drop)
    } else if spelled_as(text, "NULL") {
        Some(Keyword::Null)
    } else if spelled_as(text, "IS") {
        Some(Keyword::Is)
    } else if spelled_as(text, "IN") {
        Some(Keyword::In)
    } else if spelled_as(text, "LIKE") {
        Some(Keyword::Like)
    } else if spelled_as(text, "BETWEEN") {
        Some(Keyword::Between)
    } else if spelled_as(text, "CASE") {
        Some(Keyword::Case)
    } else if spelled_as(text, "WHEN") {
        Some(Keyword::When)
    } else if spelled_as(text, "THEN") {
        Some(Keyword::Then)
    } else if spelled_as(text, "ELSE") {
        Some(Keyword::Else)
    } else if spelled_as(text, "END") {
        Some(Keyword::End)
    } else if spelled_as(text, "ASC") {
        Some(Keyword::Asc)
    } else if spelled_as(text, "DESC") {
        Some(Keyword::Desc)
    } else if spelled_as(text, "TRUE") {
        Some(Keyword::True)
    } else if spelled_as(text, "FALSE") {
        Some(Keyword::False)
    } else if spelled_as(text, "CAST") {
        Some(Keyword::Cast)
    } else if spelled_as(text, "EXTRACT") {
        Some(Keyword::Extract)
    } else if spelled_as(text, "YEAR") {
        Some(Keyword::Year)
    } else if spelled_as(text, "MONTH") {
        Some(Keyword::Month)
    } else if spelled_as(text, "DAY") {
        Some(Keyword::Day)
    } else {
        None
    }
}

impl TokenType {
    /// Classifies a word as a keyword or an identifier.
    pub fn lookup_ident(text: &str) -> (r: TokenType)
        ensures
            r == word_type(text@),
    {
        match lookup_keyword(text) {
            Some(k) => TokenType::Keyword(k),
            None => TokenType::Ident,
        }
    }
}

} // verus!

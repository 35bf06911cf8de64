use qurious::lexer::Lexer;
use qurious::token::{Keyword, TokenType};

fn expect_all(input: &str, expected: Vec<(TokenType, &str)>) {
    let mut l = Lexer::new(input);
    for (expected_type, expected_literal) in expected {
        let tok = l.next();
        assert_eq!(tok.token_type, expected_type);
        assert_eq!(tok.literal, expected_literal);
    }
}

#[test]
fn test_float() {
    let input = "1.23";
    let mut l = Lexer::new(input);
    let tok = l.next();
    assert_eq!(tok.token_type, TokenType::Float);
    assert_eq!(tok.literal, "1.23");
}

#[test]
fn test_single_char_token() {
    let input = "=-+(){},;*/<>!?:";
    let tests = vec![
        (TokenType::Eq, "="),
        (TokenType::Minus, "-"),
        (TokenType::Plus, "+"),
        (TokenType::LParen, "("),
        (TokenType::RParen, ")"),
        (TokenType::LBrace, "{"),
        (TokenType::RBrace, "}"),
        (TokenType::Comma, ","),
        (TokenType::Semicolon, ";"),
        (TokenType::Asterisk, "*"),
        (TokenType::Slash, "/"),
        (TokenType::Lt, "<"),
        (TokenType::Gt, ">"),
        (TokenType::Bang, "!"),
        (TokenType::Question, "?"),
        (TokenType::Colon, ":"),
    ];
    let mut l = Lexer::new(input);
    for (expected_type, expected_literal) in tests {
        let tok = l.next();
        assert_eq!(tok.token_type, expected_type);
        assert_eq!(tok.literal, expected_literal);
    }
}

#[test]
fn test_two_char_token() {
    let input = "=!=<=>=::";
    let tests = vec![
        (TokenType::Eq, "="),
        (TokenType::NotEq, "!="),
        (TokenType::Lte, "<="),
        (TokenType::Gte, ">="),
        (TokenType::DoubleColon, "::"),
        (TokenType::EOF, ""),
    ];
    let mut l = Lexer::new(input);
    for (expected_type, expected_literal) in tests {
        let tok = l.next();
        assert_eq!(tok.token_type, expected_type);
        assert_eq!(tok.literal, expected_literal);
    }
}

#[test]
fn test_next_token() {
    let input = "select distinct * from users as u2 where id = ? and name = ? or age = 12 group by name limit 10;";
    let tests = vec![
        (TokenType::Keyword(Keyword::Select), "select"),
        (TokenType::Keyword(Keyword::Distinct), "distinct"),
        (TokenType::Asterisk, "*"),
        (TokenType::Keyword(Keyword::From), "from"),
        (TokenType::Ident, "users"),
        (TokenType::Keyword(Keyword::As), "as"),
        (TokenType::Ident, "u2"),
        (TokenType::Keyword(Keyword::Where), "where"),
        (TokenType::Ident, "id"),
        (TokenType::Eq, "="),
        (TokenType::Question, "?"),
        (TokenType::Keyword(Keyword::And), "and"),
        (TokenType::Ident, "name"),
        (TokenType::Eq, "="),
        (TokenType::Question, "?"),
        (TokenType::Keyword(Keyword::Or), "or"),
        (TokenType::Ident, "age"),
        (TokenType::Eq, "="),
        (TokenType::Int, "12"),
        (TokenType::Keyword(Keyword::Group), "group"),
        (TokenType::Keyword(Keyword::By), "by"),
        (TokenType::Ident, "name"),
        (TokenType::Keyword(Keyword::Limit), "limit"),
        (TokenType::Int, "10"),
        (TokenType::Semicolon, ";"),
        (TokenType::EOF, ""),
    ];
    let mut l = Lexer::new(input);
    for (expected_type, expected_literal) in tests {
        let tok = l.next();
        assert_eq!(tok.token_type, expected_type);
        assert_eq!(tok.literal, expected_literal);
    }
}

#[test]
fn test_extract_keyword() {
    let input = "EXTRACT(YEAR FROM date_column)";
    let expected = vec![
        (TokenType::Keyword(Keyword::Extract), "EXTRACT"),
        (TokenType::LParen, "("),
        (TokenType::Keyword(Keyword::Year), "YEAR"),
        (TokenType::Keyword(Keyword::From), "FROM"),
        (TokenType::Ident, "date_column"),
        (TokenType::RParen, ")"),
        (TokenType::EOF, ""),
    ];
    let mut l = Lexer::new(input);
    for (expected_type, expected_literal) in expected {
        let tok = l.next();
        assert_eq!(tok.token_type, expected_type);
        assert_eq!(tok.literal, expected_literal);
    }
}

#[test]
fn float_then_end_of_input() {
    expect_all("1.23", vec![(TokenType::Float, "1.23"), (TokenType::EOF, "")]);
}

#[test]
fn single_chars_then_end_of_input() {
    let mut l = Lexer::new("=-+(){},;*/<>!?:");
    for _ in 0..16 {
        l.next();
    }
    assert_eq!(l.next().token_type, TokenType::EOF);
}

#[test]
fn square_braces_and_period() {
    expect_all(
        "a.b[1]",
        vec![
            (TokenType::Ident, "a"),
            (TokenType::Period, "."),
            (TokenType::Ident, "b"),
            (TokenType::LSquareBrace, "["),
            (TokenType::Int, "1"),
            (TokenType::RSquareBrace, "]"),
            (TokenType::EOF, ""),
        ],
    );
}

#[test]
fn repeated_peek_returns_same_token() {
    let mut l = Lexer::new("  select x");
    let first = l.peek().unwrap().clone();
    let second = l.peek().unwrap().clone();
    let third = l.peek().unwrap().clone();
    assert_eq!(first.token_type, TokenType::Keyword(Keyword::Select));
    assert_eq!(first.literal, second.literal);
    assert_eq!(first.token_type, second.token_type);
    assert_eq!(first.location.column, second.location.column);
    assert_eq!(third.literal, "select");
    assert_eq!(third.location.column, 2);
}

#[test]
fn peek_then_next_agree() {
    let mut l = Lexer::new("a <= 3");
    let peeked = l.peek().unwrap().clone();
    let taken = l.next();
    assert_eq!(peeked.token_type, taken.token_type);
    assert_eq!(peeked.literal, taken.literal);
    assert_eq!(peeked.location.column, taken.location.column);
    assert_eq!(taken.literal, "a");
    let tok = l.next();
    assert_eq!(tok.token_type, TokenType::Lte);
    assert_eq!(tok.location.column, 2);
}

#[test]
fn end_of_input_is_stable() {
    let mut l = Lexer::new("x");
    assert_eq!(l.next().token_type, TokenType::Ident);
    for _ in 0..5 {
        let tok = l.next();
        assert_eq!(tok.token_type, TokenType::EOF);
        assert_eq!(tok.literal, "");
    }
    assert_eq!(l.peek().unwrap().token_type, TokenType::EOF);
}

#[test]
fn empty_input_gives_end_of_input() {
    let mut l = Lexer::new("");
    let tok = l.next();
    assert_eq!(tok.token_type, TokenType::EOF);
    assert_eq!(tok.location.line, 0);
    assert_eq!(tok.location.column, 0);
    assert_eq!(tok.location.line_str, "");
}

#[test]
fn literals_match_input_text() {
    let input = "ab_1 >= 'q r' 7.5";
    let mut l = Lexer::new(input);
    let chars: Vec<char> = input.chars().collect();
    let a = l.next();
    assert_eq!(a.literal, "ab_1");
    assert_eq!(a.location.column, 0);
    let b = l.next();
    assert_eq!(b.literal, ">=");
    assert_eq!(b.location.column, 5);
    let c = l.next();
    assert_eq!(c.token_type, TokenType::String);
    assert_eq!(c.literal, "q r");
    let inner: String = chars[c.location.column + 1..c.location.column + 4].iter().collect();
    assert_eq!(c.literal, inner);
    let d = l.next();
    assert_eq!(d.token_type, TokenType::Float);
    assert_eq!(d.literal, "7.5");
    assert_eq!(d.location.column, 14);
}

#[test]
fn comment_lines_are_skipped() {
    expect_all(
        "-- first\n-- second\nselect -- trailing\n1 - 2 --",
        vec![
            (TokenType::Keyword(Keyword::Select), "select"),
            (TokenType::Int, "1"),
            (TokenType::Minus, "-"),
            (TokenType::Int, "2"),
            (TokenType::EOF, ""),
        ],
    );
}

#[test]
fn many_comment_lines_are_skipped() {
    let mut input = String::new();
    for _ in 0..20000 {
        input.push_str("-- note\n");
    }
    input.push_str("x");
    expect_all(&input, vec![(TokenType::Ident, "x"), (TokenType::EOF, "")]);
}

#[test]
fn unterminated_string_is_illegal() {
    let mut l = Lexer::new("'abc");
    let tok = l.next();
    assert_eq!(tok.token_type, TokenType::Illegal);
    assert_eq!(tok.literal, "'");
    assert_eq!(tok.location.column, 0);
    assert_eq!(l.next().token_type, TokenType::EOF);
}

#[test]
fn unknown_character_is_illegal() {
    expect_all(
        "a # _b",
        vec![
            (TokenType::Ident, "a"),
            (TokenType::Illegal, "#"),
            (TokenType::Illegal, "_"),
            (TokenType::Ident, "b"),
            (TokenType::EOF, ""),
        ],
    );
}

#[test]
fn second_decimal_point_ends_number() {
    expect_all(
        "1.2.3",
        vec![
            (TokenType::Float, "1.2"),
            (TokenType::Period, "."),
            (TokenType::Int, "3"),
            (TokenType::EOF, ""),
        ],
    );
}

#[test]
fn colon_does_not_swallow_next_character() {
    expect_all(
        ":a",
        vec![(TokenType::Colon, ":"), (TokenType::Ident, "a"), (TokenType::EOF, "")],
    );
}

#[test]
fn keywords_ignore_case() {
    expect_all(
        "SeLeCt Selection",
        vec![
            (TokenType::Keyword(Keyword::Select), "SeLeCt"),
            (TokenType::Ident, "Selection"),
        ],
    );
}

#[test]
fn locations_track_lines() {
    let mut l = Lexer::new("a\r\n  bc\nd");
    let a = l.next();
    assert_eq!((a.location.line, a.location.column), (0, 0));
    assert_eq!(a.location.line_str, "a");
    let bc = l.next();
    assert_eq!((bc.location.line, bc.location.column), (1, 5));
    assert_eq!(bc.location.line_str, "  bc");
    let d = l.next();
    assert_eq!((d.location.line, d.location.column), (2, 8));
    assert_eq!(d.location.line_str, "d");
    let here = l.location();
    assert_eq!((here.line, here.column), (2, 9));
}

#[test]
fn cursor_location_before_scanning() {
    let l = Lexer::new("x\ny");
    let here = l.location();
    assert_eq!((here.line, here.column), (0, 0));
    assert_eq!(here.line_str, "x");
}

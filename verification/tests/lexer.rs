use slang::lexer::{LexError, Lexer};
use slang::token::TokenType;

/// Scans a whole source, collecting tokens up to and including the
/// end-of-stream token. Panics on a lexical error.
fn scan_all(src: &str) -> Vec<TokenType> {
    let mut lex = Lexer::new(Some(src)).unwrap();
    let mut out = Vec::new();
    loop {
        match lex.next() {
            Ok(tok) => {
                let done = tok == TokenType::EOF;
                out.push(tok);
                if done {
                    return out;
                }
            }
            Err(e) => panic!("unexpected lexical error: {:?}", e),
        }
    }
}

#[test]
fn none_input_source() {
    assert!(Lexer::new(None).is_err())
}

#[test]
fn empty_input_source() {
    const INPUT_SRC: &str = "";
    let lexer = Lexer::new(Some(INPUT_SRC));
    assert!(lexer.is_ok());

    let tok = lexer.unwrap().next();
    assert!(tok.is_ok());
    assert_eq!(TokenType::EOF, tok.unwrap())
}

#[test]
fn next_token() {
    const INPUT: &str = "let five = 5;
let ten = 10;
let add = fn(x, y) {
    x + y;
}

let result = add(five, ten);
!-/*5;
5 < 10 > 5;

if (5 < 10) {
    return true;
} else {
    return false;
}

10 == 10;
10 != 9;
let n = -10;";

    let tests = vec![
        TokenType::LET("let".to_string()),
        TokenType::IDENT("five".to_string()),
        TokenType::ASSIGN('='),
        TokenType::INT(5),
        TokenType::SEMICOLON(';'),
        TokenType::LET("let".to_string()),
        TokenType::IDENT("ten".to_string()),
        TokenType::ASSIGN('='),
        TokenType::INT(10),
        TokenType::SEMICOLON(';'),
        TokenType::LET("let".to_string()),
        TokenType::IDENT("add".to_string()),
        TokenType::ASSIGN('='),
        TokenType::FUNCTION("fn".to_string()),
        TokenType::LPAREN('('),
        TokenType::IDENT("x".to_string()),
        TokenType::COMMA(','),
        TokenType::IDENT("y".to_string()),
        TokenType::RPAREN(')'),
        TokenType::LBRACE('{'),
        TokenType::IDENT("x".to_string()),
        TokenType::PLUS('+'),
        TokenType::IDENT("y".to_string()),
        TokenType::SEMICOLON(';'),
        TokenType::RBRACE('}'),
        TokenType::LET("let".to_string()),
        TokenType::IDENT("result".to_string()),
        TokenType::ASSIGN('='),
        TokenType::IDENT("add".to_string()),
        TokenType::LPAREN('('),
        TokenType::IDENT("five".to_string()),
        TokenType::COMMA(','),
        TokenType::IDENT("ten".to_string()),
        TokenType::RPAREN(')'),
        TokenType::SEMICOLON(';'),
        TokenType::BANG('!'),
        TokenType::MINUS('-'),
        TokenType::SLASH('/'),
        TokenType::ASTERISK('*'),
        TokenType::INT(5),
        TokenType::SEMICOLON(';'),
        TokenType::INT(5),
        TokenType::LT('<'),
        TokenType::INT(10),
        TokenType::GT('>'),
        TokenType::INT(5),
        TokenType::SEMICOLON(';'),
        TokenType::IF("if".to_string()),
        TokenType::LPAREN('('),
        TokenType::INT(5),
        TokenType::LT('<'),
        TokenType::INT(10),
        TokenType::RPAREN(')'),
        TokenType::LBRACE('{'),
        TokenType::RETURN("return".to_string()),
        TokenType::TRUE,
        TokenType::SEMICOLON(';'),
        TokenType::RBRACE('}'),
        TokenType::ELSE("else".to_string()),
        TokenType::LBRACE('{'),
        TokenType::RETURN("return".to_string()),
        TokenType::FALSE,
        TokenType::SEMICOLON(';'),
        TokenType::RBRACE('}'),
        TokenType::INT(10),
        TokenType::EQ(['=', '=']),
        TokenType::INT(10),
        TokenType::SEMICOLON(';'),
        TokenType::INT(10),
        TokenType::NOTEQ(['!', '=']),
        TokenType::INT(9),
        TokenType::SEMICOLON(';'),
        TokenType::LET("let".to_string()),
        TokenType::IDENT("n".to_string()),
        TokenType::ASSIGN('='),
        TokenType::INT(-10),
        TokenType::SEMICOLON(';'),
        TokenType::EOF,
    ];

    let mut lex = Lexer::new(Some(INPUT)).unwrap();
    for (i, test_token) in tests.iter().enumerate() {
        match lex.next() {
            Ok(tok) => assert_eq!(
                test_token, &tok,
                "test case {}: line {}, column {}",
                i,
                lex.token_line(),
                lex.token_column()
            ),
            Err(e) => panic!("test case {}: unexpected error {:?}", i, e),
        }
    }
}

#[test]
fn single_character_tokens() {
    let cases = vec![
        ("=", TokenType::ASSIGN('=')),
        ("+", TokenType::PLUS('+')),
        ("-", TokenType::MINUS('-')),
        ("!", TokenType::BANG('!')),
        ("*", TokenType::ASTERISK('*')),
        ("/", TokenType::SLASH('/')),
        ("<", TokenType::LT('<')),
        (">", TokenType::GT('>')),
        (",", TokenType::COMMA(',')),
        (";", TokenType::SEMICOLON(';')),
        ("(", TokenType::LPAREN('(')),
        (")", TokenType::RPAREN(')')),
        ("{", TokenType::LBRACE('{')),
        ("}", TokenType::RBRACE('}')),
    ];
    for (src, expected) in cases {
        assert_eq!(scan_all(src), vec![expected, TokenType::EOF], "source {:?}", src);
    }
}

#[test]
fn two_character_tokens() {
    assert_eq!(scan_all("=="), vec![TokenType::EQ(['=', '=']), TokenType::EOF]);
    assert_eq!(scan_all("!="), vec![TokenType::NOTEQ(['!', '=']), TokenType::EOF]);
}

#[test]
fn exhaustion_is_idempotent() {
    let mut lex = Lexer::new(Some("x")).unwrap();
    assert_eq!(lex.next(), Ok(TokenType::IDENT("x".to_string())));
    assert_eq!(lex.next(), Ok(TokenType::EOF));
    assert_eq!(lex.next(), Ok(TokenType::EOF));
    assert_eq!(lex.next(), Ok(TokenType::EOF));
}

#[test]
fn whitespace_is_skipped() {
    assert_eq!(
        scan_all(" \t\r\n   5   \n\n\t ;\r\n"),
        vec![TokenType::INT(5), TokenType::SEMICOLON(';'), TokenType::EOF]
    );
    assert_eq!(scan_all("   \t \r\n  "), vec![TokenType::EOF]);
}

#[test]
fn line_and_column_tracking() {
    let mut lex = Lexer::new(Some("a\nb")).unwrap();
    assert_eq!(lex.next(), Ok(TokenType::IDENT("a".to_string())));
    assert_eq!(lex.token_line(), 1);
    assert_eq!(lex.token_column(), 1);
    assert_eq!(lex.next(), Ok(TokenType::IDENT("b".to_string())));
    assert_eq!(lex.token_line(), 2);
    assert_eq!(lex.token_column(), 1);
}

#[test]
fn signed_literal_fusion() {
    assert_eq!(
        scan_all("let n = -10;"),
        vec![
            TokenType::LET("let".to_string()),
            TokenType::IDENT("n".to_string()),
            TokenType::ASSIGN('='),
            TokenType::INT(-10),
            TokenType::SEMICOLON(';'),
            TokenType::EOF,
        ]
    );
    // A minus with a space before the digit stays a standalone operator.
    assert_eq!(
        scan_all("5 - 3"),
        vec![TokenType::INT(5), TokenType::MINUS('-'), TokenType::INT(3), TokenType::EOF]
    );
    // Without the space the sign is fused into the literal.
    assert_eq!(
        scan_all("5 -3"),
        vec![TokenType::INT(5), TokenType::INT(-3), TokenType::EOF]
    );
}

#[test]
fn end_to_end_program() {
    assert_eq!(
        scan_all("let five = 5;\nlet add = fn(x, y) { x + y; }"),
        vec![
            TokenType::LET("let".to_string()),
            TokenType::IDENT("five".to_string()),
            TokenType::ASSIGN('='),
            TokenType::INT(5),
            TokenType::SEMICOLON(';'),
            TokenType::LET("let".to_string()),
            TokenType::IDENT("add".to_string()),
            TokenType::ASSIGN('='),
            TokenType::FUNCTION("fn".to_string()),
            TokenType::LPAREN('('),
            TokenType::IDENT("x".to_string()),
            TokenType::COMMA(','),
            TokenType::IDENT("y".to_string()),
            TokenType::RPAREN(')'),
            TokenType::LBRACE('{'),
            TokenType::IDENT("x".to_string()),
            TokenType::PLUS('+'),
            TokenType::IDENT("y".to_string()),
            TokenType::SEMICOLON(';'),
            TokenType::RBRACE('}'),
            TokenType::EOF,
        ]
    );
}

#[test]
fn malformed_literal_second_sign() {
    let mut lex = Lexer::new(Some("1--2")).unwrap();
    assert_eq!(
        lex.next(),
        Err(LexError::LexicalError { character: '-', line: 1, column: 2 })
    );
    // Scanning continues past the offending character.
    assert_eq!(lex.next(), Ok(TokenType::INT(-2)));
    assert_eq!(lex.next(), Ok(TokenType::EOF));
}

#[test]
fn unrecognized_character_is_an_error() {
    let mut lex = Lexer::new(Some("a\n  @ b")).unwrap();
    assert_eq!(lex.next(), Ok(TokenType::IDENT("a".to_string())));
    assert_eq!(
        lex.next(),
        Err(LexError::LexicalError { character: '@', line: 2, column: 3 })
    );
    assert_eq!(lex.next(), Ok(TokenType::IDENT("b".to_string())));
    assert_eq!(lex.next(), Ok(TokenType::EOF));
}

#[test]
fn invalid_source_error_value() {
    match Lexer::new(None) {
        Err(e) => assert_eq!(e, LexError::InvalidSource),
        Ok(_) => panic!("a missing source must be rejected"),
    }
}

#[test]
fn extreme_integer_literals() {
    assert_eq!(
        scan_all("9223372036854775807"),
        vec![TokenType::INT(i64::MAX), TokenType::EOF]
    );
    assert_eq!(
        scan_all("-9223372036854775808"),
        vec![TokenType::INT(i64::MIN), TokenType::EOF]
    );
}

#[test]
fn overflowing_literal_is_an_error() {
    let mut lex = Lexer::new(Some("9223372036854775808")).unwrap();
    assert_eq!(
        lex.next(),
        Err(LexError::LexicalError { character: '8', line: 1, column: 19 })
    );
    let mut lex = Lexer::new(Some("-9223372036854775809")).unwrap();
    assert_eq!(
        lex.next(),
        Err(LexError::LexicalError { character: '9', line: 1, column: 20 })
    );
}

#[test]
fn identifiers_with_digits_and_underscores() {
    assert_eq!(
        scan_all("foo_bar x1 _tmp"),
        vec![
            TokenType::IDENT("foo_bar".to_string()),
            TokenType::IDENT("x1".to_string()),
            TokenType::IDENT("_tmp".to_string()),
            TokenType::EOF,
        ]
    );
}

//! The token model: a closed set of token variants with their lexemes,
//! keyword recognition, and rendering to text.

use vstd::prelude::*;

verus! {

/// A classified token. Each variant is self-describing: no token needs
/// lookahead into its neighbours to be interpreted.
#[derive(Debug, PartialEq, Clone)]
pub enum TokenType {
    EOF,
    IDENT(String),
    INT(i64),
    ASSIGN(char),
    PLUS(char),
    MINUS(char),
    BANG(char),
    ASTERISK(char),
    SLASH(char),
    LT(char),
    GT(char),
    EQ([char; 2]),
    NOTEQ([char; 2]),
    COMMA(char),
    SEMICOLON(char),
    LPAREN(char),
    RPAREN(char),
    LBRACE(char),
    RBRACE(char),
    FUNCTION(String),
    LET(String),
    TRUE,
    FALSE,
    IF(String),
    ELSE(String),
    RETURN(String),
}

/// The abstract value of a token: payloads are mathematical sequences and
/// integers, and operator variants carry nothing, since their spelling is
/// fixed. Contracts and laws speak of this type.
pub enum Tok {
    Eof,
    Ident(Seq<char>),
    Int(int),
    Assign,
    Plus,
    Minus,
    Bang,
    Asterisk,
    Slash,
    Lt,
    Gt,
    Eq,
    NotEq,
    Comma,
    Semicolon,
    LParen,
    RParen,
    LBrace,
    RBrace,
    Function,
    Let,
    True,
    False,
    If,
    Else,
    Return,
}

impl View for TokenType {
    type V = Tok;

    open spec fn view(&self) -> Tok {
        match self {
            TokenType::EOF => Tok::Eof,
            TokenType::IDENT(s) => Tok::Ident(s@),
            TokenType::INT(n) => Tok::Int(*n as int),
            TokenType::ASSIGN(_) => Tok::Assign,
            TokenType::PLUS(_) => Tok::Plus,
            TokenType::MINUS(_) => Tok::Minus,
            TokenType::BANG(_) => Tok::Bang,
            TokenType::ASTERISK(_) => Tok::Asterisk,
            TokenType::SLASH(_) => Tok::Slash,
            TokenType::LT(_) => Tok::Lt,
            TokenType::GT(_) => Tok::Gt,
            TokenType::EQ(_) => Tok::Eq,
            TokenType::NOTEQ(_) => Tok::NotEq,
            TokenType::COMMA(_) => Tok::Comma,
            TokenType::SEMICOLON(_) => Tok::Semicolon,
            TokenType::LPAREN(_) => Tok::LParen,
            TokenType::RPAREN(_) => Tok::RParen,
            TokenType::LBRACE(_) => Tok::LBrace,
            TokenType::RBRACE(_) => Tok::RBrace,
            TokenType::FUNCTION(_) => Tok::Function,
            TokenType::LET(_) => Tok::Let,
            TokenType::TRUE => Tok::True,
            TokenType::FALSE => Tok::False,
            TokenType::IF(_) => Tok::If,
            TokenType::ELSE(_) => Tok::Else,
            TokenType::RETURN(_) => Tok::Return,
        }
    }
}

impl TokenType {
    /// A well-formed token carries exactly the lexeme its variant stands
    /// for: operators their literal characters, keywords their spelling.
    pub open spec fn wf(self) -> bool {
        match self {
            TokenType::ASSIGN(c) => c == '=',
            TokenType::PLUS(c) => c == '+',
            TokenType::MINUS(c) => c == '-',
            TokenType::BANG(c) => c == '!',
            TokenType::ASTERISK(c) => c == '*',
            TokenType::SLASH(c) => c == '/',
            TokenType::LT(c) => c == '<',
            TokenType::GT(c) => c == '>',
            TokenType::COMMA(c) => c == ',',
            TokenType::SEMICOLON(c) => c == ';',
            TokenType::LPAREN(c) => c == '(',
            TokenType::RPAREN(c) => c == ')',
            TokenType::LBRACE(c) => c == '{',
            TokenType::RBRACE(c) => c == '}',
            TokenType::EQ(cs) => cs@ == seq!['=', '='],
            TokenType::NOTEQ(cs) => cs@ == seq!['!', '='],
            TokenType::FUNCTION(s) => s@ == "fn"@,
            TokenType::LET(s) => s@ == "let"@,
            TokenType::IF(s) => s@ == "if"@,
            TokenType::ELSE(s) => s@ == "else"@,
            TokenType::RETURN(s) => s@ == "return"@,
            _ => true,
        }
    }
}

/// The classification of a letter-run: the matching keyword where the run
/// spells one, an identifier wrapping the run otherwise.
pub open spec fn classify(s: Seq<char>) -> Tok {
    if s == "fn"@ {
        Tok::Function
    } else if s == "let"@ {
        Tok::Let
    } else if s == "true"@ {
        Tok::True
    } else if s == "false"@ {
        Tok::False
    } else if s == "if"@ {
        Tok::If
    } else if s == "else"@ {
        Tok::Else
    } else if s == "return"@ {
        Tok::Return
    } else {
        Tok::Ident(s)
    }
}

/// The character for a single decimal digit.
pub open spec fn digit_char(d: nat) -> char {
    if d == 0 {
        '0'
    } else if d == 1 {
        '1'
    } else if d == 2 {
        '2'
    } else if d == 3 {
        '3'
    } else if d == 4 {
        '4'
    } else if d == 5 {
        '5'
    } else if d == 6 {
        '6'
    } else if d == 7 {
        '7'
    } else if d == 8 {
        '8'
    } else {
        '9'
    }
}

/// The decimal digit string of a natural number, most significant digit
/// first.
pub open spec fn dec_digits(n: nat) -> Seq<char>
    decreases n,
{
    if n < 10 {
        seq![digit_char(n)]
    } else {
        dec_digits(n / 10).push(digit_char(n % 10))
    }
}

/// The canonical decimal string of an integer: a minus sign for negative
/// values, then the digits of the magnitude.
pub open spec fn dec_str(n: int) -> Seq<char> {
    if n < 0 {
        seq!['-'] + dec_digits((-n) as nat)
    } else {
        dec_digits(n as nat)
    }
}

/// The canonical textual form of a token: literal characters for
/// operators and punctuation, the stored name for identifiers, the
/// decimal string for integers, the keyword spelling for keywords, and
/// the empty string for end-of-stream.
pub open spec fn render_spec(t: Tok) -> Seq<char> {
    match t {
        Tok::Eof => Seq::<char>::empty(),
        Tok::Ident(s) => s,
        Tok::Int(n) => dec_str(n),
        Tok::Assign => "="@,
        Tok::Plus => "+"@,
        Tok::Minus => "-"@,
        Tok::Bang => "!"@,
        Tok::Asterisk => "*"@,
        Tok::Slash => "/"@,
        Tok::Lt => "<"@,
        Tok::Gt => ">"@,
        Tok::Eq => "=="@,
        Tok::NotEq => "!="@,
        Tok::Comma => ","@,
        Tok::Semicolon => ";"@,
        Tok::LParen => "("@,
        Tok::RParen => ")"@,
        Tok::LBrace => "{"@,
        Tok::RBrace => "}"@,
        Tok::Function => "fn"@,
        Tok::Let => "let"@,
        Tok::True => "true"@,
        Tok::False => "false"@,
        Tok::If => "if"@,
        Tok::Else => "else"@,
        Tok::Return => "return"@,
    }
}

/// The one-character text of a decimal digit.
fn digit_str(d: u64) -> (r: &'static str)
    requires
        d < 10,
    ensures
        r@ == seq![digit_char(d as nat)],
{
    let r: &'static str = if d == 0 {
        "0"
    } else if d == 1 {
        "1"
    } else if d == 2 {
        "2"
    } else if d == 3 {
        "3"
    } else if d == 4 {
        "4"
    } else if d == 5 {
        "5"
    } else if d == 6 {
        "6"
    } else if d == 7 {
        "7"
    } else if d == 8 {
        "8"
    } else {
        "9"
    };
    proof {
        reveal_strlit("0");
        reveal_strlit("1");
        reveal_strlit("2");
        reveal_strlit("3");
        reveal_strlit("4");
        reveal_strlit("5");
        reveal_strlit("6");
        reveal_strlit("7");
        reveal_strlit("8");
        reveal_strlit("9");
        assert(r@ =~= seq![digit_char(d as nat)]);
    }
    r
}

/// The decimal digit string of a 64-bit natural number.
fn dec_of(m: u64) -> (r: String)
    ensures
        r@ == dec_digits(m as nat),
    decreases m,
{
    if m < 10 {
        String::from_str(digit_str(m))
    } else {
        proof {
            assert(m / 10 < m) by (nonlinear_arith)
                requires
                    m >= 10,
            ;
        }
        let mut s = dec_of(m / 10);
        s.append(digit_str(m % 10));
        proof {
            assert(dec_digits((m / 10) as nat) + seq![digit_char((m % 10) as nat)] =~= dec_digits(
                (m / 10) as nat,
            ).push(digit_char((m % 10) as nat)));
        }
        s
    }
}

/// The canonical decimal text of a signed 64-bit integer.
fn int_to_text(n: i64) -> (r: String)
    ensures
        r@ == dec_str(n as int),
{
    if n >= 0 {
        dec_of(n as u64)
    } else {
        let m: u64 = if n == i64::MIN {
            0x8000_0000_0000_0000
        } else {
            (-n) as u64
        };
        let mut s = String::from_str("-");
        let digits = dec_of(m);
        s.append(digits.as_str());
        proof {
            reveal_strlit("-");
            assert("-"@ + dec_digits(m as nat) =~= seq!['-'] + dec_digits(m as nat));
        }
        s
    }
}

/// Character-by-character string comparison, proved equivalent to equality
/// of the views.
fn str_eq(a: &str, b: &str) -> (r: bool)
    ensures
        r == (a@ == b@),
{
    let a_len = a.unicode_len();
    let b_len = b.unicode_len();
    if a_len != b_len {
        proof {
            assert(a@ != b@) by {
                assert(a@.len() != b@.len());
            }
        }
        return false;
    }
    let mut i: usize = 0;
    while i < a_len
        invariant
            a_len == a@.len(),
            b_len == b@.len(),
            a_len == b_len,
            i <= a_len,
            forall|j: int| 0 <= j < i ==> a@[j] == b@[j],
        decreases a_len - i,
    {
        if a.get_char(i) != b.get_char(i) {
            return false;
        }
        i += 1;
    }
    proof {
        assert(a@ =~= b@);
    }
    true
}

impl TokenType {
    /// Given a letter/digit/underscore run, returns the matching keyword
    /// token where the run equals one of the keywords, and an identifier
    /// token wrapping the run otherwise. Total: always returns a token.
    pub fn create_keyword(s: &str) -> (r: Option<TokenType>)
        ensures
            r matches Some(t) && t@ == classify(s@) && t.wf(),
    {
        if str_eq(s, "fn") {
            Some(TokenType::FUNCTION(String::from_str(s)))
        } else if str_eq(s, "let") {
            Some(TokenType::LET(String::from_str(s)))
        } else if str_eq(s, "true") {
            Some(TokenType::TRUE)
        } else if str_eq(s, "false") {
            Some(TokenType::FALSE)
        } else if str_eq(s, "if") {
            Some(TokenType::IF(String::from_str(s)))
        } else if str_eq(s, "else") {
            Some(TokenType::ELSE(String::from_str(s)))
        } else if str_eq(s, "return") {
            Some(TokenType::RETURN(String::from_str(s)))
        } else {
            Some(TokenType::IDENT(String::from_str(s)))
        }
    }

    /// Renders the token in its canonical textual form, for diagnostics
    /// and REPL echo.
    pub fn render(&self) -> (r: String)
        ensures
            r@ == render_spec(self@),
    {
        match self {
            TokenType::EOF => String::new(),
            TokenType::IDENT(s) => s.clone(),
            TokenType::INT(n) => int_to_text(*n),
            TokenType::ASSIGN(_) => String::from_str("="),
            TokenType::PLUS(_) => String::from_str("+"),
            TokenType::MINUS(_) => String::from_str("-"),
            TokenType::BANG(_) => String::from_str("!"),
            TokenType::ASTERISK(_) => String::from_str("*"),
            TokenType::SLASH(_) => String::from_str("/"),
            TokenType::LT(_) => String::from_str("<"),
            TokenType::GT(_) => String::from_str(">"),
            TokenType::EQ(_) => String::from_str("=="),
            TokenType::NOTEQ(_) => String::from_str("!="),
            TokenType::COMMA(_) => String::from_str(","),
            TokenType::SEMICOLON(_) => String::from_str(";"),
            TokenType::LPAREN(_) => String::from_str("("),
            TokenType::RPAREN(_) => String::from_str(")"),
            TokenType::LBRACE(_) => String::from_str("{"),
            TokenType::RBRACE(_) => String::from_str("}"),
            TokenType::FUNCTION(_) => String::from_str("fn"),
            TokenType::LET(_) => String::from_str("let"),
            TokenType::TRUE => String::from_str("true"),
            TokenType::FALSE => String::from_str("false"),
            TokenType::IF(_) => String::from_str("if"),
            TokenType::ELSE(_) => String::from_str("else"),
            TokenType::RETURN(_) => String::from_str("return"),
        }
    }
}

} // verus!

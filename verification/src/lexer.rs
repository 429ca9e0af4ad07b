//! The scanner: owns the source text and a cursor, and produces one token
//! per call of `next`, with 1-based line and column tracking.

use vstd::prelude::*;

use crate::scan::{
    col_at, ident_end, is_digit_char, is_ident_char, is_letter_char, is_whitespace_char,
    lemma_position_bounds, line_at, neg_limit, pos_limit, scan_digits, scan_number, step_at,
    ws_end, NumScan, Step,
};
use crate::token::TokenType;

verus! {

/// The errors the lexer reports.
#[derive(Debug, PartialEq, Eq, Structural, Clone, Copy)]
pub enum LexError {
    /// Construction was given no source text at all.
    InvalidSource,
    /// A character could not be classified into any token, or a numeric
    /// literal was malformed. Carries the offending character and its
    /// 1-based position.
    LexicalError { character: char, line: usize, column: usize },
}

/// The scanner. Construct one per source text with [`Lexer::new`], then
/// call [`Lexer::next`] until it returns the end-of-stream token.
#[derive(Debug)]
pub struct Lexer {
    input: String,
    length: usize,
    position: usize,
    line_number: usize,
    column: usize,
    token_line: usize,
    token_column: usize,
}

impl Lexer {
    /// The source text being scanned, as a sequence of characters.
    pub closed spec fn src(self) -> Seq<char> {
        self.input@
    }

    /// The cursor: how many characters have been consumed.
    pub closed spec fn cursor(self) -> int {
        self.position as int
    }

    /// The line on which the most recently produced token began.
    pub closed spec fn tok_line(self) -> int {
        self.token_line as int
    }

    /// The column at which the most recently produced token began.
    pub closed spec fn tok_col(self) -> int {
        self.token_column as int
    }

    /// Internal consistency: the cursor stays within the text and the
    /// line/column fields track exactly the consumed prefix.
    pub closed spec fn wf(self) -> bool {
        &&& 0 <= self.cursor() <= self.src().len()
        &&& self.src().len() < usize::MAX
        &&& self.length == self.src().len()
        &&& self.line_number == line_at(self.src(), self.cursor())
        &&& self.column == col_at(self.src(), self.cursor())
    }

    /// Builds a scanner over the given source. No source at all is
    /// rejected with `InvalidSource`; an empty string is a valid source
    /// that yields a single end-of-stream token. The source must hold
    /// fewer characters than the address space can count, so that the
    /// column of every position is representable.
    pub fn new(input: Option<&str>) -> (r: Result<Lexer, LexError>)
        requires
            input matches Some(s) ==> s@.len() < usize::MAX,
        ensures
            match r {
                Ok(lex) => {
                    &&& input matches Some(s) && lex.src() == s@
                    &&& lex.wf()
                    &&& lex.cursor() == 0
                    &&& lex.tok_line() == 1
                    &&& lex.tok_col() == 1
                },
                Err(e) => input is None && e == LexError::InvalidSource,
            },
    {
        match input {
            None => Err(LexError::InvalidSource),
            Some(s) => {
                let length = s.unicode_len();
                Ok(Lexer {
                    input: String::from_str(s),
                    length,
                    position: 0,
                    line_number: 1,
                    column: 1,
                    token_line: 1,
                    token_column: 1,
                })
            },
        }
    }

    /// The character under the cursor.
    fn current_char(&self) -> (c: char)
        requires
            self.wf(),
            self.cursor() < self.src().len(),
        ensures
            c == self.src()[self.cursor()],
    {
        self.input.as_str().get_char(self.position)
    }

    /// One character of lookahead: the character after the one under the
    /// cursor, or the end-of-input sentinel.
    fn peek_char(&self) -> (c: char)
        requires
            self.wf(),
            self.cursor() < self.src().len(),
        ensures
            self.cursor() + 1 < self.src().len() ==> c == self.src()[self.cursor() + 1],
            self.cursor() + 1 >= self.src().len() ==> c == '\0',
    {
        if self.position + 1 < self.length {
            self.input.as_str().get_char(self.position + 1)
        } else {
            '\0'
        }
    }

    /// Consumes one character, advancing the cursor and the line/column
    /// tracking: a newline moves to the next line's first column, any
    /// other character moves one column to the right.
    fn read_char(&mut self)
        requires
            old(self).wf(),
            old(self).cursor() < old(self).src().len(),
        ensures
            final(self).wf(),
            final(self).src() == old(self).src(),
            final(self).cursor() == old(self).cursor() + 1,
            final(self).tok_line() == old(self).tok_line(),
            final(self).tok_col() == old(self).tok_col(),
    {
        proof {
            lemma_position_bounds(self.src(), self.cursor());
        }
        let c = self.current_char();
        if c == '\n' {
            self.line_number = self.line_number + 1;
            self.column = 1;
        } else {
            self.column = self.column + 1;
        }
        self.position = self.position + 1;
    }

    /// Consumes the maximal run of whitespace under the cursor.
    fn skip_whitespace(&mut self)
        requires
            old(self).wf(),
        ensures
            final(self).wf(),
            final(self).src() == old(self).src(),
            final(self).cursor() == ws_end(old(self).src(), old(self).cursor()),
            final(self).tok_line() == old(self).tok_line(),
            final(self).tok_col() == old(self).tok_col(),
    {
        while self.position < self.length && is_whitespace(self.input.as_str().get_char(
            self.position,
        ))
            invariant
                self.wf(),
                self.src() == old(self).src(),
                ws_end(self.src(), self.cursor()) == ws_end(old(self).src(), old(self).cursor()),
                self.tok_line() == old(self).tok_line(),
                self.tok_col() == old(self).tok_col(),
            decreases self.src().len() - self.cursor(),
        {
            self.read_char();
        }
    }

    /// Consumes the maximal run of identifier characters under the cursor
    /// and returns it as text.
    fn get_identifier(&mut self) -> (r: String)
        requires
            old(self).wf(),
        ensures
            final(self).wf(),
            final(self).src() == old(self).src(),
            final(self).cursor() == ident_end(old(self).src(), old(self).cursor()),
            r@ == old(self).src().subrange(
                old(self).cursor(),
                ident_end(old(self).src(), old(self).cursor()),
            ),
            final(self).tok_line() == old(self).tok_line(),
            final(self).tok_col() == old(self).tok_col(),
    {
        let start = self.position;
        while self.position < self.length && is_ident_part(self.input.as_str().get_char(
            self.position,
        ))
            invariant
                self.wf(),
                self.src() == old(self).src(),
                start <= self.cursor(),
                ident_end(self.src(), self.cursor()) == ident_end(
                    old(self).src(),
                    old(self).cursor(),
                ),
                self.tok_line() == old(self).tok_line(),
                self.tok_col() == old(self).tok_col(),
            decreases self.src().len() - self.cursor(),
        {
            self.read_char();
        }
        let piece = self.input.as_str().substring_char(start, self.position);
        String::from_str(piece)
    }

    /// Consumes a numeric run under the cursor: an optional leading minus
    /// sign fused into the literal, then digits. A second sign inside the
    /// run, or a value outside the signed 64-bit range, is a lexical
    /// error, reported at the character where it was detected; that
    /// character is consumed and scanning may continue after it.
    fn get_number(&mut self) -> (r: Result<i64, LexError>)
        requires
            old(self).wf(),
            old(self).cursor() < old(self).src().len(),
            is_digit_char(old(self).src()[old(self).cursor()]) || (old(self).src()[old(
                self,
            ).cursor()] == '-' && old(self).cursor() + 1 < old(self).src().len()
                && is_digit_char(old(self).src()[old(self).cursor() + 1])),
        ensures
            final(self).wf(),
            final(self).src() == old(self).src(),
            final(self).tok_line() == old(self).tok_line(),
            final(self).tok_col() == old(self).tok_col(),
            ({
                let s = old(self).src();
                let q = old(self).cursor();
                match scan_number(s, q) {
                    NumScan::Num { v, end } => {
                        &&& r matches Ok(n)
                        &&& n as int == v
                        &&& final(self).cursor() == end
                    },
                    NumScan::Bad { at } => {
                        &&& r matches Err(e)
                        &&& e matches LexError::LexicalError { character, line, column }
                        &&& character == s[at]
                        &&& line == line_at(s, at)
                        &&& column == col_at(s, at)
                        &&& final(self).cursor() == at + 1
                    },
                }
            }),
    {
        let ghost s = self.input@;
        let ghost q = self.position as int;
        let negative = self.current_char() == '-';
        if negative {
            self.read_char();
        }
        let limit: u64 = if negative {
            0x8000_0000_0000_0000
        } else {
            0x7fff_ffff_ffff_ffff
        };
        let ghost body = self.position as int;
        let mut acc: u64 = 0;
        while self.position < self.length && is_digit_or_sign(self.input.as_str().get_char(
            self.position,
        ))
            invariant
                self.wf(),
                self.src() == s,
                s == old(self).src(),
                q == old(self).cursor(),
                0 <= q < s.len(),
                negative ==> s[q] == '-' && body == q + 1,
                !negative ==> is_digit_char(s[q]) && body == q,
                body <= self.cursor() <= s.len(),
                acc <= limit,
                limit as int == if negative {
                    neg_limit()
                } else {
                    pos_limit()
                },
                scan_digits(s, body, 0, limit as int) == scan_digits(
                    s,
                    self.cursor(),
                    acc as int,
                    limit as int,
                ),
                self.tok_line() == old(self).tok_line(),
                self.tok_col() == old(self).tok_col(),
            decreases s.len() - self.cursor(),
        {
            let c = self.current_char();
            if c == '-' {
                let e = LexError::LexicalError {
                    character: '-',
                    line: self.line_number,
                    column: self.column,
                };
                self.read_char();
                return Err(e);
            }
            let d: u64 = (c as u32 - '0' as u32) as u64;
            let wide: u128 = (acc as u128) * 10 + (d as u128);
            if wide > limit as u128 {
                let e = LexError::LexicalError {
                    character: c,
                    line: self.line_number,
                    column: self.column,
                };
                self.read_char();
                return Err(e);
            }
            acc = wide as u64;
            self.read_char();
        }
        if negative {
            if acc == 0x8000_0000_0000_0000 {
                Ok(i64::MIN)
            } else {
                Ok(-(acc as i64))
            }
        } else {
            Ok(acc as i64)
        }
    }

    /// Produces the next token, or a lexical error for a character that
    /// fits no token. Whitespace before the token is skipped; the
    /// position where the token (or offending character) begins is
    /// recorded and available through `token_line` and `token_column`.
    /// After the source is exhausted, every further call keeps returning
    /// the end-of-stream token.
    pub fn next(&mut self) -> (r: Result<TokenType, LexError>)
        requires
            old(self).wf(),
        ensures
            final(self).wf(),
            final(self).src() == old(self).src(),
            ({
                let s = old(self).src();
                let q = ws_end(s, old(self).cursor());
                &&& final(self).tok_line() == line_at(s, q)
                &&& final(self).tok_col() == col_at(s, q)
                &&& match r {
                    Ok(tok) => {
                        &&& step_at(s, q) matches Step::Tok { t, end }
                        &&& tok@ == t
                        &&& tok.wf()
                        &&& final(self).cursor() == end
                    },
                    Err(e) => {
                        &&& step_at(s, q) matches Step::Bad { at }
                        &&& e matches LexError::LexicalError { character, line, column }
                        &&& character == s[at]
                        &&& line == line_at(s, at)
                        &&& column == col_at(s, at)
                        &&& final(self).cursor() == at + 1
                    },
                }
            }),
    {
        self.skip_whitespace();
        self.token_line = self.line_number;
        self.token_column = self.column;
        if self.position >= self.length {
            return Ok(TokenType::EOF);
        }
        let c = self.current_char();
        match c {
            '=' => {
                if self.peek_char() == '=' {
                    self.read_char();
                    self.read_char();
                    Ok(TokenType::EQ(['=', '=']))
                } else {
                    self.read_char();
                    Ok(TokenType::ASSIGN('='))
                }
            },
            '!' => {
                if self.peek_char() == '=' {
                    self.read_char();
                    self.read_char();
                    Ok(TokenType::NOTEQ(['!', '=']))
                } else {
                    self.read_char();
                    Ok(TokenType::BANG('!'))
                }
            },
            '-' => {
                if is_digit(self.peek_char()) {
                    match self.get_number() {
                        Ok(n) => Ok(TokenType::INT(n)),
                        Err(e) => Err(e),
                    }
                } else {
                    self.read_char();
                    Ok(TokenType::MINUS('-'))
                }
            },
            '+' => {
                self.read_char();
                Ok(TokenType::PLUS('+'))
            },
            '*' => {
                self.read_char();
                Ok(TokenType::ASTERISK('*'))
            },
            '/' => {
                self.read_char();
                Ok(TokenType::SLASH('/'))
            },
            '<' => {
                self.read_char();
                Ok(TokenType::LT('<'))
            },
            '>' => {
                self.read_char();
                Ok(TokenType::GT('>'))
            },
            '(' => {
                self.read_char();
                Ok(TokenType::LPAREN('('))
            },
            ')' => {
                self.read_char();
                Ok(TokenType::RPAREN(')'))
            },
            '{' => {
                self.read_char();
                Ok(TokenType::LBRACE('{'))
            },
            '}' => {
                self.read_char();
                Ok(TokenType::RBRACE('}'))
            },
            ',' => {
                self.read_char();
                Ok(TokenType::COMMA(','))
            },
            ';' => {
                self.read_char();
                Ok(TokenType::SEMICOLON(';'))
            },
            _ => {
                if is_letter(c) {
                    let ident = self.get_identifier();
                    match TokenType::create_keyword(ident.as_str()) {
                        Some(t) => Ok(t),
                        // Classification is total: it always returns a token.
                        None => vstd::pervasive::unreached(),
                    }
                } else if is_digit(c) {
                    match self.get_number() {
                        Ok(n) => Ok(TokenType::INT(n)),
                        Err(e) => Err(e),
                    }
                } else {
                    let e = LexError::LexicalError {
                        character: c,
                        line: self.line_number,
                        column: self.column,
                    };
                    self.read_char();
                    Err(e)
                }
            },
        }
    }

    /// The line on which the most recently produced token began.
    pub fn token_line(&self) -> (r: usize)
        ensures
            r == self.tok_line(),
    {
        self.token_line
    }

    /// The column at which the most recently produced token began.
    pub fn token_column(&self) -> (r: usize)
        ensures
            r == self.tok_col(),
    {
        self.token_column
    }
}

/// Whether `c` may begin an identifier.
fn is_letter(c: char) -> (b: bool)
    ensures
        b == is_letter_char(c),
{
    ('a' <= c && c <= 'z') || ('A' <= c && c <= 'Z') || c == '_'
}

/// Whether `c` is a decimal digit.
fn is_digit(c: char) -> (b: bool)
    ensures
        b == is_digit_char(c),
{
    '0' <= c && c <= '9'
}

/// Whether `c` may continue an identifier.
fn is_ident_part(c: char) -> (b: bool)
    ensures
        b == is_ident_char(c),
{
    is_letter(c) || is_digit(c)
}

/// Whether `c` continues a numeric run: a digit or a sign character.
fn is_digit_or_sign(c: char) -> (b: bool)
    ensures
        b == (is_digit_char(c) || c == '-'),
{
    is_digit(c) || c == '-'
}

/// Whether `c` is one of the whitespace characters the lexer skips.
fn is_whitespace(c: char) -> (b: bool)
    ensures
        b == is_whitespace_char(c),
{
    c == ' ' || c == '\t' || c == '\n' || c == '\r'
}

} // verus!

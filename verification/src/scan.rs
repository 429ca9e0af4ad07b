//! The mathematical model of the scan.
//!
//! Everything here is specification-level: character classes, line/column
//! accounting, the extent of whitespace, identifier and number runs, and
//! `step_at`, which says for any source text and cursor position what a
//! single token-producing step returns and where it leaves the cursor.
//! The executable lexer is proved against these functions.

use vstd::prelude::*;

use crate::token::{classify, Tok};

verus! {

/// The whitespace characters the lexer skips between tokens.
pub open spec fn is_whitespace_char(c: char) -> bool {
    c == ' ' || c == '\t' || c == '\n' || c == '\r'
}

/// Characters that may begin an identifier: ASCII letters and underscore.
pub open spec fn is_letter_char(c: char) -> bool {
    ('a' <= c && c <= 'z') || ('A' <= c && c <= 'Z') || c == '_'
}

/// ASCII decimal digits.
pub open spec fn is_digit_char(c: char) -> bool {
    '0' <= c && c <= '9'
}

/// Characters that may continue an identifier: letters, digits, underscore.
pub open spec fn is_ident_char(c: char) -> bool {
    is_letter_char(c) || is_digit_char(c)
}

/// The numeric value of a decimal digit character.
pub open spec fn digit_value(c: char) -> int {
    c as int - '0' as int
}

/// The 1-based line number of position `i`: one more than the number of
/// newlines among the first `i` characters.
pub open spec fn line_at(s: Seq<char>, i: int) -> int
    decreases i,
{
    if i <= 0 {
        1
    } else {
        line_at(s, i - 1) + if s[i - 1] == '\n' {
            1int
        } else {
            0int
        }
    }
}

/// The 1-based column of position `i`: reset to 1 by each newline,
/// incremented by every other consumed character.
pub open spec fn col_at(s: Seq<char>, i: int) -> int
    decreases i,
{
    if i <= 0 {
        1
    } else if s[i - 1] == '\n' {
        1
    } else {
        col_at(s, i - 1) + 1
    }
}

/// The first position at or after `i` that does not hold whitespace
/// (or the end of the text).
pub open spec fn ws_end(s: Seq<char>, i: int) -> int
    decreases s.len() - i,
{
    if 0 <= i < s.len() && is_whitespace_char(s[i]) {
        ws_end(s, i + 1)
    } else {
        i
    }
}

/// The first position at or after `i` that does not hold an identifier
/// character (or the end of the text).
pub open spec fn ident_end(s: Seq<char>, i: int) -> int
    decreases s.len() - i,
{
    if 0 <= i < s.len() && is_ident_char(s[i]) {
        ident_end(s, i + 1)
    } else {
        i
    }
}

/// The largest magnitude a negative literal may reach (the absolute value
/// of the smallest signed 64-bit integer).
pub open spec fn neg_limit() -> int {
    0x8000_0000_0000_0000
}

/// The largest value a positive literal may reach.
pub open spec fn pos_limit() -> int {
    0x7fff_ffff_ffff_ffff
}

/// The outcome of scanning a numeric run.
pub enum NumScan {
    /// A well-formed literal with value `v`; the run ends at `end`.
    Num { v: int, end: int },
    /// A malformed literal: a second sign inside the run, or a value
    /// outside the signed 64-bit range, first detected at position `at`.
    Bad { at: int },
}

/// Scans the digit portion of a numeric run from position `i` with the
/// value of the digits read so far in `acc`. A `-` inside the run, or a
/// digit that would push the value past `limit`, is malformed and is
/// reported at the position where it stands.
pub open spec fn scan_digits(s: Seq<char>, i: int, acc: int, limit: int) -> NumScan
    decreases s.len() - i,
{
    if 0 <= i < s.len() && s[i] == '-' {
        NumScan::Bad { at: i }
    } else if 0 <= i < s.len() && is_digit_char(s[i]) {
        if acc * 10 + digit_value(s[i]) > limit {
            NumScan::Bad { at: i }
        } else {
            scan_digits(s, i + 1, acc * 10 + digit_value(s[i]), limit)
        }
    } else {
        NumScan::Num { v: acc, end: i }
    }
}

/// Scans a numeric literal starting at `q`: either a digit, or a leading
/// minus sign fused into the literal when a digit follows it.
pub open spec fn scan_number(s: Seq<char>, q: int) -> NumScan
    recommends
        0 <= q < s.len(),
{
    if s[q] == '-' {
        match scan_digits(s, q + 1, 0, neg_limit()) {
            NumScan::Num { v, end } => NumScan::Num { v: -v, end },
            bad => bad,
        }
    } else {
        scan_digits(s, q, 0, pos_limit())
    }
}

/// What one token-producing step returns, starting at a position already
/// past any whitespace.
pub enum Step {
    /// A token, leaving the cursor at `end`.
    Tok { t: Tok, end: int },
    /// A lexical error: the character at `at` could not be classified, or
    /// made a numeric literal malformed. The cursor skips past it.
    Bad { at: int },
}

/// One token-producing step at position `q` of the text `s`, where `q` is
/// already past any whitespace. Two-character operators are preferred over
/// their one-character prefix, and a minus immediately followed by a digit
/// is fused into a signed literal.
pub open spec fn step_at(s: Seq<char>, q: int) -> Step
    recommends
        0 <= q <= s.len(),
{
    if q >= s.len() {
        Step::Tok { t: Tok::Eof, end: q }
    } else {
        let c = s[q];
        if c == '=' {
            if q + 1 < s.len() && s[q + 1] == '=' {
                Step::Tok { t: Tok::Eq, end: q + 2 }
            } else {
                Step::Tok { t: Tok::Assign, end: q + 1 }
            }
        } else if c == '!' {
            if q + 1 < s.len() && s[q + 1] == '=' {
                Step::Tok { t: Tok::NotEq, end: q + 2 }
            } else {
                Step::Tok { t: Tok::Bang, end: q + 1 }
            }
        } else if c == '-' {
            if q + 1 < s.len() && is_digit_char(s[q + 1]) {
                match scan_number(s, q) {
                    NumScan::Num { v, end } => Step::Tok { t: Tok::Int(v), end },
                    NumScan::Bad { at } => Step::Bad { at },
                }
            } else {
                Step::Tok { t: Tok::Minus, end: q + 1 }
            }
        } else if c == '+' {
            Step::Tok { t: Tok::Plus, end: q + 1 }
        } else if c == '*' {
            Step::Tok { t: Tok::Asterisk, end: q + 1 }
        } else if c == '/' {
            Step::Tok { t: Tok::Slash, end: q + 1 }
        } else if c == '<' {
            Step::Tok { t: Tok::Lt, end: q + 1 }
        } else if c == '>' {
            Step::Tok { t: Tok::Gt, end: q + 1 }
        } else if c == '(' {
            Step::Tok { t: Tok::LParen, end: q + 1 }
        } else if c == ')' {
            Step::Tok { t: Tok::RParen, end: q + 1 }
        } else if c == '{' {
            Step::Tok { t: Tok::LBrace, end: q + 1 }
        } else if c == '}' {
            Step::Tok { t: Tok::RBrace, end: q + 1 }
        } else if c == ',' {
            Step::Tok { t: Tok::Comma, end: q + 1 }
        } else if c == ';' {
            Step::Tok { t: Tok::Semicolon, end: q + 1 }
        } else if is_letter_char(c) {
            Step::Tok { t: classify(s.subrange(q, ident_end(s, q))), end: ident_end(s, q) }
        } else if is_digit_char(c) {
            match scan_number(s, q) {
                NumScan::Num { v, end } => Step::Tok { t: Tok::Int(v), end },
                NumScan::Bad { at } => Step::Bad { at },
            }
        } else {
            Step::Bad { at: q }
        }
    }
}

/// Line numbers and columns stay within one past the prefix length, and
/// are at least 1.
pub proof fn lemma_position_bounds(s: Seq<char>, i: int)
    requires
        0 <= i,
    ensures
        1 <= line_at(s, i) <= i + 1,
        1 <= col_at(s, i) <= i + 1,
    decreases i,
{
    if i > 0 {
        lemma_position_bounds(s, i - 1);
    }
}

} // verus!

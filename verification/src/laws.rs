//! General properties of the scan, each proved once and for all inputs.

use vstd::prelude::*;

use crate::scan::{
    digit_value, ident_end, is_digit_char, is_ident_char, is_letter_char, is_whitespace_char,
    neg_limit, pos_limit, scan_digits, step_at, ws_end, NumScan, Step,
};
use crate::token::Tok;

verus! {

/// The characters that alone form a one-character operator or
/// punctuation token.
pub open spec fn is_single_op_char(c: char) -> bool {
    c == '=' || c == '+' || c == '-' || c == '!' || c == '*' || c == '/' || c == '<' || c == '>'
        || c == ',' || c == ';' || c == '(' || c == ')' || c == '{' || c == '}'
}

/// The token a one-character operator or punctuation character stands
/// for when nothing follows it.
pub open spec fn single_op_token(c: char) -> Tok {
    if c == '=' {
        Tok::Assign
    } else if c == '+' {
        Tok::Plus
    } else if c == '-' {
        Tok::Minus
    } else if c == '!' {
        Tok::Bang
    } else if c == '*' {
        Tok::Asterisk
    } else if c == '/' {
        Tok::Slash
    } else if c == '<' {
        Tok::Lt
    } else if c == '>' {
        Tok::Gt
    } else if c == ',' {
        Tok::Comma
    } else if c == ';' {
        Tok::Semicolon
    } else if c == '(' {
        Tok::LParen
    } else if c == ')' {
        Tok::RParen
    } else if c == '{' {
        Tok::LBrace
    } else {
        Tok::RBrace
    }
}

/// Law: scanning a source that holds exactly one operator or punctuation
/// character yields the corresponding token, and the step after it yields
/// end-of-stream.
pub proof fn lemma_single_op_scan(c: char)
    requires
        is_single_op_char(c),
    ensures
        ws_end(seq![c], 0) == 0,
        step_at(seq![c], 0) == (Step::Tok { t: single_op_token(c), end: 1 }),
        step_at(seq![c], 1) == (Step::Tok { t: Tok::Eof, end: 1 }),
{
}

/// Law: scanning a source that holds exactly one two-character operator
/// yields the corresponding token covering both characters, and the step
/// after it yields end-of-stream.
pub proof fn lemma_two_char_op_scan()
    ensures
        step_at(seq!['=', '='], 0) == (Step::Tok { t: Tok::Eq, end: 2 }),
        step_at(seq!['=', '='], 2) == (Step::Tok { t: Tok::Eof, end: 2 }),
        step_at(seq!['!', '='], 0) == (Step::Tok { t: Tok::NotEq, end: 2 }),
        step_at(seq!['!', '='], 2) == (Step::Tok { t: Tok::Eof, end: 2 }),
{
}

/// Law (maximal munch): wherever `=` or `!` is immediately followed by
/// `=`, the scan produces the one two-character token spanning both, and
/// never a one-character token.
pub proof fn lemma_maximal_munch(s: Seq<char>, q: int)
    requires
        0 <= q,
        q + 1 < s.len(),
        s[q] == '=' || s[q] == '!',
        s[q + 1] == '=',
    ensures
        step_at(s, q) == (Step::Tok {
            t: if s[q] == '=' {
                Tok::Eq
            } else {
                Tok::NotEq
            },
            end: q + 2,
        }),
{
}

/// Law (signed literal fusion): a minus immediately followed by a digit
/// begins an integer literal, never a standalone minus token; a minus not
/// followed by a digit is a standalone minus token.
pub proof fn lemma_sign_fusion(s: Seq<char>, q: int)
    requires
        0 <= q < s.len(),
        s[q] == '-',
    ensures
        q + 1 < s.len() && is_digit_char(s[q + 1]) ==> match step_at(s, q) {
            Step::Tok { t, end } => t is Int,
            Step::Bad { at } => true,
        },
        !(q + 1 < s.len() && is_digit_char(s[q + 1])) ==> step_at(s, q) == (Step::Tok {
            t: Tok::Minus,
            end: q + 1,
        }),
{
}

/// Law: scanning an empty source yields end-of-stream at once, with no
/// error and no movement of the cursor.
pub proof fn lemma_empty_scan()
    ensures
        ws_end(Seq::<char>::empty(), 0) == 0,
        step_at(Seq::<char>::empty(), 0) == (Step::Tok { t: Tok::Eof, end: 0 }),
{
}

/// Law (stable exhaustion): from the end of the source, every further
/// step skips nothing, yields end-of-stream and leaves the cursor where
/// it stands, so repeated calls keep returning end-of-stream.
pub proof fn lemma_exhaustion_idempotent(s: Seq<char>)
    ensures
        ws_end(s, s.len() as int) == s.len(),
        step_at(s, s.len() as int) == (Step::Tok { t: Tok::Eof, end: s.len() as int }),
{
}

/// Law: the characters passed over before a token are whitespace, all of
/// them, and the first character not passed over is not whitespace.
pub proof fn lemma_whitespace_skipped(s: Seq<char>, p: int)
    requires
        0 <= p <= s.len(),
    ensures
        p <= ws_end(s, p) <= s.len(),
        forall|j: int| p <= j < ws_end(s, p) ==> is_whitespace_char(s[j]),
        ws_end(s, p) < s.len() ==> !is_whitespace_char(s[ws_end(s, p)]),
    decreases s.len() - p,
{
    if p < s.len() && is_whitespace_char(s[p]) {
        lemma_whitespace_skipped(s, p + 1);
    }
}

/// Prepending one character moves the extent of a whitespace run by one.
proof fn lemma_ws_end_shift(c: char, t: Seq<char>, i: int)
    requires
        0 <= i <= t.len(),
    ensures
        ws_end(seq![c] + t, i + 1) == 1 + ws_end(t, i),
    decreases t.len() - i,
{
    if i < t.len() && is_whitespace_char(t[i]) {
        lemma_ws_end_shift(c, t, i + 1);
    }
}

/// Law: whitespace between tokens is fully skippable regardless of run
/// length. A whitespace run of any length prepended to a source is passed
/// over entirely: the first token of the combined text is looked for
/// exactly where the run ends.
pub proof fn lemma_ws_prefix_skipped(w: Seq<char>, s: Seq<char>)
    requires
        forall|j: int| 0 <= j < w.len() ==> is_whitespace_char(w[j]),
    ensures
        ws_end(w + s, 0) == w.len() + ws_end(s, 0),
    decreases w.len(),
{
    if w.len() == 0 {
        assert(w + s =~= s);
    } else {
        let t = w.drop_first() + s;
        assert(w + s =~= seq![w[0]] + t);
        assert(forall|j: int| 0 <= j < w.drop_first().len() ==> is_whitespace_char(
            #[trigger] w.drop_first()[j],
        ));
        lemma_ws_prefix_skipped(w.drop_first(), s);
        lemma_ws_end_shift(w[0], t, 0);
    }
}

/// Prepending a prefix moves the extent of an identifier run by the
/// prefix's length.
proof fn lemma_ident_end_shift(w: Seq<char>, s: Seq<char>, i: int)
    requires
        0 <= i <= s.len(),
    ensures
        ident_end(w + s, w.len() + i) == w.len() + ident_end(s, i),
    decreases s.len() - i,
{
    if i < s.len() && is_ident_char(s[i]) {
        lemma_ident_end_shift(w, s, i + 1);
    }
}

/// Prepending a prefix moves the outcome of a digit scan by the prefix's
/// length, leaving the value unchanged.
proof fn lemma_digits_shift(w: Seq<char>, s: Seq<char>, i: int, acc: int, limit: int)
    requires
        0 <= i <= s.len(),
    ensures
        match scan_digits(s, i, acc, limit) {
            NumScan::Num { v, end } => scan_digits(w + s, w.len() + i, acc, limit)
                == (NumScan::Num { v, end: w.len() + end }),
            NumScan::Bad { at } => scan_digits(w + s, w.len() + i, acc, limit) == (NumScan::Bad {
                at: w.len() + at,
            }),
        },
    decreases s.len() - i,
{
    if i < s.len() && s[i] != '-' && is_digit_char(s[i]) && acc * 10 + digit_value(s[i])
        <= limit {
        lemma_digits_shift(w, s, i + 1, acc * 10 + digit_value(s[i]), limit);
    }
}

/// Law (locality): a token-producing step looks only at the text from
/// its start position onward. Prepending any prefix moves the step's
/// positions by the prefix's length and changes nothing else — the token
/// produced, or the offending character reported, is the same.
pub proof fn lemma_step_shift(w: Seq<char>, s: Seq<char>, q: int)
    requires
        0 <= q <= s.len(),
    ensures
        match step_at(s, q) {
            Step::Tok { t, end } => step_at(w + s, w.len() + q) == (Step::Tok {
                t,
                end: w.len() + end,
            }),
            Step::Bad { at } => step_at(w + s, w.len() + q) == (Step::Bad { at: w.len() + at }),
        },
{
    let u = w + s;
    let k = w.len() as int;
    if q < s.len() {
        let c = s[q];
        if c == '-' && q + 1 < s.len() && is_digit_char(s[q + 1]) {
            lemma_digits_shift(w, s, q + 1, 0, neg_limit());
        } else if is_digit_char(c) {
            lemma_digits_shift(w, s, q, 0, pos_limit());
        } else if is_letter_char(c) {
            lemma_ident_end_shift(w, s, q);
            lemma_ident_run(s, q);
            assert(u.subrange(k + q, k + ident_end(s, q)) =~= s.subrange(q, ident_end(s, q)));
        }
    }
}

/// Law: whitespace of any run length before a token never reaches the
/// output. Prepending a whitespace run to a source leaves the first
/// token-producing step unchanged: the same token (or the same offending
/// character), merely found past the run.
pub proof fn lemma_ws_prefix_same_step(w: Seq<char>, s: Seq<char>)
    requires
        forall|j: int| 0 <= j < w.len() ==> is_whitespace_char(w[j]),
    ensures
        ws_end(w + s, 0) == w.len() + ws_end(s, 0),
        match step_at(s, ws_end(s, 0)) {
            Step::Tok { t, end } => step_at(w + s, ws_end(w + s, 0)) == (Step::Tok {
                t,
                end: w.len() + end,
            }),
            Step::Bad { at } => step_at(w + s, ws_end(w + s, 0)) == (Step::Bad {
                at: w.len() + at,
            }),
        },
{
    lemma_ws_prefix_skipped(w, s);
    lemma_whitespace_skipped(s, 0);
    lemma_step_shift(w, s, ws_end(s, 0));
}

/// An identifier run lies between its start and the end of the text, all
/// its characters are identifier characters — so whitespace never becomes
/// part of a token's text — and it is non-empty when it starts on one.
pub proof fn lemma_ident_run(s: Seq<char>, i: int)
    requires
        0 <= i <= s.len(),
    ensures
        i <= ident_end(s, i) <= s.len(),
        forall|j: int| i <= j < ident_end(s, i) ==> is_ident_char(s[j]),
        forall|j: int| i <= j < ident_end(s, i) ==> !is_whitespace_char(s[j]),
        ident_end(s, i) < s.len() ==> !is_ident_char(s[ident_end(s, i)]),
        i < s.len() && is_ident_char(s[i]) ==> i < ident_end(s, i),
    decreases s.len() - i,
{
    if i < s.len() && is_ident_char(s[i]) {
        lemma_ident_run(s, i + 1);
    }
}

/// A digit run ends within the text, and a malformed one is reported at a
/// position inside the text.
proof fn lemma_digits_bounds(s: Seq<char>, i: int, acc: int, limit: int)
    requires
        0 <= i <= s.len(),
    ensures
        match scan_digits(s, i, acc, limit) {
            NumScan::Num { v, end } => i <= end <= s.len(),
            NumScan::Bad { at } => i <= at < s.len(),
        },
    decreases s.len() - i,
{
    if i < s.len() && s[i] != '-' && is_digit_char(s[i]) && acc * 10 + digit_value(s[i])
        <= limit {
        lemma_digits_bounds(s, i + 1, acc * 10 + digit_value(s[i]), limit);
    }
}

/// Law (progress): every step from inside the text either produces a
/// token that consumes at least one character, or reports an error at a
/// character of the text; only at the end does it produce end-of-stream
/// without moving. Hence a scan of any source passes every token and
/// reaches end-of-stream after finitely many steps.
pub proof fn lemma_scan_progress(s: Seq<char>, q: int)
    requires
        0 <= q <= s.len(),
    ensures
        match step_at(s, q) {
            Step::Tok { t, end } => {
                &&& q < s.len() ==> q < end <= s.len()
                &&& q == s.len() ==> t == Tok::Eof && end == q
            },
            Step::Bad { at } => q <= at < s.len(),
        },
{
    if q < s.len() {
        let c = s[q];
        lemma_ident_run(s, q);
        if c == '-' && q + 1 < s.len() && is_digit_char(s[q + 1]) {
            lemma_digits_bounds(s, q + 1, 0, neg_limit());
        } else if is_digit_char(c) {
            lemma_digits_bounds(s, q + 1, digit_value(c), pos_limit());
        }
    }
}

} // verus!

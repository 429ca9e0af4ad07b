//! Lexical analysis for a small C-like scripting language.
//!
//! The lexer turns raw source text into a finite, ordered sequence of
//! classified tokens: identifiers, signed integer literals, operators,
//! punctuation and keywords. Every token-producing step is specified and
//! proved against a mathematical model of the scan, found in `scan`.

pub mod laws;
pub mod lexer;
pub mod scan;
pub mod token;

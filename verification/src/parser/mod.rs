//! `.polyh` language front end: text in, syntax tree out.
//!
//! [`parse_str`] reads a whole source text. Reading a file from disk is left
//! to the caller.

pub mod ast;
mod grammar;
mod lexer;
mod number;

use vstd::prelude::*;
use crate::error::PolyhedraError;
use crate::text::{chars_of, push_char, push_decimal};
use ast::{PolyhFile, SpecPolyhFile};
use grammar::{parse_tokens, spec_parse_tokens};
use lexer::{Expect, ParseFailure, lex, spec_lex};

verus! {

/// The file that a source text spells, or why it spells none.
pub open spec fn spec_parse(cs: Seq<char>) -> Result<SpecPolyhFile, ParseFailure> {
    match spec_lex(cs) {
        Ok(ts) => spec_parse_tokens(cs, ts),
        Err(e) => Err(e),
    }
}

/// Line and column (both counted from 1) of character position `pos`.
pub open spec fn line_col(cs: Seq<char>, pos: int) -> (nat, nat)
    decreases pos,
{
    if pos <= 0 {
        (1, 1)
    } else {
        let (l, c) = line_col(cs, pos - 1);
        if cs[pos - 1] == '\n' {
            (l + 1, 1)
        } else {
            (l, c + 1)
        }
    }
}

/// What a syntax error message says was expected.
pub open spec fn expect_message(e: Expect) -> Seq<char> {
    match e {
        Expect::Char => "unexpected character"@,
        Expect::StringEnd => "unterminated string"@,
        Expect::TopLevel => "expected 'use', 'define', 'assemble' or 'export'"@,
        Expect::Name => "expected a name"@,
        Expect::Number => "expected a number"@,
        Expect::End => "expected 'end'"@,
        Expect::Unit => "expected a unit: mm, cm, m, in or ft"@,
        Expect::Axis => "expected an axis: x, y or z"@,
        Expect::At => "expected 'at'"@,
        Expect::Position => "expected 'origin' or '(x, y, z)'"@,
        Expect::Comma => "expected ','"@,
        Expect::RParen => "expected ')'"@,
        Expect::Direction => "expected a direction: up, down, left, right, +x, -x, +y, -y, +z or -z"@,
        Expect::FileName => "expected a file name"@,
    }
}

fn message_of(e: Expect) -> (r: String)
    ensures
        r@ == expect_message(e),
{
    match e {
        Expect::Char => "unexpected character".to_owned(),
        Expect::StringEnd => "unterminated string".to_owned(),
        Expect::TopLevel => "expected 'use', 'define', 'assemble' or 'export'".to_owned(),
        Expect::Name => "expected a name".to_owned(),
        Expect::Number => "expected a number".to_owned(),
        Expect::End => "expected 'end'".to_owned(),
        Expect::Unit => "expected a unit: mm, cm, m, in or ft".to_owned(),
        Expect::Axis => "expected an axis: x, y or z".to_owned(),
        Expect::At => "expected 'at'".to_owned(),
        Expect::Position => "expected 'origin' or '(x, y, z)'".to_owned(),
        Expect::Comma => "expected ','".to_owned(),
        Expect::RParen => "expected ')'".to_owned(),
        Expect::Direction => "expected a direction: up, down, left, right, +x, -x, +y, -y, +z or -z".to_owned(),
        Expect::FileName => "expected a file name".to_owned(),
    }
}

fn position_line_col(cs: &Vec<char>, pos: usize) -> (r: (usize, usize))
    requires
        pos <= cs.len() < usize::MAX,
    ensures
        r.0 as nat == line_col(cs@, pos as int).0,
        r.1 as nat == line_col(cs@, pos as int).1,
{
    let mut line: usize = 1;
    let mut col: usize = 1;
    let mut i: usize = 0;
    while i < pos
        invariant
            i <= pos <= cs.len() < usize::MAX,
            1 <= line <= i + 1,
            1 <= col <= i + 1,
            line as nat == line_col(cs@, i as int).0,
            col as nat == line_col(cs@, i as int).1,
        decreases pos - i,
    {
        if cs[i] == '\n' {
            line = line + 1;
            col = 1;
        } else {
            col = col + 1;
        }
        i = i + 1;
    }
    (line, col)
}

/// The error that a reading failure is reported as.
pub open spec fn failure_reported(cs: Seq<char>, f: ParseFailure, e: PolyhedraError) -> bool {
    match f {
        ParseFailure::Syntax { pos, expect } => e matches PolyhedraError::ParseError {
            line,
            col,
            message,
        } && line as nat == line_col(cs, pos as int).0 && col as nat == line_col(
            cs,
            pos as int,
        ).1 && message@ == expect_message(expect),
    }
}

/// Parses a `.polyh` source text into its syntax tree.
///
/// A text outside the grammar is a `ParseError` at the line and column where
/// reading stopped. The bound on the length holds of every `&str`: no value
/// in memory is larger than `isize::MAX` bytes.
pub fn parse_str(source: &str) -> (r: Result<PolyhFile, PolyhedraError>)
    requires
        source@.len() <= isize::MAX,
    ensures
        match spec_parse(source@) {
            Ok(f) => r matches Ok(file) && file@ == f,
            Err(fail) => r matches Err(e) && failure_reported(source@, fail, e),
        },
{
    let cs = chars_of(source);
    let failure = match lex(&cs) {
        Ok(ts) => match parse_tokens(&cs, &ts) {
            Ok(f) => {
                return Ok(f);
            },
            Err(e) => e,
        },
        Err(e) => e,
    };
    match failure {
        ParseFailure::Syntax { pos, expect } => {
            let (line, col) = position_line_col(&cs, pos);
            Err(PolyhedraError::ParseError { line, col, message: message_of(expect) })
        },
    }
}

} // verus!

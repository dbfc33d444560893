//! Tokenizer of the `.polyh` language.
//!
//! Whitespace and `#` line comments separate tokens. A token is a word
//! (`[A-Za-z_][A-Za-z0-9_]*`), a number (`-?[0-9]+(.[0-9]+)?`), a string
//! (`"..."` without escapes) or one of the marks `( ) , . + -`.

use vstd::prelude::*;

verus! {

/// The kinds of tokens.
#[derive(Debug, Clone, Copy, PartialEq, Eq, Structural)]
pub enum TokenKind {
    Word,
    Number,
    Str,
    LParen,
    RParen,
    Comma,
    Dot,
    Plus,
    Minus,
}

/// A token: its kind and the half-open range of characters it covers.
#[derive(Debug, Clone, Copy, PartialEq, Eq, Structural)]
pub struct Token {
    pub kind: TokenKind,
    pub start: usize,
    pub end: usize,
}

/// What the reader expected where it stopped.
#[derive(Debug, Clone, Copy, PartialEq, Eq, Structural)]
pub enum Expect {
    /// A character that starts no token.
    Char,
    /// The closing quote of a string.
    StringEnd,
    TopLevel,
    Name,
    Number,
    End,
    Unit,
    Axis,
    At,
    Position,
    Comma,
    RParen,
    Direction,
    FileName,
}

/// Why reading stopped.
#[derive(Debug, Clone, Copy, PartialEq, Eq, Structural)]
pub enum ParseFailure {
    /// Syntax error at character position `pos`.
    Syntax { pos: usize, expect: Expect },
}

// ── Character classes ─────────────────────────────────────────────────────────

pub open spec fn is_digit(c: char) -> bool {
    '0' <= c && c <= '9'
}

pub open spec fn is_ident_start(c: char) -> bool {
    ('a' <= c && c <= 'z') || ('A' <= c && c <= 'Z') || c == '_'
}

pub open spec fn is_ident_char(c: char) -> bool {
    is_ident_start(c) || is_digit(c)
}

pub open spec fn is_space(c: char) -> bool {
    c == ' ' || c == '\t' || c == '\r' || c == '\n'
}

fn digit(c: char) -> (r: bool)
    ensures
        r == is_digit(c),
{
    '0' <= c && c <= '9'
}

fn ident_start(c: char) -> (r: bool)
    ensures
        r == is_ident_start(c),
{
    ('a' <= c && c <= 'z') || ('A' <= c && c <= 'Z') || c == '_'
}

fn ident_char(c: char) -> (r: bool)
    ensures
        r == is_ident_char(c),
{
    ident_start(c) || digit(c)
}

// ── Scanning ──────────────────────────────────────────────────────────────────

/// First position at or after `i` that is neither whitespace nor inside a
/// comment (`in_comment`: `i` lies inside a comment).
pub open spec fn skip_trivia(cs: Seq<char>, i: int, in_comment: bool) -> int
    decreases cs.len() - i,
{
    if i < 0 || i >= cs.len() {
        i
    } else if in_comment {
        skip_trivia(cs, i + 1, cs[i] != '\n')
    } else if is_space(cs[i]) {
        skip_trivia(cs, i + 1, false)
    } else if cs[i] == '#' {
        skip_trivia(cs, i + 1, true)
    } else {
        i
    }
}

/// First position at or after `i` that holds no identifier character.
pub open spec fn scan_ident(cs: Seq<char>, i: int) -> int
    decreases cs.len() - i,
{
    if 0 <= i < cs.len() && is_ident_char(cs[i]) {
        scan_ident(cs, i + 1)
    } else {
        i
    }
}

/// First position at or after `i` that holds no digit.
pub open spec fn scan_digits(cs: Seq<char>, i: int) -> int
    decreases cs.len() - i,
{
    if 0 <= i < cs.len() && is_digit(cs[i]) {
        scan_digits(cs, i + 1)
    } else {
        i
    }
}

/// First position at or after `i` that holds a quote, or the end.
pub open spec fn scan_string(cs: Seq<char>, i: int) -> int
    decreases cs.len() - i,
{
    if 0 <= i < cs.len() && cs[i] != '"' {
        scan_string(cs, i + 1)
    } else {
        i
    }
}

/// End of a number whose digits start at `i`.
pub open spec fn number_end(cs: Seq<char>, i: int) -> int {
    let d = scan_digits(cs, i);
    if 0 <= d && d + 1 < cs.len() && cs[d] == '.' && is_digit(cs[d + 1]) {
        scan_digits(cs, d + 1)
    } else {
        d
    }
}

/// The token that starts at `j`, which holds neither whitespace nor `#`.
pub open spec fn token_at(cs: Seq<char>, j: int) -> Result<Token, ParseFailure> {
    let c = cs[j];
    let fail = ParseFailure::Syntax { pos: j as usize, expect: Expect::Char };
    if is_ident_start(c) {
        Ok(Token { kind: TokenKind::Word, start: j as usize, end: scan_ident(cs, j + 1) as usize })
    } else if is_digit(c) {
        Ok(Token { kind: TokenKind::Number, start: j as usize, end: number_end(cs, j) as usize })
    } else if c == '-' && j + 1 < cs.len() && is_digit(cs[j + 1]) {
        Ok(
            Token {
                kind: TokenKind::Number,
                start: j as usize,
                end: number_end(cs, j + 1) as usize,
            },
        )
    } else if c == '-' {
        Ok(Token { kind: TokenKind::Minus, start: j as usize, end: (j + 1) as usize })
    } else if c == '+' {
        Ok(Token { kind: TokenKind::Plus, start: j as usize, end: (j + 1) as usize })
    } else if c == '(' {
        Ok(Token { kind: TokenKind::LParen, start: j as usize, end: (j + 1) as usize })
    } else if c == ')' {
        Ok(Token { kind: TokenKind::RParen, start: j as usize, end: (j + 1) as usize })
    } else if c == ',' {
        Ok(Token { kind: TokenKind::Comma, start: j as usize, end: (j + 1) as usize })
    } else if c == '.' {
        Ok(Token { kind: TokenKind::Dot, start: j as usize, end: (j + 1) as usize })
    } else if c == '"' {
        let k = scan_string(cs, j + 1);
        if k < cs.len() {
            Ok(Token { kind: TokenKind::Str, start: j as usize, end: (k + 1) as usize })
        } else {
            Err(ParseFailure::Syntax { pos: j as usize, expect: Expect::StringEnd })
        }
    } else {
        Err(fail)
    }
}

/// The tokens of `cs` from position `i` on, after those already in `acc`.
pub open spec fn lex_from(cs: Seq<char>, i: int, acc: Seq<Token>) -> Result<
    Seq<Token>,
    ParseFailure,
>
    decreases cs.len() - i,
{
    let j = skip_trivia(cs, i, false);
    if i < 0 || j < i || j >= cs.len() {
        Ok(acc)
    } else {
        match token_at(cs, j) {
            Ok(t) => if t.end as int > i && t.end <= cs.len() {
                lex_from(cs, t.end as int, acc.push(t))
            } else {
                Ok(acc)
            },
            Err(e) => Err(e),
        }
    }
}

/// The tokens of the whole text.
pub open spec fn spec_lex(cs: Seq<char>) -> Result<Seq<Token>, ParseFailure> {
    lex_from(cs, 0, Seq::empty())
}

// ── Executable scanning ───────────────────────────────────────────────────────

fn exec_skip_trivia(cs: &Vec<char>, i: usize) -> (r: usize)
    requires
        i <= cs.len(),
    ensures
        r == skip_trivia(cs@, i as int, false),
        i <= r <= cs.len(),
{
    let mut k = i;
    let mut in_comment = false;
    while k < cs.len()
        invariant
            i <= k <= cs.len(),
            skip_trivia(cs@, i as int, false) == skip_trivia(cs@, k as int, in_comment),
        decreases cs.len() - k,
    {
        let c = cs[k];
        if in_comment {
            in_comment = c != '\n';
        } else if c == ' ' || c == '\t' || c == '\r' || c == '\n' {
        } else if c == '#' {
            in_comment = true;
        } else {
            return k;
        }
        k = k + 1;
    }
    k
}

fn exec_scan_ident(cs: &Vec<char>, i: usize) -> (r: usize)
    requires
        i <= cs.len(),
    ensures
        r == scan_ident(cs@, i as int),
        i <= r <= cs.len(),
{
    let mut k = i;
    while k < cs.len() && ident_char(cs[k])
        invariant
            i <= k <= cs.len(),
            scan_ident(cs@, i as int) == scan_ident(cs@, k as int),
        decreases cs.len() - k,
    {
        k = k + 1;
    }
    k
}

fn exec_scan_digits(cs: &Vec<char>, i: usize) -> (r: usize)
    requires
        i <= cs.len(),
    ensures
        r == scan_digits(cs@, i as int),
        i <= r <= cs.len(),
{
    let mut k = i;
    while k < cs.len() && digit(cs[k])
        invariant
            i <= k <= cs.len(),
            scan_digits(cs@, i as int) == scan_digits(cs@, k as int),
        decreases cs.len() - k,
    {
        k = k + 1;
    }
    k
}

fn exec_scan_string(cs: &Vec<char>, i: usize) -> (r: usize)
    requires
        i <= cs.len(),
    ensures
        r == scan_string(cs@, i as int),
        i <= r <= cs.len(),
{
    let mut k = i;
    while k < cs.len() && cs[k] != '"'
        invariant
            i <= k <= cs.len(),
            scan_string(cs@, i as int) == scan_string(cs@, k as int),
        decreases cs.len() - k,
    {
        k = k + 1;
    }
    k
}

proof fn lemma_scan_digits_ge(cs: Seq<char>, i: int)
    requires
        0 <= i,
    ensures
        scan_digits(cs, i) >= i,
    decreases cs.len() - i,
{
    if 0 <= i < cs.len() && is_digit(cs[i]) {
        lemma_scan_digits_ge(cs, i + 1);
    }
}

fn exec_number_end(cs: &Vec<char>, i: usize) -> (r: usize)
    requires
        i <= cs.len(),
    ensures
        r == number_end(cs@, i as int),
        i <= r <= cs.len(),
        i < cs.len() && is_digit(cs@[i as int]) ==> r > i,
{
    let d = exec_scan_digits(cs, i);
    proof {
        if i < cs.len() && is_digit(cs@[i as int]) {
            lemma_scan_digits_ge(cs@, i + 1);
        }
    }
    if d < cs.len() && cs.len() - d > 1 && cs[d] == '.' && digit(cs[d + 1]) {
        exec_scan_digits(cs, d + 1)
    } else {
        d
    }
}

fn exec_token_at(cs: &Vec<char>, j: usize) -> (r: Result<Token, ParseFailure>)
    requires
        j < cs.len(),
    ensures
        r == token_at(cs@, j as int),
        r matches Ok(t) ==> t.start == j && j < t.end <= cs.len() && (t.kind == TokenKind::Str
            ==> t.end >= t.start + 2),
        r matches Err(e) ==> failure_in(e, cs@.len()),
{
    let c = cs[j];
    if ident_start(c) {
        Ok(Token { kind: TokenKind::Word, start: j, end: exec_scan_ident(cs, j + 1) })
    } else if digit(c) {
        Ok(Token { kind: TokenKind::Number, start: j, end: exec_number_end(cs, j) })
    } else if c == '-' && j + 1 < cs.len() && digit(cs[j + 1]) {
        Ok(Token { kind: TokenKind::Number, start: j, end: exec_number_end(cs, j + 1) })
    } else if c == '-' {
        Ok(Token { kind: TokenKind::Minus, start: j, end: j + 1 })
    } else if c == '+' {
        Ok(Token { kind: TokenKind::Plus, start: j, end: j + 1 })
    } else if c == '(' {
        Ok(Token { kind: TokenKind::LParen, start: j, end: j + 1 })
    } else if c == ')' {
        Ok(Token { kind: TokenKind::RParen, start: j, end: j + 1 })
    } else if c == ',' {
        Ok(Token { kind: TokenKind::Comma, start: j, end: j + 1 })
    } else if c == '.' {
        Ok(Token { kind: TokenKind::Dot, start: j, end: j + 1 })
    } else if c == '"' {
        let k = exec_scan_string(cs, j + 1);
        if k < cs.len() {
            Ok(Token { kind: TokenKind::Str, start: j, end: k + 1 })
        } else {
            Err(ParseFailure::Syntax { pos: j, expect: Expect::StringEnd })
        }
    } else {
        Err(ParseFailure::Syntax { pos: j, expect: Expect::Char })
    }
}

/// Splits the text into tokens.
pub fn lex(cs: &Vec<char>) -> (r: Result<Vec<Token>, ParseFailure>)
    ensures
        match r {
            Ok(v) => spec_lex(cs@) == Ok::<Seq<Token>, ParseFailure>(v@),
            Err(e) => spec_lex(cs@) == Err::<Seq<Token>, ParseFailure>(e),
        },
        r matches Ok(v) ==> tokens_in(v@, cs@.len()),
        r matches Err(e) ==> failure_in(e, cs@.len()),
{
    let mut acc: Vec<Token> = Vec::new();
    let mut i: usize = 0;
    loop
        invariant
            i <= cs.len(),
            spec_lex(cs@) == lex_from(cs@, i as int, acc@),
            tokens_in(acc@, cs@.len()),
        decreases cs.len() - i,
    {
        let j = exec_skip_trivia(cs, i);
        if j >= cs.len() {
            return Ok(acc);
        }
        match exec_token_at(cs, j) {
            Ok(t) => {
                acc.push(t);
                i = t.end;
            },
            Err(e) => {
                return Err(e);
            },
        }
    }
}

/// A failure lies within a text of `len` characters.
pub open spec fn failure_in(f: ParseFailure, len: nat) -> bool {
    match f {
        ParseFailure::Syntax { pos, .. } => pos <= len,
    }
}

/// Every token covers a non-empty range of the text; a string token holds
/// at least its two quotes.
pub open spec fn tokens_in(ts: Seq<Token>, len: nat) -> bool {
    forall|k: int|
        0 <= k < ts.len() ==> #[trigger] ts[k].start < ts[k].end && ts[k].end <= len && (
        ts[k].kind == TokenKind::Str ==> ts[k].end >= ts[k].start + 2)
}

} // verus!

//! Grammar of the `.polyh` language over tokens.
//!
//! ```text
//! file        = item*
//! item        = "use" name | define | assemble | export
//! define      = "define" name (units | primitive | manip)* "end"
//! primitive   = prim_kw (units | "move" axis number | name number)* "end"
//! prim_kw     = cube | sphere | cylinder | cone | torus | pyramid | prism
//! units       = "units" (mm | cm | m | in | ft)
//! manip       = ("chamfer" | "fillet" | "shell") number
//!             | ("hole" | "thread") number number?
//!             | "pattern" name number
//! assemble    = "assemble" name (units | op | manip)* "end"
//! op          = ("place" | "join" | "intersect" | "subtract") name "at" position
//!             | "cut" name "at" position ("pointing" direction)?
//! position    = "origin" | "(" number "," number "," number ")"
//! direction   = up | down | left | right | +x | -x | +y | -y | +z | -z
//! export      = "export" ("format" name | "quality" name | "file" file_name)* "end"
//! file_name   = string | name ("." name)*
//! ```
//!
//! A property name is any word but `end`, `units` and `move`. Each reader
//! below returns the value read and the index of the first token after it,
//! or the reason it stopped.

use vstd::prelude::*;
use super::ast::{
    ExportBlock, PolyhFile, SpecPolyhFile, TopLevelItem, opt_string_view,
    AssembleBlock, AssembleItem, AssembleOp, SpecAssembleBlock,
    DefineBlock, DefineItem, Manipulation, SpecDefineBlock,
    MoveStmt, Prop, PrimitiveBlock,
    Axis, Decimal, Direction, Position, PrimKind, Quality, SpecAssembleItem, SpecAssembleOp,
    SpecDefineItem, SpecExportBlock, SpecManipulation, SpecPrimitiveBlock, SpecProp,
    SpecTopLevelItem, Unit,
};
use super::lexer::{Expect, ParseFailure, Token, TokenKind, failure_in, tokens_in};
use super::number::{decimal_of, decimal_of_text};
use crate::units::{lemma_unit_factors, spec_mm_per_unit};
use crate::text::{
    chars_of, lower, lower_chars_of, push_char, string_of_vec, vec_eq_str,
};

verus! {

// ── Token-level model ─────────────────────────────────────────────────────────

/// The characters a token covers.
pub open spec fn text(cs: Seq<char>, t: Token) -> Seq<char> {
    cs.subrange(t.start as int, t.end as int)
}

/// Character position of token `p`, or the end of the text past the last token.
pub open spec fn pos_of(cs: Seq<char>, ts: Seq<Token>, p: int) -> usize {
    if 0 <= p < ts.len() {
        ts[p].start
    } else {
        cs.len() as usize
    }
}

/// A syntax failure at token `p`.
pub open spec fn fail(cs: Seq<char>, ts: Seq<Token>, p: int, e: Expect) -> ParseFailure {
    ParseFailure::Syntax { pos: pos_of(cs, ts, p), expect: e }
}

pub open spec fn is_kind(ts: Seq<Token>, p: int, k: TokenKind) -> bool {
    0 <= p < ts.len() && ts[p].kind == k
}

/// Token `p` is the word `w`.
pub open spec fn is_word(cs: Seq<char>, ts: Seq<Token>, p: int, w: Seq<char>) -> bool {
    is_kind(ts, p, TokenKind::Word) && text(cs, ts[p]) == w
}

// ── Leaves ────────────────────────────────────────────────────────────────────

pub open spec fn spec_name(cs: Seq<char>, ts: Seq<Token>, p: int) -> Result<
    (Seq<char>, int),
    ParseFailure,
> {
    if is_kind(ts, p, TokenKind::Word) {
        Ok((text(cs, ts[p]), p + 1))
    } else {
        Err(fail(cs, ts, p, Expect::Name))
    }
}

pub open spec fn spec_number(cs: Seq<char>, ts: Seq<Token>, p: int) -> Result<
    (Decimal, int),
    ParseFailure,
> {
    if is_kind(ts, p, TokenKind::Number) {
        Ok((decimal_of_text(text(cs, ts[p])), p + 1))
    } else {
        Err(fail(cs, ts, p, Expect::Number))
    }
}

pub open spec fn spec_unit_word(cs: Seq<char>, ts: Seq<Token>, p: int) -> Result<
    (Unit, int),
    ParseFailure,
> {
    if is_word(cs, ts, p, "mm"@) {
        Ok((Unit::Mm, p + 1))
    } else if is_word(cs, ts, p, "cm"@) {
        Ok((Unit::Cm, p + 1))
    } else if is_word(cs, ts, p, "m"@) {
        Ok((Unit::M, p + 1))
    } else if is_word(cs, ts, p, "in"@) {
        Ok((Unit::In, p + 1))
    } else if is_word(cs, ts, p, "ft"@) {
        Ok((Unit::Ft, p + 1))
    } else {
        Err(fail(cs, ts, p, Expect::Unit))
    }
}

pub open spec fn spec_axis(cs: Seq<char>, ts: Seq<Token>, p: int) -> Result<
    (Axis, int),
    ParseFailure,
> {
    if is_word(cs, ts, p, "x"@) {
        Ok((Axis::X, p + 1))
    } else if is_word(cs, ts, p, "y"@) {
        Ok((Axis::Y, p + 1))
    } else if is_word(cs, ts, p, "z"@) {
        Ok((Axis::Z, p + 1))
    } else {
        Err(fail(cs, ts, p, Expect::Axis))
    }
}

/// The axis word of a move statement names its axis: `x`, `y` and `z` read
/// as the X, Y and Z axes, and nothing else reads as an axis.
pub proof fn lemma_axis_words(cs: Seq<char>, ts: Seq<Token>, p: int)
    ensures
        is_word(cs, ts, p, "x"@) ==> spec_axis(cs, ts, p) == Ok::<(Axis, int), ParseFailure>((Axis::X, p + 1)),
        is_word(cs, ts, p, "y"@) ==> spec_axis(cs, ts, p) == Ok::<(Axis, int), ParseFailure>((Axis::Y, p + 1)),
        is_word(cs, ts, p, "z"@) ==> spec_axis(cs, ts, p) == Ok::<(Axis, int), ParseFailure>((Axis::Z, p + 1)),
        !(is_word(cs, ts, p, "x"@) || is_word(cs, ts, p, "y"@) || is_word(cs, ts, p, "z"@))
            ==> spec_axis(cs, ts, p) is Err,
{
    reveal_strlit("x");
    reveal_strlit("y");
    reveal_strlit("z");
    assert("x"@[0] != "y"@[0] && "x"@[0] != "z"@[0] && "y"@[0] != "z"@[0]);
}

/// A move statement `move <axis> <number>` shifts along the axis its word
/// names, by the number written.
pub proof fn lemma_move_axis(cs: Seq<char>, ts: Seq<Token>, p: int)
    requires
        is_kind(ts, p + 2, TokenKind::Number),
    ensures
        is_word(cs, ts, p + 1, "x"@) ==> spec_move(cs, ts, p) == Ok::<(MoveStmt, int), ParseFailure>(
            (MoveStmt { axis: Axis::X, value: decimal_of_text(text(cs, ts[p + 2])) }, p + 3),
        ),
        is_word(cs, ts, p + 1, "y"@) ==> spec_move(cs, ts, p) == Ok::<(MoveStmt, int), ParseFailure>(
            (MoveStmt { axis: Axis::Y, value: decimal_of_text(text(cs, ts[p + 2])) }, p + 3),
        ),
        is_word(cs, ts, p + 1, "z"@) ==> spec_move(cs, ts, p) == Ok::<(MoveStmt, int), ParseFailure>(
            (MoveStmt { axis: Axis::Z, value: decimal_of_text(text(cs, ts[p + 2])) }, p + 3),
        ),
{
    lemma_axis_words(cs, ts, p + 1);
}

/// A unit word names its unit, and the unit measures as many millimetres as
/// its name stands for.
pub proof fn lemma_unit_words(cs: Seq<char>, ts: Seq<Token>, p: int)
    ensures
        is_word(cs, ts, p, "mm"@) ==> spec_unit_word(cs, ts, p) == Ok::<(Unit, int), ParseFailure>((Unit::Mm, p + 1)),
        is_word(cs, ts, p, "cm"@) ==> spec_unit_word(cs, ts, p) == Ok::<(Unit, int), ParseFailure>((Unit::Cm, p + 1)),
        is_word(cs, ts, p, "m"@) ==> spec_unit_word(cs, ts, p) == Ok::<(Unit, int), ParseFailure>((Unit::M, p + 1)),
        is_word(cs, ts, p, "in"@) ==> spec_unit_word(cs, ts, p) == Ok::<(Unit, int), ParseFailure>((Unit::In, p + 1)),
        is_word(cs, ts, p, "ft"@) ==> spec_unit_word(cs, ts, p) == Ok::<(Unit, int), ParseFailure>((Unit::Ft, p + 1)),
        spec_unit_word(cs, ts, p) matches Ok((u, q)) ==> q == p + 1 && is_kind(ts, p, TokenKind::Word)
            && u.spec_to_mm() == spec_mm_per_unit(text(cs, ts[p])),
{
    reveal_strlit("mm");
    reveal_strlit("cm");
    reveal_strlit("m");
    reveal_strlit("in");
    reveal_strlit("ft");
    assert("mm"@[0] != "cm"@[0] && "mm"@.len() != "m"@.len() && "mm"@[0] != "in"@[0] && "mm"@[0] != "ft"@[0]);
    assert("cm"@.len() != "m"@.len() && "cm"@[0] != "in"@[0] && "cm"@[0] != "ft"@[0]);
    assert("m"@.len() != "in"@.len() && "m"@.len() != "ft"@.len() && "in"@[0] != "ft"@[0]);
    lemma_unit_factors();
}

/// Each primitive keyword names its kind of primitive.
pub proof fn lemma_primitive_keywords(cs: Seq<char>, ts: Seq<Token>, p: int)
    ensures
        is_word(cs, ts, p, "cube"@) ==> spec_prim_kind(cs, ts, p) == Some(PrimKind::Cube),
        is_word(cs, ts, p, "sphere"@) ==> spec_prim_kind(cs, ts, p) == Some(PrimKind::Sphere),
        is_word(cs, ts, p, "cylinder"@) ==> spec_prim_kind(cs, ts, p) == Some(PrimKind::Cylinder),
        is_word(cs, ts, p, "cone"@) ==> spec_prim_kind(cs, ts, p) == Some(PrimKind::Cone),
        is_word(cs, ts, p, "torus"@) ==> spec_prim_kind(cs, ts, p) == Some(PrimKind::Torus),
        is_word(cs, ts, p, "pyramid"@) ==> spec_prim_kind(cs, ts, p) == Some(PrimKind::Pyramid),
        is_word(cs, ts, p, "prism"@) ==> spec_prim_kind(cs, ts, p) == Some(PrimKind::Prism),
{
    reveal_strlit("cube");
    reveal_strlit("sphere");
    reveal_strlit("cylinder");
    reveal_strlit("cone");
    reveal_strlit("torus");
    reveal_strlit("pyramid");
    reveal_strlit("prism");
    assert("cube"@[0] != "sphere"@[0] && "cube"@[1] != "cylinder"@[1] && "cube"@[1] != "cone"@[1]);
    assert("cube"@[0] != "torus"@[0] && "cube"@[0] != "pyramid"@[0] && "cube"@[0] != "prism"@[0]);
    assert("sphere"@[0] != "cylinder"@[0] && "sphere"@[0] != "cone"@[0] && "sphere"@[0] != "torus"@[0]);
    assert("sphere"@[0] != "pyramid"@[0] && "sphere"@[0] != "prism"@[0]);
    assert("cylinder"@[1] != "cone"@[1] && "cylinder"@[0] != "torus"@[0] && "cylinder"@[0] != "pyramid"@[0]);
    assert("cylinder"@[0] != "prism"@[0] && "cone"@[0] != "torus"@[0] && "cone"@[0] != "pyramid"@[0]);
    assert("cone"@[0] != "prism"@[0] && "torus"@[0] != "pyramid"@[0] && "torus"@[0] != "prism"@[0]);
    assert("pyramid"@[1] != "prism"@[1]);
}

/// Each direction word, and each sign written right before an axis word,
/// names its direction.
pub proof fn lemma_direction_words(cs: Seq<char>, ts: Seq<Token>, p: int)
    ensures
        is_word(cs, ts, p, "up"@) ==> spec_direction(cs, ts, p) == Ok::<(Direction, int), ParseFailure>((Direction::Up, p + 1)),
        is_word(cs, ts, p, "down"@) ==> spec_direction(cs, ts, p) == Ok::<(Direction, int), ParseFailure>((Direction::Down, p + 1)),
        is_word(cs, ts, p, "left"@) ==> spec_direction(cs, ts, p) == Ok::<(Direction, int), ParseFailure>((Direction::Left, p + 1)),
        is_word(cs, ts, p, "right"@) ==> spec_direction(cs, ts, p) == Ok::<(Direction, int), ParseFailure>((Direction::Right, p + 1)),
        is_signed_axis(cs, ts, p, TokenKind::Plus, "x"@) ==> spec_direction(cs, ts, p) == Ok::<(Direction, int), ParseFailure>((Direction::PosX, p + 2)),
        is_signed_axis(cs, ts, p, TokenKind::Minus, "x"@) ==> spec_direction(cs, ts, p) == Ok::<(Direction, int), ParseFailure>((Direction::NegX, p + 2)),
        is_signed_axis(cs, ts, p, TokenKind::Plus, "y"@) ==> spec_direction(cs, ts, p) == Ok::<(Direction, int), ParseFailure>((Direction::PosY, p + 2)),
        is_signed_axis(cs, ts, p, TokenKind::Minus, "y"@) ==> spec_direction(cs, ts, p) == Ok::<(Direction, int), ParseFailure>((Direction::NegY, p + 2)),
        is_signed_axis(cs, ts, p, TokenKind::Plus, "z"@) ==> spec_direction(cs, ts, p) == Ok::<(Direction, int), ParseFailure>((Direction::PosZ, p + 2)),
        is_signed_axis(cs, ts, p, TokenKind::Minus, "z"@) ==> spec_direction(cs, ts, p) == Ok::<(Direction, int), ParseFailure>((Direction::NegZ, p + 2)),
{
    reveal_strlit("up");
    reveal_strlit("down");
    reveal_strlit("left");
    reveal_strlit("right");
    reveal_strlit("x");
    reveal_strlit("y");
    reveal_strlit("z");
    assert("up"@[0] != "down"@[0] && "up"@[0] != "left"@[0] && "up"@[0] != "right"@[0]);
    assert("down"@[0] != "left"@[0] && "down"@[0] != "right"@[0] && "left"@[0] != "right"@[0]);
    assert("x"@[0] != "y"@[0] && "x"@[0] != "z"@[0] && "y"@[0] != "z"@[0]);
}

// ── Executable leaves ─────────────────────────────────────────────────────────

/// Executable results agree with the model: same value (by view), same
/// next index, or same failure.
pub open spec fn agrees<T: View>(
    r: Result<(T, usize), ParseFailure>,
    s: Result<(T::V, int), ParseFailure>,
) -> bool {
    match r {
        Ok((v, q)) => s == Ok::<(T::V, int), ParseFailure>((v@, q as int)),
        Err(e) => s == Err::<(T::V, int), ParseFailure>(e),
    }
}

/// The index after a successful read lies past `p` and within the tokens;
/// a failure lies within the text.
pub open spec fn advances<T>(r: Result<(T, usize), ParseFailure>, p: usize, n: nat, len: nat) -> bool {
    &&& r matches Ok((_, q)) ==> p < q <= n
    &&& r matches Err(e) ==> failure_in(e, len)
}

fn text_eq(cs: &Vec<char>, start: usize, end: usize, w: &str) -> (r: bool)
    requires
        start <= end <= cs.len(),
    ensures
        r == (cs@.subrange(start as int, end as int) == w@),
{
    let wc = chars_of(w);
    if end - start != wc.len() {
        return false;
    }
    let mut i: usize = 0;
    while i < wc.len()
        invariant
            start <= end <= cs.len(),
            end - start == wc.len(),
            wc@ == w@,
            i <= wc.len(),
            forall|j: int| 0 <= j < i ==> cs@[start + j] == wc@[j],
        decreases wc.len() - i,
    {
        if cs[start + i] != wc[i] {
            return false;
        }
        i = i + 1;
    }
    assert(cs@.subrange(start as int, end as int) =~= wc@);
    true
}

fn kind_is(ts: &Vec<Token>, p: usize, k: TokenKind) -> (r: bool)
    ensures
        r == is_kind(ts@, p as int, k),
{
    p < ts.len() && ts[p].kind == k
}

fn word_is(cs: &Vec<char>, ts: &Vec<Token>, p: usize, w: &str) -> (r: bool)
    requires
        tokens_in(ts@, cs@.len()),
        cs@.len() <= isize::MAX,
    ensures
        r == is_word(cs@, ts@, p as int, w@),
{
    if p < ts.len() && ts[p].kind == TokenKind::Word {
        let t = ts[p];
        text_eq(cs, t.start, t.end, w)
    } else {
        false
    }
}

fn fail_at(cs: &Vec<char>, ts: &Vec<Token>, p: usize, e: Expect) -> (r: ParseFailure)
    requires
        tokens_in(ts@, cs@.len()),
        cs@.len() <= isize::MAX,
    ensures
        r == fail(cs@, ts@, p as int, e),
        failure_in(r, cs@.len()),
{
    if p < ts.len() {
        ParseFailure::Syntax { pos: ts[p].start, expect: e }
    } else {
        ParseFailure::Syntax { pos: cs.len(), expect: e }
    }
}

/// The string of the characters `start..end`.
fn string_of(cs: &Vec<char>, start: usize, end: usize) -> (r: String)
    requires
        start <= end <= cs.len(),
    ensures
        r@ == cs@.subrange(start as int, end as int),
{
    let mut s = String::new();
    let mut i = start;
    while i < end
        invariant
            start <= i <= end <= cs.len(),
            s@ == cs@.subrange(start as int, i as int),
        decreases end - i,
    {
        push_char(&mut s, cs[i]);
        assert(s@ =~= cs@.subrange(start as int, i + 1));
        i = i + 1;
    }
    s
}

fn parse_name(cs: &Vec<char>, ts: &Vec<Token>, p: usize) -> (r: Result<(String, usize), ParseFailure>)
    requires
        tokens_in(ts@, cs@.len()),
        cs@.len() <= isize::MAX,
        p <= ts.len(),
    ensures
        agrees(r, spec_name(cs@, ts@, p as int)),
        advances(r, p, ts@.len(), cs@.len()),
{
    if kind_is(ts, p, TokenKind::Word) {
        let t = ts[p];
        proof {
            assert(tokens_in(ts@, cs@.len()) ==> ts@[p as int].start < ts@[p as int].end <= cs@.len());
        }
        Ok((string_of(cs, t.start, t.end), p + 1))
    } else {
        Err(fail_at(cs, ts, p, Expect::Name))
    }
}

fn parse_number(cs: &Vec<char>, ts: &Vec<Token>, p: usize) -> (r: Result<(Decimal, usize), ParseFailure>)
    requires
        tokens_in(ts@, cs@.len()),
        cs@.len() <= isize::MAX,
        p <= ts.len(),
    ensures
        agrees(r, spec_number(cs@, ts@, p as int)),
        advances(r, p, ts@.len(), cs@.len()),
{
    if kind_is(ts, p, TokenKind::Number) {
        let t = ts[p];
        proof {
            assert(tokens_in(ts@, cs@.len()) ==> ts@[p as int].start < ts@[p as int].end <= cs@.len());
        }
        Ok((decimal_of(cs, t.start, t.end), p + 1))
    } else {
        Err(fail_at(cs, ts, p, Expect::Number))
    }
}

fn parse_unit_word(cs: &Vec<char>, ts: &Vec<Token>, p: usize) -> (r: Result<(Unit, usize), ParseFailure>)
    requires
        tokens_in(ts@, cs@.len()),
        cs@.len() <= isize::MAX,
        p <= ts.len(),
    ensures
        agrees(r, spec_unit_word(cs@, ts@, p as int)),
        advances(r, p, ts@.len(), cs@.len()),
{
    if word_is(cs, ts, p, "mm") {
        Ok((Unit::Mm, p + 1))
    } else if word_is(cs, ts, p, "cm") {
        Ok((Unit::Cm, p + 1))
    } else if word_is(cs, ts, p, "m") {
        Ok((Unit::M, p + 1))
    } else if word_is(cs, ts, p, "in") {
        Ok((Unit::In, p + 1))
    } else if word_is(cs, ts, p, "ft") {
        Ok((Unit::Ft, p + 1))
    } else {
        Err(fail_at(cs, ts, p, Expect::Unit))
    }
}

fn parse_axis(cs: &Vec<char>, ts: &Vec<Token>, p: usize) -> (r: Result<(Axis, usize), ParseFailure>)
    requires
        tokens_in(ts@, cs@.len()),
        cs@.len() <= isize::MAX,
        p <= ts.len(),
    ensures
        agrees(r, spec_axis(cs@, ts@, p as int)),
        advances(r, p, ts@.len(), cs@.len()),
{
    if word_is(cs, ts, p, "x") {
        Ok((Axis::X, p + 1))
    } else if word_is(cs, ts, p, "y") {
        Ok((Axis::Y, p + 1))
    } else if word_is(cs, ts, p, "z") {
        Ok((Axis::Z, p + 1))
    } else {
        Err(fail_at(cs, ts, p, Expect::Axis))
    }
}

// ── Primitive blocks ──────────────────────────────────────────────────────────

/// `move axis number`, with `p` at `move`.
pub open spec fn spec_move(cs: Seq<char>, ts: Seq<Token>, p: int) -> Result<
    (MoveStmt, int),
    ParseFailure,
> {
    match spec_axis(cs, ts, p + 1) {
        Ok((a, q)) => match spec_number(cs, ts, q) {
            Ok((v, r)) => Ok((MoveStmt { axis: a, value: v }, r)),
            Err(e) => Err(e),
        },
        Err(e) => Err(e),
    }
}

/// `name number`, with `p` at the name.
pub open spec fn spec_prop(cs: Seq<char>, ts: Seq<Token>, p: int) -> Result<
    (SpecProp, int),
    ParseFailure,
> {
    match spec_number(cs, ts, p + 1) {
        Ok((v, r)) => Ok((SpecProp { key: text(cs, ts[p]), value: v }, r)),
        Err(e) => Err(e),
    }
}

/// The primitive keyword at `p`, if any.
pub open spec fn spec_prim_kind(cs: Seq<char>, ts: Seq<Token>, p: int) -> Option<PrimKind> {
    if is_word(cs, ts, p, "cube"@) {
        Some(PrimKind::Cube)
    } else if is_word(cs, ts, p, "sphere"@) {
        Some(PrimKind::Sphere)
    } else if is_word(cs, ts, p, "cylinder"@) {
        Some(PrimKind::Cylinder)
    } else if is_word(cs, ts, p, "cone"@) {
        Some(PrimKind::Cone)
    } else if is_word(cs, ts, p, "torus"@) {
        Some(PrimKind::Torus)
    } else if is_word(cs, ts, p, "pyramid"@) {
        Some(PrimKind::Pyramid)
    } else if is_word(cs, ts, p, "prism"@) {
        Some(PrimKind::Prism)
    } else {
        None
    }
}

/// A word that names a property: any word but `end`, `units` and `move`.
pub open spec fn is_prop_key(cs: Seq<char>, ts: Seq<Token>, p: int) -> bool {
    is_kind(ts, p, TokenKind::Word) && !is_word(cs, ts, p, "end"@) && !is_word(
        cs,
        ts,
        p,
        "units"@,
    ) && !is_word(cs, ts, p, "move"@)
}

/// The body of a primitive block from token `p`, after the statements
/// already read: the last `units` statement, the properties and the moves.
pub open spec fn spec_prim_body(
    cs: Seq<char>,
    ts: Seq<Token>,
    p: int,
    units: Option<Unit>,
    props: Seq<SpecProp>,
    moves: Seq<MoveStmt>,
) -> Result<(Option<Unit>, Seq<SpecProp>, Seq<MoveStmt>, int), ParseFailure>
    decreases ts.len() - p,
{
    if is_word(cs, ts, p, "units"@) {
        match spec_unit_word(cs, ts, p + 1) {
            Ok((u, q)) => if q > p {
                spec_prim_body(cs, ts, q, Some(u), props, moves)
            } else {
                Ok((units, props, moves, p))
            },
            Err(e) => Err(e),
        }
    } else if is_word(cs, ts, p, "move"@) {
        match spec_move(cs, ts, p) {
            Ok((m, q)) => if q > p {
                spec_prim_body(cs, ts, q, units, props, moves.push(m))
            } else {
                Ok((units, props, moves, p))
            },
            Err(e) => Err(e),
        }
    } else if is_prop_key(cs, ts, p) {
        match spec_prop(cs, ts, p) {
            Ok((pr, q)) => if q > p {
                spec_prim_body(cs, ts, q, units, props.push(pr), moves)
            } else {
                Ok((units, props, moves, p))
            },
            Err(e) => Err(e),
        }
    } else {
        Ok((units, props, moves, p))
    }
}

/// A primitive block, with `p` at its keyword.
pub open spec fn spec_primitive(cs: Seq<char>, ts: Seq<Token>, p: int) -> Result<
    (SpecPrimitiveBlock, int),
    ParseFailure,
> {
    let kind = spec_prim_kind(cs, ts, p).unwrap();
    match spec_prim_body(cs, ts, p + 1, None, Seq::empty(), Seq::empty()) {
        Ok((units, props, moves, q)) => if is_word(cs, ts, q, "end"@) {
            Ok((SpecPrimitiveBlock { kind, units, props, moves, style: None }, q + 1))
        } else {
            Err(fail(cs, ts, q, Expect::End))
        },
        Err(e) => Err(e),
    }
}

fn parse_move(cs: &Vec<char>, ts: &Vec<Token>, p: usize) -> (r: Result<(MoveStmt, usize), ParseFailure>)
    requires
        tokens_in(ts@, cs@.len()),
        cs@.len() <= isize::MAX,
        p < ts.len(),
    ensures
        agrees(r, spec_move(cs@, ts@, p as int)),
        advances(r, p, ts@.len(), cs@.len()),
{
    match parse_axis(cs, ts, p + 1) {
        Ok((a, q)) => match parse_number(cs, ts, q) {
            Ok((v, r)) => Ok((MoveStmt { axis: a, value: v }, r)),
            Err(e) => Err(e),
        },
        Err(e) => Err(e),
    }
}

fn parse_prop(cs: &Vec<char>, ts: &Vec<Token>, p: usize) -> (r: Result<(Prop, usize), ParseFailure>)
    requires
        tokens_in(ts@, cs@.len()),
        cs@.len() <= isize::MAX,
        p < ts.len(),
    ensures
        agrees(r, spec_prop(cs@, ts@, p as int)),
        advances(r, p, ts@.len(), cs@.len()),
{
    match parse_number(cs, ts, p + 1) {
        Ok((v, r)) => {
            let t = ts[p];
            proof {
                assert(tokens_in(ts@, cs@.len()) ==> ts@[p as int].start < ts@[p as int].end <= cs@.len());
            }
            Ok((Prop { key: string_of(cs, t.start, t.end), value: v }, r))
        },
        Err(e) => Err(e),
    }
}

fn prim_kind(cs: &Vec<char>, ts: &Vec<Token>, p: usize) -> (r: Option<PrimKind>)
    requires
        tokens_in(ts@, cs@.len()),
        cs@.len() <= isize::MAX,
    ensures
        r == spec_prim_kind(cs@, ts@, p as int),
{
    if word_is(cs, ts, p, "cube") {
        Some(PrimKind::Cube)
    } else if word_is(cs, ts, p, "sphere") {
        Some(PrimKind::Sphere)
    } else if word_is(cs, ts, p, "cylinder") {
        Some(PrimKind::Cylinder)
    } else if word_is(cs, ts, p, "cone") {
        Some(PrimKind::Cone)
    } else if word_is(cs, ts, p, "torus") {
        Some(PrimKind::Torus)
    } else if word_is(cs, ts, p, "pyramid") {
        Some(PrimKind::Pyramid)
    } else if word_is(cs, ts, p, "prism") {
        Some(PrimKind::Prism)
    } else {
        None
    }
}

fn prop_key(cs: &Vec<char>, ts: &Vec<Token>, p: usize) -> (r: bool)
    requires
        tokens_in(ts@, cs@.len()),
        cs@.len() <= isize::MAX,
    ensures
        r == is_prop_key(cs@, ts@, p as int),
{
    kind_is(ts, p, TokenKind::Word) && !word_is(cs, ts, p, "end") && !word_is(cs, ts, p, "units")
        && !word_is(cs, ts, p, "move")
}

pub open spec fn props_view(v: Seq<Prop>) -> Seq<SpecProp> {
    v.map_values(|x: Prop| x@)
}

fn parse_primitive(cs: &Vec<char>, ts: &Vec<Token>, p: usize) -> (r: Result<(PrimitiveBlock, usize), ParseFailure>)
    requires
        tokens_in(ts@, cs@.len()),
        cs@.len() <= isize::MAX,
        p < ts.len(),
        spec_prim_kind(cs@, ts@, p as int) is Some,
    ensures
        agrees(r, spec_primitive(cs@, ts@, p as int)),
        advances(r, p, ts@.len(), cs@.len()),
{
    let kind = match prim_kind(cs, ts, p) {
        Some(k) => k,
        None => PrimKind::Cube,
    };
    let mut units: Option<Unit> = None;
    let mut props: Vec<Prop> = Vec::new();
    let mut moves: Vec<MoveStmt> = Vec::new();
    let mut q: usize = p + 1;
    assert(props_view(props@) =~= Seq::<SpecProp>::empty());
    assert(moves@ =~= Seq::<MoveStmt>::empty());
    loop
        invariant
            tokens_in(ts@, cs@.len()),
            cs@.len() <= isize::MAX,
            p < q <= ts.len(),
            spec_prim_kind(cs@, ts@, p as int) is Some,
            kind == spec_prim_kind(cs@, ts@, p as int).unwrap(),
            spec_prim_body(cs@, ts@, p + 1, None, Seq::empty(), Seq::empty()) == spec_prim_body(
                cs@,
                ts@,
                q as int,
                units,
                props_view(props@),
                moves@,
            ),
        decreases ts.len() - q,
    {
        if word_is(cs, ts, q, "units") {
            match parse_unit_word(cs, ts, q + 1) {
                Ok((u, q2)) => {
                    units = Some(u);
                    q = q2;
                },
                Err(e) => {
                    return Err(e);
                },
            }
        } else if word_is(cs, ts, q, "move") {
            match parse_move(cs, ts, q) {
                Ok((m, q2)) => {
                    moves.push(m);
                    q = q2;
                },
                Err(e) => {
                    return Err(e);
                },
            }
        } else if prop_key(cs, ts, q) {
            match parse_prop(cs, ts, q) {
                Ok((pr, q2)) => {
                    let ghost old_props = props@;
                    props.push(pr);
                    assert(props_view(props@) =~= props_view(old_props).push(pr@));
                    q = q2;
                },
                Err(e) => {
                    return Err(e);
                },
            }
        } else if word_is(cs, ts, q, "end") {
            let block = PrimitiveBlock { kind, units, props, moves, style: None };
            assert(block@.props =~= props_view(block.props@));
            return Ok((block, q + 1));
        } else {
            return Err(fail_at(cs, ts, q, Expect::End));
        }
    }
}

// ── Manipulations ─────────────────────────────────────────────────────────────

/// Token `p` starts a manipulation.
pub open spec fn is_manip_kw(cs: Seq<char>, ts: Seq<Token>, p: int) -> bool {
    is_word(cs, ts, p, "chamfer"@) || is_word(cs, ts, p, "fillet"@) || is_word(
        cs,
        ts,
        p,
        "shell"@,
    ) || is_word(cs, ts, p, "hole"@) || is_word(cs, ts, p, "thread"@) || is_word(
        cs,
        ts,
        p,
        "pattern"@,
    )
}

/// `number number?` from token `p`.
pub open spec fn spec_number_opt_number(cs: Seq<char>, ts: Seq<Token>, p: int) -> Result<
    ((Decimal, Option<Decimal>), int),
    ParseFailure,
> {
    match spec_number(cs, ts, p) {
        Ok((d, q)) => if is_kind(ts, q, TokenKind::Number) {
            match spec_number(cs, ts, q) {
                Ok((e, r)) => Ok(((d, Some(e)), r)),
                Err(err) => Err(err),
            }
        } else {
            Ok(((d, None), q))
        },
        Err(err) => Err(err),
    }
}

/// A manipulation, with `p` at its keyword.
pub open spec fn spec_manip(cs: Seq<char>, ts: Seq<Token>, p: int) -> Result<
    (SpecManipulation, int),
    ParseFailure,
> {
    if is_word(cs, ts, p, "chamfer"@) {
        match spec_number(cs, ts, p + 1) {
            Ok((d, q)) => Ok((SpecManipulation::Chamfer(d), q)),
            Err(e) => Err(e),
        }
    } else if is_word(cs, ts, p, "fillet"@) {
        match spec_number(cs, ts, p + 1) {
            Ok((d, q)) => Ok((SpecManipulation::Fillet(d), q)),
            Err(e) => Err(e),
        }
    } else if is_word(cs, ts, p, "shell"@) {
        match spec_number(cs, ts, p + 1) {
            Ok((d, q)) => Ok((SpecManipulation::Shell(d), q)),
            Err(e) => Err(e),
        }
    } else if is_word(cs, ts, p, "hole"@) {
        match spec_number_opt_number(cs, ts, p + 1) {
            Ok(((d, e), q)) => Ok((SpecManipulation::Hole { diameter: d, depth: e }, q)),
            Err(e) => Err(e),
        }
    } else if is_word(cs, ts, p, "thread"@) {
        match spec_number_opt_number(cs, ts, p + 1) {
            Ok(((d, e), q)) => Ok((SpecManipulation::Thread { diameter: d, pitch: e }, q)),
            Err(e) => Err(e),
        }
    } else {
        match spec_name(cs, ts, p + 1) {
            Ok((n, q)) => match spec_number(cs, ts, q) {
                Ok((c, r)) => Ok((SpecManipulation::Pattern { name: n, count: c }, r)),
                Err(e) => Err(e),
            },
            Err(e) => Err(e),
        }
    }
}

/// A manipulation is the one its keyword names, with the number written
/// after the keyword.
pub proof fn lemma_manipulation_keywords(cs: Seq<char>, ts: Seq<Token>, p: int)
    requires
        is_manip_kw(cs, ts, p),
    ensures
        spec_manip(cs, ts, p) matches Ok((m, _)) ==> {
            &&& (m is Chamfer) == is_word(cs, ts, p, "chamfer"@)
            &&& (m is Fillet) == is_word(cs, ts, p, "fillet"@)
            &&& (m is Shell) == is_word(cs, ts, p, "shell"@)
            &&& (m is Hole) == is_word(cs, ts, p, "hole"@)
            &&& (m is Thread) == is_word(cs, ts, p, "thread"@)
            &&& (m is Pattern) == is_word(cs, ts, p, "pattern"@)
        },
        is_word(cs, ts, p, "chamfer"@) && is_kind(ts, p + 1, TokenKind::Number) ==> spec_manip(cs, ts, p)
            == Ok::<(SpecManipulation, int), ParseFailure>(
            (SpecManipulation::Chamfer(decimal_of_text(text(cs, ts[p + 1]))), p + 2),
        ),
        is_word(cs, ts, p, "fillet"@) && is_kind(ts, p + 1, TokenKind::Number) ==> spec_manip(cs, ts, p)
            == Ok::<(SpecManipulation, int), ParseFailure>(
            (SpecManipulation::Fillet(decimal_of_text(text(cs, ts[p + 1]))), p + 2),
        ),
        is_word(cs, ts, p, "shell"@) && is_kind(ts, p + 1, TokenKind::Number) ==> spec_manip(cs, ts, p)
            == Ok::<(SpecManipulation, int), ParseFailure>(
            (SpecManipulation::Shell(decimal_of_text(text(cs, ts[p + 1]))), p + 2),
        ),
{
    reveal_strlit("chamfer");
    reveal_strlit("fillet");
    reveal_strlit("shell");
    reveal_strlit("hole");
    reveal_strlit("thread");
    reveal_strlit("pattern");
    assert("chamfer"@[0] != "fillet"@[0] && "chamfer"@[0] != "shell"@[0] && "chamfer"@[0] != "hole"@[0]);
    assert("chamfer"@[0] != "thread"@[0] && "chamfer"@[0] != "pattern"@[0] && "fillet"@[0] != "shell"@[0]);
    assert("fillet"@[0] != "hole"@[0] && "fillet"@[0] != "thread"@[0] && "fillet"@[0] != "pattern"@[0]);
    assert("shell"@[0] != "hole"@[0] && "shell"@[0] != "thread"@[0] && "shell"@[0] != "pattern"@[0]);
    assert("hole"@[0] != "thread"@[0] && "hole"@[0] != "pattern"@[0] && "thread"@[0] != "pattern"@[0]);
}

fn manip_kw(cs: &Vec<char>, ts: &Vec<Token>, p: usize) -> (r: bool)
    requires
        tokens_in(ts@, cs@.len()),
        cs@.len() <= isize::MAX,
    ensures
        r == is_manip_kw(cs@, ts@, p as int),
{
    word_is(cs, ts, p, "chamfer") || word_is(cs, ts, p, "fillet") || word_is(cs, ts, p, "shell")
        || word_is(cs, ts, p, "hole") || word_is(cs, ts, p, "thread") || word_is(
        cs,
        ts,
        p,
        "pattern",
    )
}

fn parse_number_opt_number(cs: &Vec<char>, ts: &Vec<Token>, p: usize) -> (r: Result<
    ((Decimal, Option<Decimal>), usize),
    ParseFailure,
>)
    requires
        tokens_in(ts@, cs@.len()),
        cs@.len() <= isize::MAX,
        p <= ts.len(),
    ensures
        agrees(r, spec_number_opt_number(cs@, ts@, p as int)),
        advances(r, p, ts@.len(), cs@.len()),
{
    match parse_number(cs, ts, p) {
        Ok((d, q)) => if kind_is(ts, q, TokenKind::Number) {
            match parse_number(cs, ts, q) {
                Ok((e, r)) => Ok(((d, Some(e)), r)),
                Err(err) => Err(err),
            }
        } else {
            Ok(((d, None), q))
        },
        Err(err) => Err(err),
    }
}

fn parse_manip(cs: &Vec<char>, ts: &Vec<Token>, p: usize) -> (r: Result<(Manipulation, usize), ParseFailure>)
    requires
        tokens_in(ts@, cs@.len()),
        cs@.len() <= isize::MAX,
        p < ts.len(),
    ensures
        agrees(r, spec_manip(cs@, ts@, p as int)),
        advances(r, p, ts@.len(), cs@.len()),
{
    if word_is(cs, ts, p, "chamfer") {
        match parse_number(cs, ts, p + 1) {
            Ok((d, q)) => Ok((Manipulation::Chamfer(d), q)),
            Err(e) => Err(e),
        }
    } else if word_is(cs, ts, p, "fillet") {
        match parse_number(cs, ts, p + 1) {
            Ok((d, q)) => Ok((Manipulation::Fillet(d), q)),
            Err(e) => Err(e),
        }
    } else if word_is(cs, ts, p, "shell") {
        match parse_number(cs, ts, p + 1) {
            Ok((d, q)) => Ok((Manipulation::Shell(d), q)),
            Err(e) => Err(e),
        }
    } else if word_is(cs, ts, p, "hole") {
        match parse_number_opt_number(cs, ts, p + 1) {
            Ok(((d, e), q)) => Ok((Manipulation::Hole { diameter: d, depth: e }, q)),
            Err(e) => Err(e),
        }
    } else if word_is(cs, ts, p, "thread") {
        match parse_number_opt_number(cs, ts, p + 1) {
            Ok(((d, e), q)) => Ok((Manipulation::Thread { diameter: d, pitch: e }, q)),
            Err(e) => Err(e),
        }
    } else {
        match parse_name(cs, ts, p + 1) {
            Ok((n, q)) => match parse_number(cs, ts, q) {
                Ok((c, r)) => Ok((Manipulation::Pattern { name: n, count: c }, r)),
                Err(e) => Err(e),
            },
            Err(e) => Err(e),
        }
    }
}

// ── Define blocks ─────────────────────────────────────────────────────────────

/// The items of a define block from token `p`, after those in `acc`.
pub open spec fn spec_define_body(
    cs: Seq<char>,
    ts: Seq<Token>,
    p: int,
    acc: Seq<SpecDefineItem>,
) -> Result<(Seq<SpecDefineItem>, int), ParseFailure>
    decreases ts.len() - p,
{
    if is_word(cs, ts, p, "units"@) {
        match spec_unit_word(cs, ts, p + 1) {
            Ok((u, q)) => if q > p {
                spec_define_body(cs, ts, q, acc.push(SpecDefineItem::Units(u)))
            } else {
                Ok((acc, p))
            },
            Err(e) => Err(e),
        }
    } else if spec_prim_kind(cs, ts, p) is Some {
        match spec_primitive(cs, ts, p) {
            Ok((b, q)) => if q > p {
                spec_define_body(cs, ts, q, acc.push(SpecDefineItem::Primitive(b)))
            } else {
                Ok((acc, p))
            },
            Err(e) => Err(e),
        }
    } else if is_manip_kw(cs, ts, p) {
        match spec_manip(cs, ts, p) {
            Ok((m, q)) => if q > p {
                spec_define_body(cs, ts, q, acc.push(SpecDefineItem::Manip(m)))
            } else {
                Ok((acc, p))
            },
            Err(e) => Err(e),
        }
    } else {
        Ok((acc, p))
    }
}

/// A define block, with `p` at `define`.
pub open spec fn spec_define(cs: Seq<char>, ts: Seq<Token>, p: int) -> Result<
    (SpecDefineBlock, int),
    ParseFailure,
> {
    match spec_name(cs, ts, p + 1) {
        Ok((name, q)) => match spec_define_body(cs, ts, q, Seq::empty()) {
            Ok((items, r)) => if is_word(cs, ts, r, "end"@) {
                Ok((SpecDefineBlock { name, items }, r + 1))
            } else {
                Err(fail(cs, ts, r, Expect::End))
            },
            Err(e) => Err(e),
        },
        Err(e) => Err(e),
    }
}

pub open spec fn define_items_view(v: Seq<DefineItem>) -> Seq<SpecDefineItem> {
    v.map_values(|x: DefineItem| x@)
}

fn parse_define(cs: &Vec<char>, ts: &Vec<Token>, p: usize) -> (r: Result<(DefineBlock, usize), ParseFailure>)
    requires
        tokens_in(ts@, cs@.len()),
        cs@.len() <= isize::MAX,
        p < ts.len(),
    ensures
        agrees(r, spec_define(cs@, ts@, p as int)),
        advances(r, p, ts@.len(), cs@.len()),
{
    let (name, q0) = match parse_name(cs, ts, p + 1) {
        Ok(x) => x,
        Err(e) => {
            return Err(e);
        },
    };
    let mut items: Vec<DefineItem> = Vec::new();
    let mut q = q0;
    assert(define_items_view(items@) =~= Seq::<SpecDefineItem>::empty());
    loop
        invariant
            tokens_in(ts@, cs@.len()),
            cs@.len() <= isize::MAX,
            p < q <= ts.len(),
            spec_name(cs@, ts@, p + 1) == Ok::<(Seq<char>, int), ParseFailure>((name@, q0 as int)),
            spec_define_body(cs@, ts@, q0 as int, Seq::empty()) == spec_define_body(
                cs@,
                ts@,
                q as int,
                define_items_view(items@),
            ),
        decreases ts.len() - q,
    {
        let ghost old_items = items@;
        if word_is(cs, ts, q, "units") {
            match parse_unit_word(cs, ts, q + 1) {
                Ok((u, q2)) => {
                    items.push(DefineItem::Units(u));
                    assert(define_items_view(items@) =~= define_items_view(old_items).push(
                        SpecDefineItem::Units(u),
                    ));
                    q = q2;
                },
                Err(e) => {
                    return Err(e);
                },
            }
        } else if prim_kind(cs, ts, q).is_some() {
            match parse_primitive(cs, ts, q) {
                Ok((b, q2)) => {
                    let ghost bv = b@;
                    items.push(DefineItem::Primitive(b));
                    assert(define_items_view(items@) =~= define_items_view(old_items).push(
                        SpecDefineItem::Primitive(bv),
                    ));
                    q = q2;
                },
                Err(e) => {
                    return Err(e);
                },
            }
        } else if manip_kw(cs, ts, q) {
            match parse_manip(cs, ts, q) {
                Ok((m, q2)) => {
                    let ghost mv = m@;
                    items.push(DefineItem::Manip(m));
                    assert(define_items_view(items@) =~= define_items_view(old_items).push(
                        SpecDefineItem::Manip(mv),
                    ));
                    q = q2;
                },
                Err(e) => {
                    return Err(e);
                },
            }
        } else if word_is(cs, ts, q, "end") {
            let block = DefineBlock { name, items };
            assert(block@.items =~= define_items_view(block.items@));
            return Ok((block, q + 1));
        } else {
            return Err(fail_at(cs, ts, q, Expect::End));
        }
    }
}

// ── Assemble blocks ───────────────────────────────────────────────────────────

/// `origin` or `(x, y, z)` from token `p`.
pub open spec fn spec_position(cs: Seq<char>, ts: Seq<Token>, p: int) -> Result<
    (Position, int),
    ParseFailure,
> {
    if is_word(cs, ts, p, "origin"@) {
        Ok((Position::Origin, p + 1))
    } else if is_kind(ts, p, TokenKind::LParen) {
        match spec_number(cs, ts, p + 1) {
            Ok((x, q1)) => if !is_kind(ts, q1, TokenKind::Comma) {
                Err(fail(cs, ts, q1, Expect::Comma))
            } else {
                match spec_number(cs, ts, q1 + 1) {
                    Ok((y, q2)) => if !is_kind(ts, q2, TokenKind::Comma) {
                        Err(fail(cs, ts, q2, Expect::Comma))
                    } else {
                        match spec_number(cs, ts, q2 + 1) {
                            Ok((z, q3)) => if !is_kind(ts, q3, TokenKind::RParen) {
                                Err(fail(cs, ts, q3, Expect::RParen))
                            } else {
                                Ok((Position::Coords(x, y, z), q3 + 1))
                            },
                            Err(e) => Err(e),
                        }
                    },
                    Err(e) => Err(e),
                }
            },
            Err(e) => Err(e),
        }
    } else {
        Err(fail(cs, ts, p, Expect::Position))
    }
}

/// A sign mark at `p` written right before the word `w`.
pub open spec fn is_signed_axis(
    cs: Seq<char>,
    ts: Seq<Token>,
    p: int,
    sign: TokenKind,
    w: Seq<char>,
) -> bool {
    is_kind(ts, p, sign) && is_word(cs, ts, p + 1, w) && ts[p].end == ts[p + 1].start
}

/// A direction from token `p`.
pub open spec fn spec_direction(cs: Seq<char>, ts: Seq<Token>, p: int) -> Result<
    (Direction, int),
    ParseFailure,
> {
    if is_word(cs, ts, p, "up"@) {
        Ok((Direction::Up, p + 1))
    } else if is_word(cs, ts, p, "down"@) {
        Ok((Direction::Down, p + 1))
    } else if is_word(cs, ts, p, "left"@) {
        Ok((Direction::Left, p + 1))
    } else if is_word(cs, ts, p, "right"@) {
        Ok((Direction::Right, p + 1))
    } else if is_signed_axis(cs, ts, p, TokenKind::Plus, "x"@) {
        Ok((Direction::PosX, p + 2))
    } else if is_signed_axis(cs, ts, p, TokenKind::Minus, "x"@) {
        Ok((Direction::NegX, p + 2))
    } else if is_signed_axis(cs, ts, p, TokenKind::Plus, "y"@) {
        Ok((Direction::PosY, p + 2))
    } else if is_signed_axis(cs, ts, p, TokenKind::Minus, "y"@) {
        Ok((Direction::NegY, p + 2))
    } else if is_signed_axis(cs, ts, p, TokenKind::Plus, "z"@) {
        Ok((Direction::PosZ, p + 2))
    } else if is_signed_axis(cs, ts, p, TokenKind::Minus, "z"@) {
        Ok((Direction::NegZ, p + 2))
    } else {
        Err(fail(cs, ts, p, Expect::Direction))
    }
}

/// Token `p` starts an assembly operation.
pub open spec fn is_op_kw(cs: Seq<char>, ts: Seq<Token>, p: int) -> bool {
    is_word(cs, ts, p, "place"@) || is_word(cs, ts, p, "cut"@) || is_word(cs, ts, p, "join"@)
        || is_word(cs, ts, p, "intersect"@) || is_word(cs, ts, p, "subtract"@)
}

/// An assembly operation, with `p` at its keyword.
pub open spec fn spec_op(cs: Seq<char>, ts: Seq<Token>, p: int) -> Result<
    (SpecAssembleOp, int),
    ParseFailure,
> {
    match spec_name(cs, ts, p + 1) {
        Ok((name, q)) => if !is_word(cs, ts, q, "at"@) {
            Err(fail(cs, ts, q, Expect::At))
        } else {
            match spec_position(cs, ts, q + 1) {
                Ok((at, r)) => if is_word(cs, ts, p, "place"@) {
                    Ok((SpecAssembleOp::Place { name, at }, r))
                } else if is_word(cs, ts, p, "cut"@) {
                    if is_word(cs, ts, r, "pointing"@) {
                        match spec_direction(cs, ts, r + 1) {
                            Ok((d, s)) => Ok(
                                (SpecAssembleOp::Cut { name, at, pointing: Some(d) }, s),
                            ),
                            Err(e) => Err(e),
                        }
                    } else {
                        Ok((SpecAssembleOp::Cut { name, at, pointing: None }, r))
                    }
                } else if is_word(cs, ts, p, "join"@) {
                    Ok((SpecAssembleOp::Join { name, at }, r))
                } else if is_word(cs, ts, p, "intersect"@) {
                    Ok((SpecAssembleOp::Intersect { name, at }, r))
                } else {
                    Ok((SpecAssembleOp::Subtract { name, at }, r))
                },
                Err(e) => Err(e),
            }
        },
        Err(e) => Err(e),
    }
}

/// An assembly operation is the one its keyword names, on the definition
/// named after the keyword.
pub proof fn lemma_operation_keywords(cs: Seq<char>, ts: Seq<Token>, p: int)
    requires
        is_op_kw(cs, ts, p),
    ensures
        spec_op(cs, ts, p) matches Ok((op, _)) ==> {
            &&& (op is Place) == is_word(cs, ts, p, "place"@)
            &&& (op is Cut) == is_word(cs, ts, p, "cut"@)
            &&& (op is Join) == is_word(cs, ts, p, "join"@)
            &&& (op is Intersect) == is_word(cs, ts, p, "intersect"@)
            &&& (op is Subtract) == is_word(cs, ts, p, "subtract"@)
            &&& spec_name(cs, ts, p + 1) matches Ok((n, _)) && op_name_of(op) == n
        },
{
    reveal_strlit("place");
    reveal_strlit("cut");
    reveal_strlit("join");
    reveal_strlit("intersect");
    reveal_strlit("subtract");
    assert("place"@[0] != "cut"@[0] && "place"@[0] != "join"@[0] && "place"@[0] != "intersect"@[0]);
    assert("place"@[0] != "subtract"@[0] && "cut"@[0] != "join"@[0] && "cut"@[0] != "intersect"@[0]);
    assert("cut"@[0] != "subtract"@[0] && "join"@[0] != "intersect"@[0] && "join"@[0] != "subtract"@[0]);
    assert("intersect"@[0] != "subtract"@[0]);
}

/// The name of the definition an operation uses.
pub open spec fn op_name_of(op: SpecAssembleOp) -> Seq<char> {
    match op {
        SpecAssembleOp::Place { name, .. } => name,
        SpecAssembleOp::Cut { name, .. } => name,
        SpecAssembleOp::Join { name, .. } => name,
        SpecAssembleOp::Intersect { name, .. } => name,
        SpecAssembleOp::Subtract { name, .. } => name,
    }
}

/// The items of an assemble block from token `p`, after those in `acc`.
pub open spec fn spec_assemble_body(
    cs: Seq<char>,
    ts: Seq<Token>,
    p: int,
    acc: Seq<SpecAssembleItem>,
) -> Result<(Seq<SpecAssembleItem>, int), ParseFailure>
    decreases ts.len() - p,
{
    if is_word(cs, ts, p, "units"@) {
        match spec_unit_word(cs, ts, p + 1) {
            Ok((u, q)) => if q > p {
                spec_assemble_body(cs, ts, q, acc.push(SpecAssembleItem::Units(u)))
            } else {
                Ok((acc, p))
            },
            Err(e) => Err(e),
        }
    } else if is_op_kw(cs, ts, p) {
        match spec_op(cs, ts, p) {
            Ok((o, q)) => if q > p {
                spec_assemble_body(cs, ts, q, acc.push(SpecAssembleItem::Op(o)))
            } else {
                Ok((acc, p))
            },
            Err(e) => Err(e),
        }
    } else if is_manip_kw(cs, ts, p) {
        match spec_manip(cs, ts, p) {
            Ok((m, q)) => if q > p {
                spec_assemble_body(cs, ts, q, acc.push(SpecAssembleItem::Manip(m)))
            } else {
                Ok((acc, p))
            },
            Err(e) => Err(e),
        }
    } else {
        Ok((acc, p))
    }
}

/// An assemble block, with `p` at `assemble`.
pub open spec fn spec_assemble(cs: Seq<char>, ts: Seq<Token>, p: int) -> Result<
    (SpecAssembleBlock, int),
    ParseFailure,
> {
    match spec_name(cs, ts, p + 1) {
        Ok((name, q)) => match spec_assemble_body(cs, ts, q, Seq::empty()) {
            Ok((items, r)) => if is_word(cs, ts, r, "end"@) {
                Ok((SpecAssembleBlock { name, items }, r + 1))
            } else {
                Err(fail(cs, ts, r, Expect::End))
            },
            Err(e) => Err(e),
        },
        Err(e) => Err(e),
    }
}

fn expect_kind(cs: &Vec<char>, ts: &Vec<Token>, p: usize, k: TokenKind, e: Expect) -> (r: Result<usize, ParseFailure>)
    requires
        tokens_in(ts@, cs@.len()),
        cs@.len() <= isize::MAX,
        p <= ts.len(),
    ensures
        match r {
            Ok(q) => is_kind(ts@, p as int, k) && q == p + 1,
            Err(f) => !is_kind(ts@, p as int, k) && f == fail(cs@, ts@, p as int, e) && failure_in(
                f,
                cs@.len(),
            ),
        },
{
    if kind_is(ts, p, k) {
        Ok(p + 1)
    } else {
        Err(fail_at(cs, ts, p, e))
    }
}

fn parse_position(cs: &Vec<char>, ts: &Vec<Token>, p: usize) -> (r: Result<(Position, usize), ParseFailure>)
    requires
        tokens_in(ts@, cs@.len()),
        cs@.len() <= isize::MAX,
        p <= ts.len(),
    ensures
        agrees(r, spec_position(cs@, ts@, p as int)),
        advances(r, p, ts@.len(), cs@.len()),
{
    if word_is(cs, ts, p, "origin") {
        return Ok((Position::Origin, p + 1));
    }
    if !kind_is(ts, p, TokenKind::LParen) {
        return Err(fail_at(cs, ts, p, Expect::Position));
    }
    let (x, q1) = match parse_number(cs, ts, p + 1) {
        Ok(v) => v,
        Err(e) => {
            return Err(e);
        },
    };
    let c1 = match expect_kind(cs, ts, q1, TokenKind::Comma, Expect::Comma) {
        Ok(c) => c,
        Err(e) => {
            return Err(e);
        },
    };
    let (y, q2) = match parse_number(cs, ts, c1) {
        Ok(v) => v,
        Err(e) => {
            return Err(e);
        },
    };
    let c2 = match expect_kind(cs, ts, q2, TokenKind::Comma, Expect::Comma) {
        Ok(c) => c,
        Err(e) => {
            return Err(e);
        },
    };
    let (z, q3) = match parse_number(cs, ts, c2) {
        Ok(v) => v,
        Err(e) => {
            return Err(e);
        },
    };
    match expect_kind(cs, ts, q3, TokenKind::RParen, Expect::RParen) {
        Ok(c) => Ok((Position::Coords(x, y, z), c)),
        Err(e) => Err(e),
    }
}

fn signed_axis(cs: &Vec<char>, ts: &Vec<Token>, p: usize, sign: TokenKind, w: &str) -> (r: bool)
    requires
        tokens_in(ts@, cs@.len()),
        cs@.len() <= isize::MAX,
    ensures
        r == is_signed_axis(cs@, ts@, p as int, sign, w@),
{
    if kind_is(ts, p, sign) && ts.len() - p > 1 && word_is(cs, ts, p + 1, w) {
        ts[p].end == ts[p + 1].start
    } else {
        false
    }
}

fn parse_direction(cs: &Vec<char>, ts: &Vec<Token>, p: usize) -> (r: Result<(Direction, usize), ParseFailure>)
    requires
        tokens_in(ts@, cs@.len()),
        cs@.len() <= isize::MAX,
        p <= ts.len(),
    ensures
        agrees(r, spec_direction(cs@, ts@, p as int)),
        advances(r, p, ts@.len(), cs@.len()),
{
    if word_is(cs, ts, p, "up") {
        Ok((Direction::Up, p + 1))
    } else if word_is(cs, ts, p, "down") {
        Ok((Direction::Down, p + 1))
    } else if word_is(cs, ts, p, "left") {
        Ok((Direction::Left, p + 1))
    } else if word_is(cs, ts, p, "right") {
        Ok((Direction::Right, p + 1))
    } else if signed_axis(cs, ts, p, TokenKind::Plus, "x") {
        Ok((Direction::PosX, p + 2))
    } else if signed_axis(cs, ts, p, TokenKind::Minus, "x") {
        Ok((Direction::NegX, p + 2))
    } else if signed_axis(cs, ts, p, TokenKind::Plus, "y") {
        Ok((Direction::PosY, p + 2))
    } else if signed_axis(cs, ts, p, TokenKind::Minus, "y") {
        Ok((Direction::NegY, p + 2))
    } else if signed_axis(cs, ts, p, TokenKind::Plus, "z") {
        Ok((Direction::PosZ, p + 2))
    } else if signed_axis(cs, ts, p, TokenKind::Minus, "z") {
        Ok((Direction::NegZ, p + 2))
    } else {
        Err(fail_at(cs, ts, p, Expect::Direction))
    }
}

fn op_kw(cs: &Vec<char>, ts: &Vec<Token>, p: usize) -> (r: bool)
    requires
        tokens_in(ts@, cs@.len()),
        cs@.len() <= isize::MAX,
    ensures
        r == is_op_kw(cs@, ts@, p as int),
{
    word_is(cs, ts, p, "place") || word_is(cs, ts, p, "cut") || word_is(cs, ts, p, "join")
        || word_is(cs, ts, p, "intersect") || word_is(cs, ts, p, "subtract")
}

fn parse_op(cs: &Vec<char>, ts: &Vec<Token>, p: usize) -> (r: Result<(AssembleOp, usize), ParseFailure>)
    requires
        tokens_in(ts@, cs@.len()),
        cs@.len() <= isize::MAX,
        p < ts.len(),
    ensures
        agrees(r, spec_op(cs@, ts@, p as int)),
        advances(r, p, ts@.len(), cs@.len()),
{
    let (name, q) = match parse_name(cs, ts, p + 1) {
        Ok(v) => v,
        Err(e) => {
            return Err(e);
        },
    };
    if !word_is(cs, ts, q, "at") {
        return Err(fail_at(cs, ts, q, Expect::At));
    }
    let (at, r) = match parse_position(cs, ts, q + 1) {
        Ok(v) => v,
        Err(e) => {
            return Err(e);
        },
    };
    if word_is(cs, ts, p, "place") {
        Ok((AssembleOp::Place { name, at }, r))
    } else if word_is(cs, ts, p, "cut") {
        if word_is(cs, ts, r, "pointing") {
            match parse_direction(cs, ts, r + 1) {
                Ok((d, s)) => Ok((AssembleOp::Cut { name, at, pointing: Some(d) }, s)),
                Err(e) => Err(e),
            }
        } else {
            Ok((AssembleOp::Cut { name, at, pointing: None }, r))
        }
    } else if word_is(cs, ts, p, "join") {
        Ok((AssembleOp::Join { name, at }, r))
    } else if word_is(cs, ts, p, "intersect") {
        Ok((AssembleOp::Intersect { name, at }, r))
    } else {
        Ok((AssembleOp::Subtract { name, at }, r))
    }
}

pub open spec fn assemble_items_view(v: Seq<AssembleItem>) -> Seq<SpecAssembleItem> {
    v.map_values(|x: AssembleItem| x@)
}

fn parse_assemble(cs: &Vec<char>, ts: &Vec<Token>, p: usize) -> (r: Result<(AssembleBlock, usize), ParseFailure>)
    requires
        tokens_in(ts@, cs@.len()),
        cs@.len() <= isize::MAX,
        p < ts.len(),
    ensures
        agrees(r, spec_assemble(cs@, ts@, p as int)),
        advances(r, p, ts@.len(), cs@.len()),
{
    let (name, q0) = match parse_name(cs, ts, p + 1) {
        Ok(x) => x,
        Err(e) => {
            return Err(e);
        },
    };
    let mut items: Vec<AssembleItem> = Vec::new();
    let mut q = q0;
    assert(assemble_items_view(items@) =~= Seq::<SpecAssembleItem>::empty());
    loop
        invariant
            tokens_in(ts@, cs@.len()),
            cs@.len() <= isize::MAX,
            p < q <= ts.len(),
            spec_name(cs@, ts@, p + 1) == Ok::<(Seq<char>, int), ParseFailure>((name@, q0 as int)),
            spec_assemble_body(cs@, ts@, q0 as int, Seq::empty()) == spec_assemble_body(
                cs@,
                ts@,
                q as int,
                assemble_items_view(items@),
            ),
        decreases ts.len() - q,
    {
        let ghost old_items = items@;
        if word_is(cs, ts, q, "units") {
            match parse_unit_word(cs, ts, q + 1) {
                Ok((u, q2)) => {
                    items.push(AssembleItem::Units(u));
                    assert(assemble_items_view(items@) =~= assemble_items_view(old_items).push(
                        SpecAssembleItem::Units(u),
                    ));
                    q = q2;
                },
                Err(e) => {
                    return Err(e);
                },
            }
        } else if op_kw(cs, ts, q) {
            match parse_op(cs, ts, q) {
                Ok((o, q2)) => {
                    let ghost ov = o@;
                    items.push(AssembleItem::Op(o));
                    assert(assemble_items_view(items@) =~= assemble_items_view(old_items).push(
                        SpecAssembleItem::Op(ov),
                    ));
                    q = q2;
                },
                Err(e) => {
                    return Err(e);
                },
            }
        } else if manip_kw(cs, ts, q) {
            match parse_manip(cs, ts, q) {
                Ok((m, q2)) => {
                    let ghost mv = m@;
                    items.push(AssembleItem::Manip(m));
                    assert(assemble_items_view(items@) =~= assemble_items_view(old_items).push(
                        SpecAssembleItem::Manip(mv),
                    ));
                    q = q2;
                },
                Err(e) => {
                    return Err(e);
                },
            }
        } else if word_is(cs, ts, q, "end") {
            let block = AssembleBlock { name, items };
            assert(block@.items =~= assemble_items_view(block.items@));
            return Ok((block, q + 1));
        } else {
            return Err(fail_at(cs, ts, q, Expect::End));
        }
    }
}

// ── Export blocks ─────────────────────────────────────────────────────────────

/// The quality named by a word, in any case; unknown names mean medium.
pub open spec fn spec_quality_of(w: Seq<char>) -> Quality {
    let l = lower(w);
    if l == "low"@ {
        Quality::Low
    } else if l == "high"@ {
        Quality::High
    } else if l == "ultra"@ {
        Quality::Ultra
    } else {
        Quality::Medium
    }
}

/// `("." name)*` from token `p`: each dot and name is appended to `acc`.
pub open spec fn spec_file_words(cs: Seq<char>, ts: Seq<Token>, p: int, acc: Seq<char>) -> (
    Seq<char>,
    int,
)
    decreases ts.len() - p,
{
    if 0 <= p && is_kind(ts, p, TokenKind::Dot) && is_kind(ts, p + 1, TokenKind::Word) {
        spec_file_words(cs, ts, p + 2, acc + "."@ + text(cs, ts[p + 1]))
    } else {
        (acc, p)
    }
}

/// A file name from token `p`: a string without its quotes, or dotted names
/// as written (`out.stl`).
pub open spec fn spec_file_name(cs: Seq<char>, ts: Seq<Token>, p: int) -> Result<
    (Seq<char>, int),
    ParseFailure,
> {
    if is_kind(ts, p, TokenKind::Str) {
        let t = text(cs, ts[p]);
        Ok((t.subrange(1, t.len() - 1), p + 1))
    } else if is_kind(ts, p, TokenKind::Word) {
        let (s, q) = spec_file_words(cs, ts, p + 1, text(cs, ts[p]));
        Ok((s, q))
    } else {
        Err(fail(cs, ts, p, Expect::FileName))
    }
}

/// The body of an export block from token `p`; each statement replaces the
/// setting it names.
pub open spec fn spec_export_body(
    cs: Seq<char>,
    ts: Seq<Token>,
    p: int,
    format: Option<Seq<char>>,
    quality: Option<Quality>,
    file: Option<Seq<char>>,
) -> Result<(SpecExportBlock, int), ParseFailure>
    decreases ts.len() - p,
{
    if is_word(cs, ts, p, "format"@) {
        match spec_name(cs, ts, p + 1) {
            Ok((n, q)) => if q > p {
                spec_export_body(cs, ts, q, Some(lower(n)), quality, file)
            } else {
                Ok((SpecExportBlock { format, quality, file }, p))
            },
            Err(e) => Err(e),
        }
    } else if is_word(cs, ts, p, "quality"@) {
        match spec_name(cs, ts, p + 1) {
            Ok((n, q)) => if q > p {
                spec_export_body(cs, ts, q, format, Some(spec_quality_of(n)), file)
            } else {
                Ok((SpecExportBlock { format, quality, file }, p))
            },
            Err(e) => Err(e),
        }
    } else if is_word(cs, ts, p, "file"@) {
        match spec_file_name(cs, ts, p + 1) {
            Ok((f, q)) => if p < q <= ts.len() {
                spec_export_body(cs, ts, q, format, quality, Some(f))
            } else {
                Ok((SpecExportBlock { format, quality, file }, p))
            },
            Err(e) => Err(e),
        }
    } else {
        Ok((SpecExportBlock { format, quality, file }, p))
    }
}

/// An export block, with `p` at `export`.
pub open spec fn spec_export(cs: Seq<char>, ts: Seq<Token>, p: int) -> Result<
    (SpecExportBlock, int),
    ParseFailure,
> {
    match spec_export_body(cs, ts, p + 1, None, None, None) {
        Ok((b, q)) => if is_word(cs, ts, q, "end"@) {
            Ok((b, q + 1))
        } else {
            Err(fail(cs, ts, q, Expect::End))
        },
        Err(e) => Err(e),
    }
}

fn quality_of(v: &Vec<char>) -> (r: Quality)
    ensures
        r == spec_quality_of(v@),
{
    let l = lower_chars_of(v, 0, v.len());
    assert(v@.subrange(0, v.len() as int) =~= v@);
    if vec_eq_str(&l, "low") {
        Quality::Low
    } else if vec_eq_str(&l, "high") {
        Quality::High
    } else if vec_eq_str(&l, "ultra") {
        Quality::Ultra
    } else {
        Quality::Medium
    }
}

fn parse_file_name(cs: &Vec<char>, ts: &Vec<Token>, p: usize) -> (r: Result<(String, usize), ParseFailure>)
    requires
        tokens_in(ts@, cs@.len()),
        cs@.len() <= isize::MAX,
        p <= ts.len(),
    ensures
        agrees(r, spec_file_name(cs@, ts@, p as int)),
        advances(r, p, ts@.len(), cs@.len()),
{
    if kind_is(ts, p, TokenKind::Str) {
        let t = ts[p];
        proof {
            assert(tokens_in(ts@, cs@.len()) ==> ts@[p as int].start + 2 <= ts@[p as int].end <= cs@.len());
            assert(cs@.subrange(t.start + 1, t.end - 1) =~= text(cs@, t).subrange(
                1,
                text(cs@, t).len() - 1,
            ));
        }
        Ok((string_of(cs, t.start + 1, t.end - 1), p + 1))
    } else if kind_is(ts, p, TokenKind::Word) {
        let t = ts[p];
        proof {
            assert(tokens_in(ts@, cs@.len()) ==> ts@[p as int].start < ts@[p as int].end <= cs@.len());
        }
        let mut acc = string_of(cs, t.start, t.end);
        let mut q = p + 1;
        while q < ts.len() && ts[q].kind == TokenKind::Dot && ts.len() - q > 1 && ts[q + 1].kind
            == TokenKind::Word
            invariant
                tokens_in(ts@, cs@.len()),
                cs@.len() <= isize::MAX,
                p < q <= ts.len(),
                spec_file_words(cs@, ts@, p + 1, text(cs@, ts@[p as int])) == spec_file_words(
                    cs@,
                    ts@,
                    q as int,
                    acc@,
                ),
            decreases ts.len() - q,
        {
            let w = ts[q + 1];
            proof {
                assert(tokens_in(ts@, cs@.len()) ==> ts@[q + 1].start < ts@[q + 1].end <= cs@.len());
            }
            let mut i = w.start;
            let ghost acc_before = acc@;
            push_char(&mut acc, '.');
            let ghost acc0 = acc@;
            proof {
                reveal_strlit(".");
                assert(acc0 =~= acc_before + "."@);
            }
            while i < w.end
                invariant
                    w.start <= i <= w.end <= cs@.len(),
                    acc@ == acc0 + cs@.subrange(w.start as int, i as int),
                decreases w.end - i,
            {
                push_char(&mut acc, cs[i]);
                assert(acc@ =~= acc0 + cs@.subrange(w.start as int, i + 1));
                i = i + 1;
            }
            q = q + 2;
        }
        Ok((acc, q))
    } else {
        Err(fail_at(cs, ts, p, Expect::FileName))
    }
}

fn parse_export(cs: &Vec<char>, ts: &Vec<Token>, p: usize) -> (r: Result<(ExportBlock, usize), ParseFailure>)
    requires
        tokens_in(ts@, cs@.len()),
        cs@.len() <= isize::MAX,
        p < ts.len(),
    ensures
        agrees(r, spec_export(cs@, ts@, p as int)),
        advances(r, p, ts@.len(), cs@.len()),
{
    let mut format: Option<String> = None;
    let mut quality: Option<Quality> = None;
    let mut file: Option<String> = None;
    let mut q = p + 1;
    loop
        invariant
            tokens_in(ts@, cs@.len()),
            cs@.len() <= isize::MAX,
            p < q <= ts.len(),
            spec_export_body(cs@, ts@, p + 1, None, None, None) == spec_export_body(
                cs@,
                ts@,
                q as int,
                opt_string_view(format),
                quality,
                opt_string_view(file),
            ),
        decreases ts.len() - q,
    {
        if word_is(cs, ts, q, "format") {
            match parse_name(cs, ts, q + 1) {
                Ok((_n, q2)) => {
                    let t = ts[q + 1];
                    proof {
                        assert(tokens_in(ts@, cs@.len()) ==> ts@[q + 1].start < ts@[q + 1].end
                            <= cs@.len());
                    }
                    let l = lower_chars_of(cs, t.start, t.end);
                    format = Some(string_of_vec(&l));
                    q = q2;
                },
                Err(e) => {
                    return Err(e);
                },
            }
        } else if word_is(cs, ts, q, "quality") {
            match parse_name(cs, ts, q + 1) {
                Ok((_n, q2)) => {
                    let t = ts[q + 1];
                    proof {
                        assert(tokens_in(ts@, cs@.len()) ==> ts@[q + 1].start < ts@[q + 1].end
                            <= cs@.len());
                    }
                    let w = string_chars(cs, t.start, t.end);
                    quality = Some(quality_of(&w));
                    q = q2;
                },
                Err(e) => {
                    return Err(e);
                },
            }
        } else if word_is(cs, ts, q, "file") {
            match parse_file_name(cs, ts, q + 1) {
                Ok((f, q2)) => {
                    file = Some(f);
                    q = q2;
                },
                Err(e) => {
                    return Err(e);
                },
            }
        } else if word_is(cs, ts, q, "end") {
            return Ok((ExportBlock { format, quality, file }, q + 1));
        } else {
            return Err(fail_at(cs, ts, q, Expect::End));
        }
    }
}

/// The characters `start..end` as a vector.
fn string_chars(cs: &Vec<char>, start: usize, end: usize) -> (r: Vec<char>)
    requires
        start <= end <= cs.len(),
    ensures
        r@ == cs@.subrange(start as int, end as int),
{
    let mut v: Vec<char> = Vec::new();
    let mut i = start;
    while i < end
        invariant
            start <= i <= end <= cs.len(),
            v@ == cs@.subrange(start as int, i as int),
        decreases end - i,
    {
        v.push(cs[i]);
        assert(v@ =~= cs@.subrange(start as int, i + 1));
        i = i + 1;
    }
    v
}

// ── Whole files ───────────────────────────────────────────────────────────────

/// A top-level item at token `p`.
pub open spec fn spec_top(cs: Seq<char>, ts: Seq<Token>, p: int) -> Result<
    (SpecTopLevelItem, int),
    ParseFailure,
> {
    if is_word(cs, ts, p, "use"@) {
        match spec_name(cs, ts, p + 1) {
            Ok((n, q)) => Ok((SpecTopLevelItem::Use(n), q)),
            Err(e) => Err(e),
        }
    } else if is_word(cs, ts, p, "define"@) {
        match spec_define(cs, ts, p) {
            Ok((d, q)) => Ok((SpecTopLevelItem::Define(d), q)),
            Err(e) => Err(e),
        }
    } else if is_word(cs, ts, p, "assemble"@) {
        match spec_assemble(cs, ts, p) {
            Ok((a, q)) => Ok((SpecTopLevelItem::Assemble(a), q)),
            Err(e) => Err(e),
        }
    } else if is_word(cs, ts, p, "export"@) {
        match spec_export(cs, ts, p) {
            Ok((x, q)) => Ok((SpecTopLevelItem::Export(x), q)),
            Err(e) => Err(e),
        }
    } else {
        Err(fail(cs, ts, p, Expect::TopLevel))
    }
}

/// The top-level items from token `p` to the end, after those in `acc`.
pub open spec fn spec_items(cs: Seq<char>, ts: Seq<Token>, p: int, acc: Seq<SpecTopLevelItem>) -> Result<
    Seq<SpecTopLevelItem>,
    ParseFailure,
>
    decreases ts.len() - p,
{
    if p < 0 || p >= ts.len() {
        Ok(acc)
    } else {
        match spec_top(cs, ts, p) {
            Ok((it, q)) => if q > p {
                spec_items(cs, ts, q, acc.push(it))
            } else {
                Ok(acc)
            },
            Err(e) => Err(e),
        }
    }
}

/// The file that the tokens `ts` of the text `cs` spell.
pub open spec fn spec_parse_tokens(cs: Seq<char>, ts: Seq<Token>) -> Result<
    SpecPolyhFile,
    ParseFailure,
> {
    match spec_items(cs, ts, 0, Seq::empty()) {
        Ok(items) => Ok(SpecPolyhFile { items }),
        Err(e) => Err(e),
    }
}

fn parse_top(cs: &Vec<char>, ts: &Vec<Token>, p: usize) -> (r: Result<(TopLevelItem, usize), ParseFailure>)
    requires
        tokens_in(ts@, cs@.len()),
        cs@.len() <= isize::MAX,
        p < ts.len(),
    ensures
        agrees(r, spec_top(cs@, ts@, p as int)),
        advances(r, p, ts@.len(), cs@.len()),
{
    if word_is(cs, ts, p, "use") {
        match parse_name(cs, ts, p + 1) {
            Ok((n, q)) => Ok((TopLevelItem::Use(n), q)),
            Err(e) => Err(e),
        }
    } else if word_is(cs, ts, p, "define") {
        match parse_define(cs, ts, p) {
            Ok((d, q)) => Ok((TopLevelItem::Define(d), q)),
            Err(e) => Err(e),
        }
    } else if word_is(cs, ts, p, "assemble") {
        match parse_assemble(cs, ts, p) {
            Ok((a, q)) => Ok((TopLevelItem::Assemble(a), q)),
            Err(e) => Err(e),
        }
    } else if word_is(cs, ts, p, "export") {
        match parse_export(cs, ts, p) {
            Ok((x, q)) => Ok((TopLevelItem::Export(x), q)),
            Err(e) => Err(e),
        }
    } else {
        Err(fail_at(cs, ts, p, Expect::TopLevel))
    }
}

pub open spec fn top_items_view(v: Seq<TopLevelItem>) -> Seq<SpecTopLevelItem> {
    v.map_values(|x: TopLevelItem| x@)
}

/// Reads a whole file from its tokens.
pub fn parse_tokens(cs: &Vec<char>, ts: &Vec<Token>) -> (r: Result<PolyhFile, ParseFailure>)
    requires
        tokens_in(ts@, cs@.len()),
        cs@.len() <= isize::MAX,
    ensures
        match r {
            Ok(f) => spec_parse_tokens(cs@, ts@) == Ok::<SpecPolyhFile, ParseFailure>(f@),
            Err(e) => spec_parse_tokens(cs@, ts@) == Err::<SpecPolyhFile, ParseFailure>(e)
                && failure_in(e, cs@.len()),
        },
{
    let mut items: Vec<TopLevelItem> = Vec::new();
    let mut p: usize = 0;
    assert(top_items_view(items@) =~= Seq::<SpecTopLevelItem>::empty());
    while p < ts.len()
        invariant
            tokens_in(ts@, cs@.len()),
            cs@.len() <= isize::MAX,
            p <= ts.len(),
            spec_items(cs@, ts@, 0, Seq::empty()) == spec_items(
                cs@,
                ts@,
                p as int,
                top_items_view(items@),
            ),
        decreases ts.len() - p,
    {
        match parse_top(cs, ts, p) {
            Ok((it, q)) => {
                let ghost old_items = items@;
                let ghost iv = it@;
                items.push(it);
                assert(top_items_view(items@) =~= top_items_view(old_items).push(iv));
                p = q;
            },
            Err(e) => {
                return Err(e);
            },
        }
    }
    let file = PolyhFile { items };
    assert(file@.items =~= top_items_view(file.items@));
    Ok(file)
}

} // verus!

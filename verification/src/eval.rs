//! From syntax tree to a plan of the signed-distance tree.
//!
//! Evaluation decides the structure of the shape: which primitives, which
//! parameters (given or defaulted), in which units, joined or cut in which
//! order, and which definitions an assembly places where. Every length is
//! kept exact, as a number in the block's units and the millimetres per unit
//! ([`Length`]); turning the plan into distance functions, and the bounds
//! that meshing needs, is floating-point work done by the caller.

use vstd::prelude::*;
use crate::error::PolyhedraError;
use crate::parser::ast::{
    PolyhFile, assemblies_of, defines_of,
    AssembleBlock, AssembleItem, AssembleOp, Axis, Decimal, DefineBlock, DefineItem, Manipulation,
    Position, PrimKind, PrimitiveBlock, Prop, SpecAssembleItem, SpecAssembleOp, SpecDefineBlock,
    SpecDefineItem, SpecManipulation, SpecPrimitiveBlock, SpecProp, Unit,
};
use crate::style::{preset_view, spec_style_defaults, style_defaults};
use crate::text::{chars_of, vec_eq_str};

verus! {

/// A length: `value` in the block's units, `scale` millimetres per unit.
#[derive(Debug, Clone, Copy, PartialEq, Eq, Structural)]
pub struct Length {
    pub value: Decimal,
    pub scale: Decimal,
}

/// A primitive shape with all of its parameters resolved.
#[derive(Debug, Clone, Copy, PartialEq, Eq, Structural)]
pub enum PrimitivePlan {
    Cube { width: Length, depth: Length, height: Length },
    Sphere { radius: Length },
    Cylinder { radius: Length, height: Length },
    Cone { base_radius: Length, top_radius: Length, height: Length },
    Torus { major: Length, minor: Length },
    Pyramid { base_width: Length, base_depth: Length, height: Length },
    /// `sides` is the number as written; the shape uses it as a whole count.
    Prism { sides: Decimal, flat_to_flat: Length, height: Length },
}

/// The structure of a signed-distance tree.
#[derive(Debug, PartialEq)]
pub enum SdfPlan {
    Primitive(PrimitivePlan),
    /// A `move` statement: shift along one axis.
    Move { inner: Box<SdfPlan>, axis: Axis, by: Length },
    /// An assembly operation: the definition placed at `at` (in units of `scale`).
    Place { inner: Box<SdfPlan>, at: Position, scale: Decimal },
    Union(Box<SdfPlan>, Box<SdfPlan>),
    /// The first minus the second.
    Difference(Box<SdfPlan>, Box<SdfPlan>),
    Intersection(Box<SdfPlan>, Box<SdfPlan>),
    /// Chamfer or fillet: the surface moved outwards by `by`.
    Offset { inner: Box<SdfPlan>, by: Length },
    /// Hollowed to a wall of `thickness`.
    Shell { inner: Box<SdfPlan>, thickness: Length },
    /// A bore of `diameter` through the centre.
    Hole { inner: Box<SdfPlan>, diameter: Length },
}

pub open spec fn whole(n: int) -> Decimal {
    Decimal { mantissa: n as i64, scale: 0 }
}

/// Millimetres per unit of the block: its `units` if given, else the parent's.
pub open spec fn own_scale(units: Option<Unit>, parent: Decimal) -> Decimal {
    match units {
        Some(u) => u.spec_to_mm(),
        None => parent,
    }
}

/// The value of the first property named `k1` or `k2`.
pub open spec fn first_prop(props: Seq<SpecProp>, k1: Seq<char>, k2: Seq<char>) -> Option<Decimal>
    decreases props.len(),
{
    if props.len() == 0 {
        None
    } else if props[0].key == k1 || props[0].key == k2 {
        Some(props[0].value)
    } else {
        first_prop(props.drop_first(), k1, k2)
    }
}

/// The value of the first preset named `k1` or `k2`.
pub open spec fn first_preset(presets: Seq<(Seq<char>, Decimal)>, k1: Seq<char>, k2: Seq<char>) -> Option<Decimal>
    decreases presets.len(),
{
    if presets.len() == 0 {
        None
    } else if presets[0].0 == k1 || presets[0].0 == k2 {
        Some(presets[0].1)
    } else {
        first_preset(presets.drop_first(), k1, k2)
    }
}

/// The value of the property named `k1` or `k2`: as written in the block,
/// else as the style presets give it, else `default`.
pub open spec fn prop_value(
    props: Seq<SpecProp>,
    presets: Seq<(Seq<char>, Decimal)>,
    k1: Seq<char>,
    k2: Seq<char>,
    default: Decimal,
) -> Decimal {
    match first_prop(props, k1, k2) {
        Some(v) => v,
        None => match first_preset(presets, k1, k2) {
            Some(v) => v,
            None => default,
        },
    }
}

/// The property named `k1` or `k2` (written, else preset, else `default`),
/// as a length in `scale`.
pub open spec fn prop_len(
    props: Seq<SpecProp>,
    presets: Seq<(Seq<char>, Decimal)>,
    k1: Seq<char>,
    k2: Seq<char>,
    default: Decimal,
    scale: Decimal,
) -> Length {
    Length { value: prop_value(props, presets, k1, k2, default), scale }
}

/// The presets of a primitive block's style; none without a style.
pub open spec fn block_presets(p: SpecPrimitiveBlock) -> Seq<(Seq<char>, Decimal)> {
    match p.style {
        Some(st) => spec_style_defaults(p.kind, st),
        None => Seq::empty(),
    }
}

/// The shape of a primitive block, before its moves.
pub open spec fn spec_primitive_shape(p: SpecPrimitiveBlock, s: Decimal) -> PrimitivePlan {
    let ps = p.props;
    let st = block_presets(p);
    match p.kind {
        PrimKind::Cube => {
            let w = prop_len(ps, st, "width"@, "width"@, whole(10), s);
            PrimitivePlan::Cube {
                width: w,
                depth: prop_len(ps, st, "depth"@, "depth"@, w.value, s),
                height: prop_len(ps, st, "height"@, "height"@, w.value, s),
            }
        },
        PrimKind::Sphere => PrimitivePlan::Sphere {
            radius: prop_len(ps, st, "radius"@, "radius"@, whole(5), s),
        },
        PrimKind::Cylinder => PrimitivePlan::Cylinder {
            radius: prop_len(ps, st, "radius"@, "radius"@, whole(5), s),
            height: prop_len(ps, st, "height"@, "height"@, whole(10), s),
        },
        PrimKind::Cone => PrimitivePlan::Cone {
            base_radius: prop_len(ps, st, "base_radius"@, "radius"@, whole(5), s),
            top_radius: prop_len(ps, st, "top_radius"@, "top"@, whole(0), s),
            height: prop_len(ps, st, "height"@, "height"@, whole(10), s),
        },
        PrimKind::Torus => PrimitivePlan::Torus {
            major: prop_len(ps, st, "major"@, "major_radius"@, whole(10), s),
            minor: prop_len(ps, st, "minor"@, "minor_radius"@, whole(2), s),
        },
        PrimKind::Pyramid => {
            let bw = prop_len(ps, st, "base_width"@, "base"@, whole(10), s);
            PrimitivePlan::Pyramid {
                base_width: bw,
                base_depth: prop_len(ps, st, "base_depth"@, "base_depth"@, bw.value, s),
                height: prop_len(ps, st, "height"@, "height"@, whole(10), s),
            }
        },
        PrimKind::Prism => PrimitivePlan::Prism {
            sides: match first_prop(ps, "sides"@, "n"@) {
                Some(v) => v,
                None => match first_preset(st, "sides"@, "sides"@) {
                    Some(v) => v,
                    None => whole(6),
                },
            },
            flat_to_flat: prop_len(ps, st, "flat_to_flat"@, "radius"@, whole(10), s),
            height: prop_len(ps, st, "height"@, "height"@, whole(10), s),
        },
    }
}

/// `node` shifted by each move in turn.
pub open spec fn apply_moves(node: SdfPlan, moves: Seq<crate::parser::ast::MoveStmt>, s: Decimal) -> SdfPlan
    decreases moves.len(),
{
    if moves.len() == 0 {
        node
    } else {
        let m = moves.last();
        SdfPlan::Move {
            inner: Box::new(apply_moves(node, moves.drop_last(), s)),
            axis: m.axis,
            by: Length { value: m.value, scale: s },
        }
    }
}

/// The plan of a primitive block inside a block of scale `parent`.
pub open spec fn spec_eval_primitive(p: SpecPrimitiveBlock, parent: Decimal) -> SdfPlan {
    let s = own_scale(p.units, parent);
    apply_moves(SdfPlan::Primitive(spec_primitive_shape(p, s)), p.moves, s)
}

// ── Define blocks ─────────────────────────────────────────────────────────────

/// The unit of the first `units` item of a define block.
pub open spec fn define_units(items: Seq<SpecDefineItem>) -> Option<Unit>
    decreases items.len(),
{
    if items.len() == 0 {
        None
    } else {
        match items[0] {
            SpecDefineItem::Units(u) => Some(u),
            _ => define_units(items.drop_first()),
        }
    }
}

/// The plans of the primitive blocks among the items, in order.
pub open spec fn primitive_plans(items: Seq<SpecDefineItem>, s: Decimal) -> Seq<SdfPlan>
    decreases items.len(),
{
    if items.len() == 0 {
        Seq::empty()
    } else {
        primitive_plans(items.drop_last(), s) + match items.last() {
            SpecDefineItem::Primitive(p) => seq![spec_eval_primitive(p, s)],
            _ => Seq::empty(),
        }
    }
}

/// The union of the plans, joined left to right.
pub open spec fn union_all(ps: Seq<SdfPlan>) -> SdfPlan
    decreases ps.len(),
{
    if ps.len() <= 1 {
        ps[0]
    } else {
        SdfPlan::Union(Box::new(union_all(ps.drop_last())), Box::new(ps.last()))
    }
}

/// `node` with a manipulation applied; threads and patterns change nothing.
pub open spec fn apply_manip(node: SdfPlan, m: SpecManipulation, s: Decimal) -> SdfPlan {
    match m {
        SpecManipulation::Chamfer(r) => SdfPlan::Offset {
            inner: Box::new(node),
            by: Length { value: r, scale: s },
        },
        SpecManipulation::Fillet(r) => SdfPlan::Offset {
            inner: Box::new(node),
            by: Length { value: r, scale: s },
        },
        SpecManipulation::Shell(t) => SdfPlan::Shell {
            inner: Box::new(node),
            thickness: Length { value: t, scale: s },
        },
        SpecManipulation::Hole { diameter, .. } => SdfPlan::Hole {
            inner: Box::new(node),
            diameter: Length { value: diameter, scale: s },
        },
        _ => node,
    }
}

/// `node` with the manipulations among the define items applied in order.
pub open spec fn apply_define_manips(node: SdfPlan, items: Seq<SpecDefineItem>, s: Decimal) -> SdfPlan
    decreases items.len(),
{
    if items.len() == 0 {
        node
    } else {
        let n = apply_define_manips(node, items.drop_last(), s);
        match items.last() {
            SpecDefineItem::Manip(m) => apply_manip(n, m, s),
            _ => n,
        }
    }
}

/// The plan of a define block inside a block of scale `parent`, or the
/// message of the geometry error when it has no primitive.
pub open spec fn spec_eval_define(b: SpecDefineBlock, parent: Decimal) -> Result<SdfPlan, Seq<char>> {
    let s = own_scale(define_units(b.items), parent);
    let ps = primitive_plans(b.items, s);
    if ps.len() == 0 {
        Err("define '"@ + b.name + "' has no primitive — expected cube/sphere/cylinder/…"@)
    } else {
        Ok(apply_define_manips(union_all(ps), b.items, s))
    }
}

// ── Executable: primitives and define blocks ──────────────────────────────────

fn string_is(s: &String, w: &str) -> (r: bool)
    ensures
        r == (s@ == w@),
{
    let cs = chars_of(s.as_str());
    vec_eq_str(&cs, w)
}

fn find_prop(props: &Vec<Prop>, k1: &str, k2: &str) -> (r: Option<Decimal>)
    ensures
        r == first_prop(props@.map_values(|x: Prop| x@), k1@, k2@),
{
    let ghost pv = props@.map_values(|x: Prop| x@);
    let mut i: usize = 0;
    assert(pv.skip(0) =~= pv);
    while i < props.len()
        invariant
            i <= props.len(),
            pv == props@.map_values(|x: Prop| x@),
            first_prop(pv, k1@, k2@) == first_prop(pv.skip(i as int), k1@, k2@),
        decreases props.len() - i,
    {
        assert(pv.skip(i as int).drop_first() =~= pv.skip(i + 1));
        assert(pv.skip(i as int)[0] == props@[i as int]@);
        if string_is(&props[i].key, k1) || string_is(&props[i].key, k2) {
            return Some(props[i].value);
        }
        i = i + 1;
    }
    None
}

fn str_is(a: &str, w: &str) -> (r: bool)
    ensures
        r == (a@ == w@),
{
    let cs = chars_of(a);
    vec_eq_str(&cs, w)
}

fn find_preset(presets: &Vec<(&'static str, Decimal)>, k1: &str, k2: &str) -> (r: Option<Decimal>)
    ensures
        r == first_preset(preset_view(presets@), k1@, k2@),
{
    let ghost pv = preset_view(presets@);
    let mut i: usize = 0;
    assert(pv.skip(0) =~= pv);
    while i < presets.len()
        invariant
            i <= presets.len(),
            pv == preset_view(presets@),
            first_preset(pv, k1@, k2@) == first_preset(pv.skip(i as int), k1@, k2@),
        decreases presets.len() - i,
    {
        assert(pv.skip(i as int).drop_first() =~= pv.skip(i + 1));
        assert(pv.skip(i as int)[0] == (presets@[i as int].0@, presets@[i as int].1));
        if str_is(presets[i].0, k1) || str_is(presets[i].0, k2) {
            return Some(presets[i].1);
        }
        i = i + 1;
    }
    None
}

fn prop_length(
    props: &Vec<Prop>,
    presets: &Vec<(&'static str, Decimal)>,
    k1: &str,
    k2: &str,
    default: Decimal,
    scale: Decimal,
) -> (r: Length)
    ensures
        r == prop_len(props@.map_values(|x: Prop| x@), preset_view(presets@), k1@, k2@, default, scale),
{
    match find_prop(props, k1, k2) {
        Some(v) => Length { value: v, scale },
        None => match find_preset(presets, k1, k2) {
            Some(v) => Length { value: v, scale },
            None => Length { value: default, scale },
        },
    }
}

fn primitive_shape(p: &PrimitiveBlock, s: Decimal) -> (r: PrimitivePlan)
    ensures
        r == spec_primitive_shape(p@, s),
{
    let ps = &p.props;
    let st: Vec<(&'static str, Decimal)> = match &p.style {
        Some(name) => style_defaults(p.kind, name.as_str()),
        None => Vec::new(),
    };
    assert(preset_view(st@) == block_presets(p@));
    match p.kind {
        PrimKind::Cube => {
            let w = prop_length(ps, &st, "width", "width", Decimal::integer(10), s);
            PrimitivePlan::Cube {
                width: w,
                depth: prop_length(ps, &st, "depth", "depth", w.value, s),
                height: prop_length(ps, &st, "height", "height", w.value, s),
            }
        },
        PrimKind::Sphere => PrimitivePlan::Sphere {
            radius: prop_length(ps, &st, "radius", "radius", Decimal::integer(5), s),
        },
        PrimKind::Cylinder => PrimitivePlan::Cylinder {
            radius: prop_length(ps, &st, "radius", "radius", Decimal::integer(5), s),
            height: prop_length(ps, &st, "height", "height", Decimal::integer(10), s),
        },
        PrimKind::Cone => PrimitivePlan::Cone {
            base_radius: prop_length(ps, &st, "base_radius", "radius", Decimal::integer(5), s),
            top_radius: prop_length(ps, &st, "top_radius", "top", Decimal::integer(0), s),
            height: prop_length(ps, &st, "height", "height", Decimal::integer(10), s),
        },
        PrimKind::Torus => PrimitivePlan::Torus {
            major: prop_length(ps, &st, "major", "major_radius", Decimal::integer(10), s),
            minor: prop_length(ps, &st, "minor", "minor_radius", Decimal::integer(2), s),
        },
        PrimKind::Pyramid => {
            let bw = prop_length(ps, &st, "base_width", "base", Decimal::integer(10), s);
            PrimitivePlan::Pyramid {
                base_width: bw,
                base_depth: prop_length(ps, &st, "base_depth", "base_depth", bw.value, s),
                height: prop_length(ps, &st, "height", "height", Decimal::integer(10), s),
            }
        },
        PrimKind::Prism => PrimitivePlan::Prism {
            sides: match find_prop(ps, "sides", "n") {
                Some(v) => v,
                None => match find_preset(&st, "sides", "sides") {
                    Some(v) => v,
                    None => Decimal::integer(6),
                },
            },
            flat_to_flat: prop_length(ps, &st, "flat_to_flat", "radius", Decimal::integer(10), s),
            height: prop_length(ps, &st, "height", "height", Decimal::integer(10), s),
        },
    }
}

fn eval_primitive(p: &PrimitiveBlock, parent: Decimal) -> (r: SdfPlan)
    ensures
        r == spec_eval_primitive(p@, parent),
{
    let s = match p.units {
        Some(u) => u.to_mm(),
        None => parent,
    };
    let mut node = SdfPlan::Primitive(primitive_shape(p, s));
    let mut i: usize = 0;
    assert(p.moves@.take(0) =~= Seq::<crate::parser::ast::MoveStmt>::empty());
    while i < p.moves.len()
        invariant
            i <= p.moves.len(),
            s == own_scale(p.units, parent),
            node == apply_moves(SdfPlan::Primitive(spec_primitive_shape(p@, s)), p.moves@.take(i as int), s),
        decreases p.moves.len() - i,
    {
        let m = p.moves[i];
        assert(p.moves@.take(i + 1).drop_last() =~= p.moves@.take(i as int));
        node = SdfPlan::Move { inner: Box::new(node), axis: m.axis, by: Length { value: m.value, scale: s } };
        i = i + 1;
    }
    assert(p.moves@.take(p.moves.len() as int) =~= p.moves@);
    node
}

fn apply_manipulation(node: SdfPlan, m: &Manipulation, s: Decimal) -> (r: SdfPlan)
    ensures
        r == apply_manip(node, m@, s),
{
    match m {
        Manipulation::Chamfer(r) => SdfPlan::Offset { inner: Box::new(node), by: Length { value: *r, scale: s } },
        Manipulation::Fillet(r) => SdfPlan::Offset { inner: Box::new(node), by: Length { value: *r, scale: s } },
        Manipulation::Shell(t) => SdfPlan::Shell {
            inner: Box::new(node),
            thickness: Length { value: *t, scale: s },
        },
        Manipulation::Hole { diameter, .. } => SdfPlan::Hole {
            inner: Box::new(node),
            diameter: Length { value: *diameter, scale: s },
        },
        _ => node,
    }
}

fn define_scale(items: &Vec<DefineItem>, parent: Decimal) -> (r: Decimal)
    ensures
        r == own_scale(define_units(items@.map_values(|x: DefineItem| x@)), parent),
{
    let ghost iv = items@.map_values(|x: DefineItem| x@);
    let mut k: usize = 0;
    assert(iv.skip(0) =~= iv);
    while k < items.len()
        invariant
            k <= items.len(),
            iv == items@.map_values(|x: DefineItem| x@),
            define_units(iv) == define_units(iv.skip(k as int)),
        decreases items.len() - k,
    {
        assert(iv.skip(k as int).drop_first() =~= iv.skip(k + 1));
        assert(iv.skip(k as int)[0] == items@[k as int]@);
        if let DefineItem::Units(u) = &items[k] {
            return u.to_mm();
        }
        k = k + 1;
    }
    parent
}

/// Evaluates a `define` block inside a block whose scale is `parent_scale`
/// millimetres per unit: the union of its primitives, left to right, with
/// its manipulations applied in order. A block without a primitive is a
/// geometry error.
pub fn eval_define(block: &DefineBlock, parent_scale: Decimal) -> (r: Result<SdfPlan, PolyhedraError>)
    ensures
        match spec_eval_define(block@, parent_scale) {
            Ok(plan) => r == Ok::<SdfPlan, PolyhedraError>(plan),
            Err(m) => r matches Err(PolyhedraError::GeometryError { message }) && message@ == m,
        },
{
    let ghost items = block@.items;
    let s = define_scale(&block.items, parent_scale);
    assert(s == own_scale(define_units(items), parent_scale));
    // Primitives, joined left to right.
    let mut acc: Option<SdfPlan> = None;
    let mut i: usize = 0;
    assert(items.take(0) =~= Seq::<SpecDefineItem>::empty());
    while i < block.items.len()
        invariant
            i <= block.items.len(),
            items == block@.items,
            s == own_scale(define_units(items), parent_scale),
            primitive_plans(items.take(i as int), s).len() == 0 ==> acc is None,
            primitive_plans(items.take(i as int), s).len() > 0 ==> acc == Some(
                union_all(primitive_plans(items.take(i as int), s)),
            ),
        decreases block.items.len() - i,
    {
        assert(items.take(i + 1).drop_last() =~= items.take(i as int));
        assert(items.take(i + 1).last() == block.items@[i as int]@);
        if let DefineItem::Primitive(p) = &block.items[i] {
            let n = eval_primitive(p, s);
            let ghost before = primitive_plans(items.take(i as int), s);
            let ghost after = primitive_plans(items.take(i + 1), s);
            assert(after =~= before.push(n));
            assert(after.drop_last() =~= before);
            acc = match acc {
                None => Some(n),
                Some(a) => Some(SdfPlan::Union(Box::new(a), Box::new(n))),
            };
        } else {
            assert(primitive_plans(items.take(i + 1), s) =~= primitive_plans(items.take(i as int), s));
        }
        i = i + 1;
    }
    assert(items.take(items.len() as int) =~= items);
    let mut node = match acc {
        Some(n) => n,
        None => {
            let mut m = "define '".to_owned();
            m.append(block.name.as_str());
            m.append("' has no primitive — expected cube/sphere/cylinder/…");
            return Err(PolyhedraError::GeometryError { message: m });
        },
    };
    // Manipulations in order.
    let ghost base = node;
    let mut j: usize = 0;
    while j < block.items.len()
        invariant
            j <= block.items.len(),
            items == block@.items,
            node == apply_define_manips(base, items.take(j as int), s),
        decreases block.items.len() - j,
    {
        assert(items.take(j + 1).drop_last() =~= items.take(j as int));
        assert(items.take(j + 1).last() == block.items@[j as int]@);
        if let DefineItem::Manip(m) = &block.items[j] {
            node = apply_manipulation(node, m, s);
        }
        j = j + 1;
    }
    Ok(node)
}

// ── Assemble blocks ───────────────────────────────────────────────────────────

/// The unit of the first `units` item of an assemble block.
pub open spec fn assemble_units(items: Seq<SpecAssembleItem>) -> Option<Unit>
    decreases items.len(),
{
    if items.len() == 0 {
        None
    } else {
        match items[0] {
            SpecAssembleItem::Units(u) => Some(u),
            _ => assemble_units(items.drop_first()),
        }
    }
}

/// The last definition named `name`: later definitions hide earlier ones.
pub open spec fn find_define(defs: Seq<SpecDefineBlock>, name: Seq<char>) -> Option<SpecDefineBlock>
    decreases defs.len(),
{
    if defs.len() == 0 {
        None
    } else if defs.last().name == name {
        Some(defs.last())
    } else {
        find_define(defs.drop_last(), name)
    }
}

pub open spec fn op_name(op: SpecAssembleOp) -> Seq<char> {
    match op {
        SpecAssembleOp::Place { name, .. } => name,
        SpecAssembleOp::Cut { name, .. } => name,
        SpecAssembleOp::Join { name, .. } => name,
        SpecAssembleOp::Intersect { name, .. } => name,
        SpecAssembleOp::Subtract { name, .. } => name,
    }
}

pub open spec fn op_at(op: SpecAssembleOp) -> Position {
    match op {
        SpecAssembleOp::Place { at, .. } => at,
        SpecAssembleOp::Cut { at, .. } => at,
        SpecAssembleOp::Join { at, .. } => at,
        SpecAssembleOp::Intersect { at, .. } => at,
        SpecAssembleOp::Subtract { at, .. } => at,
    }
}

/// What an operation makes of the shape so far and the placed part:
/// place and join unite, cut and subtract remove, intersect keeps the common part.
pub open spec fn combine(op: SpecAssembleOp, acc: SdfPlan, part: SdfPlan) -> SdfPlan {
    match op {
        SpecAssembleOp::Place { .. } => SdfPlan::Union(Box::new(acc), Box::new(part)),
        SpecAssembleOp::Join { .. } => SdfPlan::Union(Box::new(acc), Box::new(part)),
        SpecAssembleOp::Cut { .. } => SdfPlan::Difference(Box::new(acc), Box::new(part)),
        SpecAssembleOp::Subtract { .. } => SdfPlan::Difference(Box::new(acc), Box::new(part)),
        SpecAssembleOp::Intersect { .. } => SdfPlan::Intersection(Box::new(acc), Box::new(part)),
    }
}

/// The shape built by the operations among the items, in order: the first
/// placed part, then each next one combined into it; or the message of the
/// first failure.
pub open spec fn assemble_ops(
    items: Seq<SpecAssembleItem>,
    defs: Seq<SpecDefineBlock>,
    s: Decimal,
    block: Seq<char>,
) -> Result<Option<SdfPlan>, Seq<char>>
    decreases items.len(),
{
    if items.len() == 0 {
        Ok(None)
    } else {
        match assemble_ops(items.drop_last(), defs, s, block) {
            Err(m) => Err(m),
            Ok(acc) => match items.last() {
                SpecAssembleItem::Op(op) => match find_define(defs, op_name(op)) {
                    None => Err(
                        "assemble '"@ + block + "': object '"@ + op_name(op) + "' is not defined"@,
                    ),
                    Some(d) => match spec_eval_define(d, s) {
                        Err(m) => Err(m),
                        Ok(node) => {
                            let part = SdfPlan::Place { inner: Box::new(node), at: op_at(op), scale: s };
                            Ok(
                                Some(
                                    match acc {
                                        None => part,
                                        Some(a) => combine(op, a, part),
                                    },
                                ),
                            )
                        },
                    },
                },
                _ => Ok(acc),
            },
        }
    }
}

/// `node` with the manipulations among the assemble items applied in order.
pub open spec fn apply_assemble_manips(node: SdfPlan, items: Seq<SpecAssembleItem>, s: Decimal) -> SdfPlan
    decreases items.len(),
{
    if items.len() == 0 {
        node
    } else {
        let n = apply_assemble_manips(node, items.drop_last(), s);
        match items.last() {
            SpecAssembleItem::Manip(m) => apply_manip(n, m, s),
            _ => n,
        }
    }
}

/// The plan of an assemble block, or the message of its geometry error.
pub open spec fn spec_eval_assemble(
    b: crate::parser::ast::SpecAssembleBlock,
    defs: Seq<SpecDefineBlock>,
    parent: Decimal,
) -> Result<SdfPlan, Seq<char>> {
    let s = own_scale(assemble_units(b.items), parent);
    match assemble_ops(b.items, defs, s, b.name) {
        Err(m) => Err(m),
        Ok(None) => Err("assemble '"@ + b.name + "' has no operations"@),
        Ok(Some(node)) => Ok(apply_assemble_manips(node, b.items, s)),
    }
}

pub open spec fn defines_view(v: Seq<&DefineBlock>) -> Seq<SpecDefineBlock> {
    v.map_values(|d: &DefineBlock| d@)
}

fn assemble_scale(items: &Vec<AssembleItem>, parent: Decimal) -> (r: Decimal)
    ensures
        r == own_scale(assemble_units(items@.map_values(|x: AssembleItem| x@)), parent),
{
    let ghost iv = items@.map_values(|x: AssembleItem| x@);
    let mut k: usize = 0;
    assert(iv.skip(0) =~= iv);
    while k < items.len()
        invariant
            k <= items.len(),
            iv == items@.map_values(|x: AssembleItem| x@),
            assemble_units(iv) == assemble_units(iv.skip(k as int)),
        decreases items.len() - k,
    {
        assert(iv.skip(k as int).drop_first() =~= iv.skip(k + 1));
        assert(iv.skip(k as int)[0] == items@[k as int]@);
        if let AssembleItem::Units(u) = &items[k] {
            return u.to_mm();
        }
        k = k + 1;
    }
    parent
}

fn lookup_define<'a>(defines: &Vec<&'a DefineBlock>, name: &String) -> (r: Option<&'a DefineBlock>)
    ensures
        match find_define(defines_view(defines@), name@) {
            Some(d) => r matches Some(x) && x@ == d,
            None => r is None,
        },
{
    let ghost dv = defines_view(defines@);
    let mut i = defines.len();
    assert(dv.take(dv.len() as int) =~= dv);
    while i > 0
        invariant
            i <= defines.len(),
            dv == defines_view(defines@),
            find_define(dv, name@) == find_define(dv.take(i as int), name@),
        decreases i,
    {
        assert(dv.take(i as int).drop_last() =~= dv.take(i - 1));
        assert(dv.take(i as int).last() == defines@[i - 1]@);
        if defines[i - 1].name == *name {
            return Some(defines[i - 1]);
        }
        i = i - 1;
    }
    None
}

fn combine_op(op: &AssembleOp, acc: SdfPlan, part: SdfPlan) -> (r: SdfPlan)
    ensures
        r == combine(op@, acc, part),
{
    match op {
        AssembleOp::Place { .. } | AssembleOp::Join { .. } => SdfPlan::Union(Box::new(acc), Box::new(part)),
        AssembleOp::Cut { .. } | AssembleOp::Subtract { .. } => SdfPlan::Difference(
            Box::new(acc),
            Box::new(part),
        ),
        AssembleOp::Intersect { .. } => SdfPlan::Intersection(Box::new(acc), Box::new(part)),
    }
}

/// Evaluates an `assemble` block: each operation places the last
/// definition of its name at its position (in the block's units) and
/// combines it into the shape so far; the block's manipulations then apply
/// in order. An unknown name, a failing definition or a block without
/// operations is a geometry error.
pub fn eval_assemble(
    block: &AssembleBlock,
    defines: &Vec<&DefineBlock>,
    parent_scale: Decimal,
) -> (r: Result<SdfPlan, PolyhedraError>)
    ensures
        match spec_eval_assemble(block@, defines_view(defines@), parent_scale) {
            Ok(plan) => r == Ok::<SdfPlan, PolyhedraError>(plan),
            Err(m) => r matches Err(PolyhedraError::GeometryError { message }) && message@ == m,
        },
{
    let ghost items = block@.items;
    let ghost dv = defines_view(defines@);
    let s = assemble_scale(&block.items, parent_scale);
    let mut acc: Option<SdfPlan> = None;
    let mut i: usize = 0;
    assert(items.take(0) =~= Seq::<SpecAssembleItem>::empty());
    while i < block.items.len()
        invariant
            i <= block.items.len(),
            items == block@.items,
            dv == defines_view(defines@),
            s == own_scale(assemble_units(items), parent_scale),
            assemble_ops(items.take(i as int), dv, s, block@.name) == Ok::<
                Option<SdfPlan>,
                Seq<char>,
            >(acc),
        decreases block.items.len() - i,
    {
        assert(items.take(i + 1).drop_last() =~= items.take(i as int));
        assert(items.take(i + 1).last() == block.items@[i as int]@);
        if let AssembleItem::Op(op) = &block.items[i] {
            let name = match op {
                AssembleOp::Place { name, .. } => name,
                AssembleOp::Cut { name, .. } => name,
                AssembleOp::Join { name, .. } => name,
                AssembleOp::Intersect { name, .. } => name,
                AssembleOp::Subtract { name, .. } => name,
            };
            let at = match op {
                AssembleOp::Place { at, .. } => *at,
                AssembleOp::Cut { at, .. } => *at,
                AssembleOp::Join { at, .. } => *at,
                AssembleOp::Intersect { at, .. } => *at,
                AssembleOp::Subtract { at, .. } => *at,
            };
            assert(name@ == op_name(op@) && at == op_at(op@));
            let def = match lookup_define(defines, name) {
                Some(d) => d,
                None => {
                    let mut m = "assemble '".to_owned();
                    m.append(block.name.as_str());
                    m.append("': object '");
                    m.append(name.as_str());
                    m.append("' is not defined");
                    proof {
                        lemma_ops_error_stays(items, dv, s, block@.name, i as int + 1, m@);
                    }
                    return Err(PolyhedraError::GeometryError { message: m });
                },
            };
            let node = match eval_define(def, s) {
                Ok(n) => n,
                Err(e) => {
                    proof {
                        if let PolyhedraError::GeometryError { message } = &e {
                            lemma_ops_error_stays(items, dv, s, block@.name, i as int + 1, message@);
                        }
                    }
                    return Err(e);
                },
            };
            let part = SdfPlan::Place { inner: Box::new(node), at, scale: s };
            acc = match acc {
                None => Some(part),
                Some(a) => Some(combine_op(op, a, part)),
            };
        }
        i = i + 1;
    }
    assert(items.take(items.len() as int) =~= items);
    let mut node = match acc {
        Some(n) => n,
        None => {
            let mut m = "assemble '".to_owned();
            m.append(block.name.as_str());
            m.append("' has no operations");
            return Err(PolyhedraError::GeometryError { message: m });
        },
    };
    let ghost base = node;
    let mut j: usize = 0;
    while j < block.items.len()
        invariant
            j <= block.items.len(),
            items == block@.items,
            node == apply_assemble_manips(base, items.take(j as int), s),
        decreases block.items.len() - j,
    {
        assert(items.take(j + 1).drop_last() =~= items.take(j as int));
        assert(items.take(j + 1).last() == block.items@[j as int]@);
        if let AssembleItem::Manip(m) = &block.items[j] {
            node = apply_manipulation(node, m, s);
        }
        j = j + 1;
    }
    Ok(node)
}

/// A failure after a prefix of the items is the failure of all of them.
proof fn lemma_ops_error_stays(
    items: Seq<SpecAssembleItem>,
    defs: Seq<SpecDefineBlock>,
    s: Decimal,
    block: Seq<char>,
    k: int,
    m: Seq<char>,
)
    requires
        0 <= k <= items.len(),
        assemble_ops(items.take(k), defs, s, block) == Err::<Option<SdfPlan>, Seq<char>>(m),
    ensures
        assemble_ops(items, defs, s, block) == Err::<Option<SdfPlan>, Seq<char>>(m),
    decreases items.len() - k,
{
    if k < items.len() {
        assert(items.take(k + 1).drop_last() =~= items.take(k));
        lemma_ops_error_stays(items, defs, s, block, k + 1, m);
    } else {
        assert(items.take(k) =~= items);
    }
}

// ── Primitive defaults ────────────────────────────────────────────────────────

proof fn lemma_first_prop_absent(props: Seq<SpecProp>, k1: Seq<char>, k2: Seq<char>)
    requires
        forall|i: int| 0 <= i < props.len() ==> props[i].key != k1 && props[i].key != k2,
    ensures
        first_prop(props, k1, k2) is None,
    decreases props.len(),
{
    if props.len() > 0 {
        lemma_first_prop_absent(props.drop_first(), k1, k2);
    }
}

proof fn lemma_first_prop_present(props: Seq<SpecProp>, k1: Seq<char>, k2: Seq<char>, j: int)
    requires
        0 <= j < props.len(),
        props[j].key == k1 || props[j].key == k2,
        forall|i: int| 0 <= i < j ==> props[i].key != k1 && props[i].key != k2,
    ensures
        first_prop(props, k1, k2) == Some(props[j].value),
    decreases j,
{
    if j > 0 {
        lemma_first_prop_present(props.drop_first(), k1, k2, j - 1);
    }
}

proof fn lemma_first_preset_absent(presets: Seq<(Seq<char>, Decimal)>, k: Seq<char>)
    requires
        forall|i: int| 0 <= i < presets.len() ==> presets[i].0 != k,
    ensures
        first_preset(presets, k, k) is None,
    decreases presets.len(),
{
    if presets.len() > 0 {
        lemma_first_preset_absent(presets.drop_first(), k);
    }
}

/// A prism has as many sides as its first `sides` or `n` property says;
/// without one, and without a style preset for `sides`, it is hexagonal.
pub proof fn lemma_prism_sides(p: SpecPrimitiveBlock, s: Decimal)
    requires
        p.kind == PrimKind::Prism,
    ensures
        (forall|i: int| 0 <= i < p.props.len() ==> p.props[i].key != "sides"@ && p.props[i].key != "n"@)
            && (forall|i: int| 0 <= i < block_presets(p).len() ==> block_presets(p)[i].0 != "sides"@)
            ==> (spec_primitive_shape(p, s) is Prism && spec_primitive_shape(p, s)->sides == (Decimal { mantissa: 6, scale: 0 })),
        forall|j: int| 0 <= j < p.props.len() && (p.props[j].key == "sides"@ || p.props[j].key == "n"@)
            && (forall|i: int| 0 <= i < j ==> p.props[i].key != "sides"@ && p.props[i].key != "n"@)
            ==> (spec_primitive_shape(p, s) is Prism && spec_primitive_shape(p, s)->sides == p.props[j].value),
{
    if (forall|i: int| 0 <= i < p.props.len() ==> p.props[i].key != "sides"@ && p.props[i].key != "n"@)
        && (forall|i: int| 0 <= i < block_presets(p).len() ==> block_presets(p)[i].0 != "sides"@) {
        lemma_first_prop_absent(p.props, "sides"@, "n"@);
        lemma_first_preset_absent(block_presets(p), "sides"@);
    }
    assert forall|j: int| 0 <= j < p.props.len() && (p.props[j].key == "sides"@ || p.props[j].key == "n"@)
        && (forall|i: int| 0 <= i < j ==> p.props[i].key != "sides"@ && p.props[i].key != "n"@)
        implies (spec_primitive_shape(p, s) is Prism && spec_primitive_shape(p, s)->sides == p.props[j].value) by {
        lemma_first_prop_present(p.props, "sides"@, "n"@, j);
    }
}

/// A primitive block that writes no property and names no style has the
/// default dimensions, in the block's scale: a cube of 10 on each side, a
/// sphere of radius 5, a cylinder of radius 5 and height 10, a cone of base
/// radius 5 to a point over height 10, a torus of radii 10 and 2, a pyramid
/// of base 10 × 10 and height 10, and a hexagonal prism 10 across its flats
/// and 10 high.
pub proof fn lemma_primitive_defaults(p: SpecPrimitiveBlock, s: Decimal)
    requires
        p.props.len() == 0,
        p.style is None,
    ensures
        p.kind == PrimKind::Cube ==> spec_primitive_shape(p, s) == (PrimitivePlan::Cube {
            width: Length { value: Decimal { mantissa: 10, scale: 0 }, scale: s },
            depth: Length { value: Decimal { mantissa: 10, scale: 0 }, scale: s },
            height: Length { value: Decimal { mantissa: 10, scale: 0 }, scale: s },
        }),
        p.kind == PrimKind::Sphere ==> spec_primitive_shape(p, s) == (PrimitivePlan::Sphere {
            radius: Length { value: Decimal { mantissa: 5, scale: 0 }, scale: s },
        }),
        p.kind == PrimKind::Cylinder ==> spec_primitive_shape(p, s) == (PrimitivePlan::Cylinder {
            radius: Length { value: Decimal { mantissa: 5, scale: 0 }, scale: s },
            height: Length { value: Decimal { mantissa: 10, scale: 0 }, scale: s },
        }),
        p.kind == PrimKind::Cone ==> spec_primitive_shape(p, s) == (PrimitivePlan::Cone {
            base_radius: Length { value: Decimal { mantissa: 5, scale: 0 }, scale: s },
            top_radius: Length { value: Decimal { mantissa: 0, scale: 0 }, scale: s },
            height: Length { value: Decimal { mantissa: 10, scale: 0 }, scale: s },
        }),
        p.kind == PrimKind::Torus ==> spec_primitive_shape(p, s) == (PrimitivePlan::Torus {
            major: Length { value: Decimal { mantissa: 10, scale: 0 }, scale: s },
            minor: Length { value: Decimal { mantissa: 2, scale: 0 }, scale: s },
        }),
        p.kind == PrimKind::Pyramid ==> spec_primitive_shape(p, s) == (PrimitivePlan::Pyramid {
            base_width: Length { value: Decimal { mantissa: 10, scale: 0 }, scale: s },
            base_depth: Length { value: Decimal { mantissa: 10, scale: 0 }, scale: s },
            height: Length { value: Decimal { mantissa: 10, scale: 0 }, scale: s },
        }),
        p.kind == PrimKind::Prism ==> spec_primitive_shape(p, s) == (PrimitivePlan::Prism {
            sides: Decimal { mantissa: 6, scale: 0 },
            flat_to_flat: Length { value: Decimal { mantissa: 10, scale: 0 }, scale: s },
            height: Length { value: Decimal { mantissa: 10, scale: 0 }, scale: s },
        }),
{
}

/// A cube whose depth and height are not written is as deep and as high as
/// it is wide, and a pyramid whose base depth is not written has a square
/// base (without a style preset for them).
pub proof fn lemma_dimensions_follow_width(p: SpecPrimitiveBlock, s: Decimal)
    requires
        p.style is None,
    ensures
        p.kind == PrimKind::Cube && (forall|i: int| 0 <= i < p.props.len() ==> p.props[i].key != "depth"@)
            ==> (spec_primitive_shape(p, s) is Cube && spec_primitive_shape(p, s)->depth
            == spec_primitive_shape(p, s)->width),
        p.kind == PrimKind::Cube && (forall|i: int| 0 <= i < p.props.len() ==> p.props[i].key != "height"@)
            ==> (spec_primitive_shape(p, s) is Cube && spec_primitive_shape(p, s)->Cube_height
            == spec_primitive_shape(p, s)->width),
        p.kind == PrimKind::Pyramid && (forall|i: int| 0 <= i < p.props.len() ==> p.props[i].key != "base_depth"@)
            ==> (spec_primitive_shape(p, s) is Pyramid && spec_primitive_shape(p, s)->base_depth
            == spec_primitive_shape(p, s)->base_width),
{
    if forall|i: int| 0 <= i < p.props.len() ==> p.props[i].key != "depth"@ {
        lemma_first_prop_absent(p.props, "depth"@, "depth"@);
    }
    if forall|i: int| 0 <= i < p.props.len() ==> p.props[i].key != "height"@ {
        lemma_first_prop_absent(p.props, "height"@, "height"@);
    }
    if forall|i: int| 0 <= i < p.props.len() ==> p.props[i].key != "base_depth"@ {
        lemma_first_prop_absent(p.props, "base_depth"@, "base_depth"@);
    }
}

/// What a manipulation does to a shape: a chamfer and a fillet of one radius
/// both move the surface out by that radius, a shell hollows it to the given
/// wall, a hole bores the given diameter through it, and a thread or a
/// pattern leaves it as it is. Lengths are in the block's scale.
pub proof fn lemma_manipulation_effects(node: SdfPlan, s: Decimal, r: Decimal, e: Option<Decimal>, n: Seq<char>)
    ensures
        apply_manip(node, SpecManipulation::Chamfer(r), s) == apply_manip(node, SpecManipulation::Fillet(r), s),
        apply_manip(node, SpecManipulation::Chamfer(r), s) == (SdfPlan::Offset {
            inner: Box::new(node),
            by: Length { value: r, scale: s },
        }),
        apply_manip(node, SpecManipulation::Shell(r), s) == (SdfPlan::Shell {
            inner: Box::new(node),
            thickness: Length { value: r, scale: s },
        }),
        apply_manip(node, SpecManipulation::Hole { diameter: r, depth: e }, s) == (SdfPlan::Hole {
            inner: Box::new(node),
            diameter: Length { value: r, scale: s },
        }),
        apply_manip(node, SpecManipulation::Thread { diameter: r, pitch: e }, s) == node,
        apply_manip(node, SpecManipulation::Pattern { name: n, count: r }, s) == node,
{
}

// ── Assembly operations ───────────────────────────────────────────────────────

/// Place and join add the placed part to the shape so far, cut and subtract
/// remove it, and intersect keeps only what the two share.
pub proof fn lemma_combine_by_operation(op: SpecAssembleOp, acc: SdfPlan, part: SdfPlan)
    ensures
        (op is Place || op is Join) ==> combine(op, acc, part) == SdfPlan::Union(Box::new(acc), Box::new(part)),
        (op is Cut || op is Subtract) ==> combine(op, acc, part) == SdfPlan::Difference(Box::new(acc), Box::new(part)),
        op is Intersect ==> combine(op, acc, part) == SdfPlan::Intersection(Box::new(acc), Box::new(part)),
        op is Subtract ==> combine(op, acc, part) == combine(
            SpecAssembleOp::Cut { name: op_name(op), at: op_at(op), pointing: None },
            acc,
            part,
        ),
{
}

// ── Units ─────────────────────────────────────────────────────────────────────

/// A primitive block with its own `units` statement measures in them,
/// whatever the scale of the block around it.
pub proof fn lemma_primitive_units_override(p: SpecPrimitiveBlock, parent1: Decimal, parent2: Decimal)
    requires
        p.units is Some,
    ensures
        spec_eval_primitive(p, parent1) == spec_eval_primitive(p, parent2),
{
}

/// A define block with a `units` statement measures in them, whatever the
/// scale of the block that uses it.
pub proof fn lemma_define_units_override(b: SpecDefineBlock, parent1: Decimal, parent2: Decimal)
    requires
        define_units(b.items) is Some,
    ensures
        spec_eval_define(b, parent1) == spec_eval_define(b, parent2),
{
}

/// An assemble block with a `units` statement measures in them, whatever the
/// scale it is evaluated in.
pub proof fn lemma_assemble_units_override(
    b: crate::parser::ast::SpecAssembleBlock,
    defs: Seq<SpecDefineBlock>,
    parent1: Decimal,
    parent2: Decimal,
)
    requires
        assemble_units(b.items) is Some,
    ensures
        spec_eval_assemble(b, defs, parent1) == spec_eval_assemble(b, defs, parent2),
{
}

/// Of two definitions with one name, an assembly uses the later one.
pub proof fn lemma_later_definition_wins(defs: Seq<SpecDefineBlock>, d: SpecDefineBlock)
    ensures
        find_define(defs.push(d), d.name) == Some(d),
{
    assert(defs.push(d).drop_last() =~= defs);
}

// ── Whole files ───────────────────────────────────────────────────────────────

/// Evaluates the first `define` block of a parsed file, in millimetres.
pub fn eval_file_first_define(file: &PolyhFile) -> (r: Result<SdfPlan, PolyhedraError>)
    ensures
        ({
            let ds = defines_of(file@.items);
            if ds.len() == 0 {
                r matches Err(PolyhedraError::GeometryError { message }) && message@
                    == "file contains no 'define' block"@
            } else {
                match spec_eval_define(ds[0], whole(1)) {
                    Ok(plan) => r == Ok::<SdfPlan, PolyhedraError>(plan),
                    Err(m) => r matches Err(PolyhedraError::GeometryError { message }) && message@
                        == m,
                }
            }
        }),
{
    let defs = file.define_list();
    if defs.len() == 0 {
        return Err(PolyhedraError::GeometryError { message: "file contains no 'define' block".to_owned() });
    }
    assert(defs@[0]@ == defines_of(file@.items)[0]);
    eval_define(defs[0], Decimal::integer(1))
}

/// Evaluates the first `assemble` block of a parsed file, in millimetres,
/// with all of the file's `define` blocks at hand.
pub fn eval_file_first_assemble(file: &PolyhFile) -> (r: Result<SdfPlan, PolyhedraError>)
    ensures
        ({
            let as_ = assemblies_of(file@.items);
            if as_.len() == 0 {
                r matches Err(PolyhedraError::GeometryError { message }) && message@
                    == "file contains no 'assemble' block"@
            } else {
                match spec_eval_assemble(as_[0], defines_of(file@.items), whole(1)) {
                    Ok(plan) => r == Ok::<SdfPlan, PolyhedraError>(plan),
                    Err(m) => r matches Err(PolyhedraError::GeometryError { message }) && message@
                        == m,
                }
            }
        }),
{
    let defs = file.define_list();
    let asms = file.assembly_list();
    if asms.len() == 0 {
        return Err(
            PolyhedraError::GeometryError { message: "file contains no 'assemble' block".to_owned() },
        );
    }
    assert(asms@[0]@ == assemblies_of(file@.items)[0]);
    eval_assemble(asms[0], &defs, Decimal::integer(1))
}

} // verus!

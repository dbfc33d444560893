//! Abstract syntax tree of the `.polyh` language.
//!
//! The tree is a structural image of the grammar: it holds no resolved
//! geometry. Numbers are kept exactly as written, as canonical decimals.

use vstd::prelude::*;
use vstd::std_specs::iter::IteratorSpec;

verus! {

// ── Atoms ──────────────────────────────────────────────────────────────────────

/// Axis of a `move` statement.
#[derive(Debug, Clone, Copy, PartialEq, Eq, Structural)]
pub enum Axis {
    X,
    Y,
    Z,
}

/// Direction of a `pointing` clause in a cut operation.
#[derive(Debug, Clone, Copy, PartialEq, Eq, Structural)]
pub enum Direction {
    Up,
    Down,
    Left,
    Right,
    PosX,
    NegX,
    PosY,
    NegY,
    PosZ,
    NegZ,
}

/// Unit of measurement declared by a `units` statement.
#[derive(Debug, Clone, Copy, PartialEq, Eq, Structural)]
pub enum Unit {
    Mm,
    Cm,
    M,
    In,
    Ft,
}

/// A number as written in the source: `mantissa / 10^scale`. A negative
/// scale multiplies: `mantissa * 10^(-scale)`.
///
/// Canonical form: no trailing zero after the decimal point (`scale <= 0`
/// or the mantissa is not a multiple of ten).
#[derive(Debug, Clone, Copy, PartialEq, Eq, Structural)]
pub struct Decimal {
    pub mantissa: i64,
    pub scale: i64,
}

impl Decimal {
    /// No trailing zero is kept after the decimal point.
    pub open spec fn is_canonical(self) -> bool {
        self.scale <= 0 || self.mantissa % 10 != 0
    }

    /// The whole number `n` as a decimal.
    pub fn integer(n: i64) -> (r: Decimal)
        ensures
            r == (Decimal { mantissa: n, scale: 0 }),
            r.is_canonical(),
    {
        Decimal { mantissa: n, scale: 0 }
    }
}

impl Unit {
    /// Scale factor relative to millimetres, as an exact decimal.
    pub open spec fn spec_to_mm(self) -> Decimal {
        match self {
            Unit::Mm => Decimal { mantissa: 1, scale: 0 },
            Unit::Cm => Decimal { mantissa: 10, scale: 0 },
            Unit::M => Decimal { mantissa: 1000, scale: 0 },
            Unit::In => Decimal { mantissa: 254, scale: 1 },
            Unit::Ft => Decimal { mantissa: 3048, scale: 1 },
        }
    }

    /// Scale factor relative to millimetres (1 in = 25.4 mm, 1 ft = 304.8 mm).
    pub fn to_mm(self) -> (r: Decimal)
        ensures
            r == self.spec_to_mm(),
            r.is_canonical(),
    {
        match self {
            Unit::Mm => Decimal { mantissa: 1, scale: 0 },
            Unit::Cm => Decimal { mantissa: 10, scale: 0 },
            Unit::M => Decimal { mantissa: 1000, scale: 0 },
            Unit::In => Decimal { mantissa: 254, scale: 1 },
            Unit::Ft => Decimal { mantissa: 3048, scale: 1 },
        }
    }
}

/// 3-D position: `origin` or `(x, y, z)`.
#[derive(Debug, Clone, Copy, PartialEq, Eq, Structural)]
pub enum Position {
    Origin,
    Coords(Decimal, Decimal, Decimal),
}

// ── Primitive properties ───────────────────────────────────────────────────────

/// A `key value` property line inside a primitive block.
#[derive(Debug, Clone, PartialEq)]
pub struct Prop {
    pub key: String,
    pub value: Decimal,
}

/// A `move axis value` statement inside a primitive block.
#[derive(Debug, Clone, Copy, PartialEq, Eq, Structural)]
pub struct MoveStmt {
    pub axis: Axis,
    pub value: Decimal,
}

/// One of the primitive keywords.
#[derive(Debug, Clone, Copy, PartialEq, Eq, Structural)]
pub enum PrimKind {
    Cube,
    Sphere,
    Cylinder,
    Cone,
    Torus,
    Pyramid,
    Prism,
}

/// A primitive block: `cube ... end`.
#[derive(Debug, Clone, PartialEq)]
pub struct PrimitiveBlock {
    pub kind: PrimKind,
    pub units: Option<Unit>,
    pub props: Vec<Prop>,
    pub moves: Vec<MoveStmt>,
    /// A named style whose preset dimensions stand in for properties that
    /// the block does not write. The text syntax has no style statement, so
    /// a parsed block has none.
    pub style: Option<String>,
}

// ── Manipulations ──────────────────────────────────────────────────────────────

/// Manipulations allowed at define or assemble scope.
#[derive(Debug, Clone, PartialEq)]
pub enum Manipulation {
    Chamfer(Decimal),
    Fillet(Decimal),
    /// Shell with a wall thickness.
    Shell(Decimal),
    /// Hole with a diameter and an optional depth.
    Hole { diameter: Decimal, depth: Option<Decimal> },
    /// Thread with a diameter and an optional pitch.
    Thread { diameter: Decimal, pitch: Option<Decimal> },
    /// Linear or circular pattern.
    Pattern { name: String, count: Decimal },
}

// ── Define block ───────────────────────────────────────────────────────────────

/// Items of a `define` block.
#[derive(Debug, Clone, PartialEq)]
pub enum DefineItem {
    Units(Unit),
    Primitive(PrimitiveBlock),
    Manip(Manipulation),
}

/// A `define <name> ... end` block.
#[derive(Debug, Clone, PartialEq)]
pub struct DefineBlock {
    pub name: String,
    pub items: Vec<DefineItem>,
}

// ── Assembly operations ────────────────────────────────────────────────────────

/// One operation of an `assemble` block.
#[derive(Debug, Clone, PartialEq)]
pub enum AssembleOp {
    Place { name: String, at: Position },
    Cut { name: String, at: Position, pointing: Option<Direction> },
    Join { name: String, at: Position },
    Intersect { name: String, at: Position },
    Subtract { name: String, at: Position },
}

/// Items of an `assemble` block.
#[derive(Debug, Clone, PartialEq)]
pub enum AssembleItem {
    Units(Unit),
    Op(AssembleOp),
    Manip(Manipulation),
}

/// An `assemble <name> ... end` block.
#[derive(Debug, Clone, PartialEq)]
pub struct AssembleBlock {
    pub name: String,
    pub items: Vec<AssembleItem>,
}

// ── Export block ───────────────────────────────────────────────────────────────

/// Quality preset of an export block.
#[derive(Debug, Clone, Copy, PartialEq, Eq, Structural)]
pub enum Quality {
    Low,
    Medium,
    High,
    Ultra,
}

/// An `export ... end` block.
#[derive(Debug, Clone, PartialEq)]
pub struct ExportBlock {
    pub format: Option<String>,
    pub quality: Option<Quality>,
    pub file: Option<String>,
}

// ── Top-level file ─────────────────────────────────────────────────────────────

/// One item at the top level of a `.polyh` file.
#[derive(Debug, Clone, PartialEq)]
pub enum TopLevelItem {
    Use(String),
    Define(DefineBlock),
    Assemble(AssembleBlock),
    Export(ExportBlock),
}

/// A whole parsed `.polyh` file.
#[derive(Debug, Clone, PartialEq)]
pub struct PolyhFile {
    pub items: Vec<TopLevelItem>,
}

/// The define blocks among top-level items, in order.
pub open spec fn defines_of(s: Seq<SpecTopLevelItem>) -> Seq<SpecDefineBlock>
    decreases s.len(),
{
    if s.len() == 0 {
        Seq::empty()
    } else {
        defines_of(s.drop_last()) + match s.last() {
            SpecTopLevelItem::Define(d) => seq![d],
            _ => Seq::empty(),
        }
    }
}

/// The assemble blocks among top-level items, in order.
pub open spec fn assemblies_of(s: Seq<SpecTopLevelItem>) -> Seq<SpecAssembleBlock>
    decreases s.len(),
{
    if s.len() == 0 {
        Seq::empty()
    } else {
        assemblies_of(s.drop_last()) + match s.last() {
            SpecTopLevelItem::Assemble(a) => seq![a],
            _ => Seq::empty(),
        }
    }
}

/// The first export block among top-level items.
pub open spec fn first_export(s: Seq<SpecTopLevelItem>) -> Option<SpecExportBlock>
    decreases s.len(),
{
    if s.len() == 0 {
        None
    } else {
        match s[0] {
            SpecTopLevelItem::Export(e) => Some(e),
            _ => first_export(s.drop_first()),
        }
    }
}

impl Default for PolyhFile {
    /// A file with no items.
    fn default() -> (r: PolyhFile)
        ensures
            r.items@.len() == 0,
    {
        PolyhFile { items: Vec::new() }
    }
}

impl PolyhFile {
    /// The `define` blocks, in file order.
    pub(crate) fn define_list(&self) -> (r: Vec<&DefineBlock>)
        ensures
            r@.map_values(|d: &DefineBlock| d@) == defines_of(self@.items),
    {
        let mut v: Vec<&DefineBlock> = Vec::new();
        let mut i: usize = 0;
        while i < self.items.len()
            invariant
                i <= self.items.len(),
                v@.map_values(|d: &DefineBlock| d@) == defines_of(self@.items.take(i as int)),
            decreases self.items.len() - i,
        {
            assert(self@.items.take(i + 1).drop_last() =~= self@.items.take(i as int));
            if let TopLevelItem::Define(d) = &self.items[i] {
                v.push(d);
            }
            assert(v@.map_values(|d: &DefineBlock| d@) =~= defines_of(self@.items.take(i + 1)));
            i = i + 1;
        }
        assert(self@.items.take(self.items.len() as int) =~= self@.items);
        v
    }

    /// The `assemble` blocks, in file order.
    pub(crate) fn assembly_list(&self) -> (r: Vec<&AssembleBlock>)
        ensures
            r@.map_values(|a: &AssembleBlock| a@) == assemblies_of(self@.items),
    {
        let mut v: Vec<&AssembleBlock> = Vec::new();
        let mut i: usize = 0;
        while i < self.items.len()
            invariant
                i <= self.items.len(),
                v@.map_values(|a: &AssembleBlock| a@) == assemblies_of(self@.items.take(i as int)),
            decreases self.items.len() - i,
        {
            assert(self@.items.take(i + 1).drop_last() =~= self@.items.take(i as int));
            if let TopLevelItem::Assemble(a) = &self.items[i] {
                v.push(a);
            }
            assert(v@.map_values(|a: &AssembleBlock| a@) =~= assemblies_of(
                self@.items.take(i + 1),
            ));
            i = i + 1;
        }
        assert(self@.items.take(self.items.len() as int) =~= self@.items);
        v
    }

    /// All `define` blocks, in file order.
    pub fn defines(&self) -> (r: std::vec::IntoIter<&DefineBlock>)
        ensures
            r.remaining().map_values(|d: &DefineBlock| d@) == defines_of(self@.items),
    {
        self.define_list().into_iter()
    }

    /// All `assemble` blocks, in file order.
    pub fn assemblies(&self) -> (r: std::vec::IntoIter<&AssembleBlock>)
        ensures
            r.remaining().map_values(|a: &AssembleBlock| a@) == assemblies_of(self@.items),
    {
        self.assembly_list().into_iter()
    }

    /// The first `export` block, if any.
    pub fn export(&self) -> (r: Option<&ExportBlock>)
        ensures
            match r {
                Some(e) => first_export(self@.items) == Some(e@),
                None => first_export(self@.items) is None,
            },
    {
        let mut i: usize = 0;
        assert(self@.items.skip(0) =~= self@.items);
        while i < self.items.len()
            invariant
                i <= self.items.len(),
                first_export(self@.items) == first_export(self@.items.skip(i as int)),
            decreases self.items.len() - i,
        {
            assert(self@.items.skip(i as int).drop_first() =~= self@.items.skip(i + 1));
            if let TopLevelItem::Export(e) = &self.items[i] {
                return Some(e);
            }
            i = i + 1;
        }
        None
    }
}

// ── Mathematical model ─────────────────────────────────────────────────────────

pub struct SpecProp {
    pub key: Seq<char>,
    pub value: Decimal,
}

pub struct SpecPrimitiveBlock {
    pub kind: PrimKind,
    pub units: Option<Unit>,
    pub props: Seq<SpecProp>,
    pub moves: Seq<MoveStmt>,
    pub style: Option<Seq<char>>,
}

pub enum SpecManipulation {
    Chamfer(Decimal),
    Fillet(Decimal),
    Shell(Decimal),
    Hole { diameter: Decimal, depth: Option<Decimal> },
    Thread { diameter: Decimal, pitch: Option<Decimal> },
    Pattern { name: Seq<char>, count: Decimal },
}

pub enum SpecDefineItem {
    Units(Unit),
    Primitive(SpecPrimitiveBlock),
    Manip(SpecManipulation),
}

pub struct SpecDefineBlock {
    pub name: Seq<char>,
    pub items: Seq<SpecDefineItem>,
}

pub enum SpecAssembleOp {
    Place { name: Seq<char>, at: Position },
    Cut { name: Seq<char>, at: Position, pointing: Option<Direction> },
    Join { name: Seq<char>, at: Position },
    Intersect { name: Seq<char>, at: Position },
    Subtract { name: Seq<char>, at: Position },
}

pub enum SpecAssembleItem {
    Units(Unit),
    Op(SpecAssembleOp),
    Manip(SpecManipulation),
}

pub struct SpecAssembleBlock {
    pub name: Seq<char>,
    pub items: Seq<SpecAssembleItem>,
}

pub struct SpecExportBlock {
    pub format: Option<Seq<char>>,
    pub quality: Option<Quality>,
    pub file: Option<Seq<char>>,
}

pub enum SpecTopLevelItem {
    Use(Seq<char>),
    Define(SpecDefineBlock),
    Assemble(SpecAssembleBlock),
    Export(SpecExportBlock),
}

pub struct SpecPolyhFile {
    pub items: Seq<SpecTopLevelItem>,
}

impl View for Axis {
    type V = Axis;

    open spec fn view(&self) -> Axis {
        *self
    }
}

impl View for Direction {
    type V = Direction;

    open spec fn view(&self) -> Direction {
        *self
    }
}

impl View for Unit {
    type V = Unit;

    open spec fn view(&self) -> Unit {
        *self
    }
}

impl View for Decimal {
    type V = Decimal;

    open spec fn view(&self) -> Decimal {
        *self
    }
}

impl View for Position {
    type V = Position;

    open spec fn view(&self) -> Position {
        *self
    }
}

impl View for MoveStmt {
    type V = MoveStmt;

    open spec fn view(&self) -> MoveStmt {
        *self
    }
}

impl View for PrimKind {
    type V = PrimKind;

    open spec fn view(&self) -> PrimKind {
        *self
    }
}

impl View for Quality {
    type V = Quality;

    open spec fn view(&self) -> Quality {
        *self
    }
}

impl View for Prop {
    type V = SpecProp;

    open spec fn view(&self) -> SpecProp {
        SpecProp { key: self.key@, value: self.value }
    }
}

impl View for PrimitiveBlock {
    type V = SpecPrimitiveBlock;

    open spec fn view(&self) -> SpecPrimitiveBlock {
        SpecPrimitiveBlock {
            kind: self.kind,
            units: self.units,
            props: self.props@.map_values(|p: Prop| p@),
            moves: self.moves@,
            style: opt_string_view(self.style),
        }
    }
}

impl View for Manipulation {
    type V = SpecManipulation;

    open spec fn view(&self) -> SpecManipulation {
        match self {
            Manipulation::Chamfer(d) => SpecManipulation::Chamfer(*d),
            Manipulation::Fillet(d) => SpecManipulation::Fillet(*d),
            Manipulation::Shell(d) => SpecManipulation::Shell(*d),
            Manipulation::Hole { diameter, depth } => SpecManipulation::Hole {
                diameter: *diameter,
                depth: *depth,
            },
            Manipulation::Thread { diameter, pitch } => SpecManipulation::Thread {
                diameter: *diameter,
                pitch: *pitch,
            },
            Manipulation::Pattern { name, count } => SpecManipulation::Pattern {
                name: name@,
                count: *count,
            },
        }
    }
}

impl View for DefineItem {
    type V = SpecDefineItem;

    open spec fn view(&self) -> SpecDefineItem {
        match self {
            DefineItem::Units(u) => SpecDefineItem::Units(*u),
            DefineItem::Primitive(p) => SpecDefineItem::Primitive(p@),
            DefineItem::Manip(m) => SpecDefineItem::Manip(m@),
        }
    }
}

impl View for DefineBlock {
    type V = SpecDefineBlock;

    open spec fn view(&self) -> SpecDefineBlock {
        SpecDefineBlock { name: self.name@, items: self.items@.map_values(|i: DefineItem| i@) }
    }
}

impl View for AssembleOp {
    type V = SpecAssembleOp;

    open spec fn view(&self) -> SpecAssembleOp {
        match self {
            AssembleOp::Place { name, at } => SpecAssembleOp::Place { name: name@, at: *at },
            AssembleOp::Cut { name, at, pointing } => SpecAssembleOp::Cut {
                name: name@,
                at: *at,
                pointing: *pointing,
            },
            AssembleOp::Join { name, at } => SpecAssembleOp::Join { name: name@, at: *at },
            AssembleOp::Intersect { name, at } => SpecAssembleOp::Intersect {
                name: name@,
                at: *at,
            },
            AssembleOp::Subtract { name, at } => SpecAssembleOp::Subtract {
                name: name@,
                at: *at,
            },
        }
    }
}

impl View for AssembleItem {
    type V = SpecAssembleItem;

    open spec fn view(&self) -> SpecAssembleItem {
        match self {
            AssembleItem::Units(u) => SpecAssembleItem::Units(*u),
            AssembleItem::Op(o) => SpecAssembleItem::Op(o@),
            AssembleItem::Manip(m) => SpecAssembleItem::Manip(m@),
        }
    }
}

impl View for AssembleBlock {
    type V = SpecAssembleBlock;

    open spec fn view(&self) -> SpecAssembleBlock {
        SpecAssembleBlock {
            name: self.name@,
            items: self.items@.map_values(|i: AssembleItem| i@),
        }
    }
}

/// The view of an optional string.
pub open spec fn opt_string_view(s: Option<String>) -> Option<Seq<char>> {
    match s {
        Some(t) => Some(t@),
        None => None,
    }
}

impl View for ExportBlock {
    type V = SpecExportBlock;

    open spec fn view(&self) -> SpecExportBlock {
        SpecExportBlock {
            format: opt_string_view(self.format),
            quality: self.quality,
            file: opt_string_view(self.file),
        }
    }
}

impl View for TopLevelItem {
    type V = SpecTopLevelItem;

    open spec fn view(&self) -> SpecTopLevelItem {
        match self {
            TopLevelItem::Use(s) => SpecTopLevelItem::Use(s@),
            TopLevelItem::Define(d) => SpecTopLevelItem::Define(d@),
            TopLevelItem::Assemble(a) => SpecTopLevelItem::Assemble(a@),
            TopLevelItem::Export(e) => SpecTopLevelItem::Export(e@),
        }
    }
}

impl View for PolyhFile {
    type V = SpecPolyhFile;

    open spec fn view(&self) -> SpecPolyhFile {
        SpecPolyhFile { items: self.items@.map_values(|i: TopLevelItem| i@) }
    }
}

} // verus!

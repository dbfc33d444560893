//! What the command-line modes compute before they print or write: the
//! output directory and file names, the block that a compile evaluates, the
//! reports of `--list` and `--validate`, and when watch mode recompiles.

use vstd::prelude::*;
use crate::error::PolyhedraError;
use crate::eval::{
    SdfPlan, eval_file_first_assemble, eval_file_first_define, spec_eval_assemble,
    spec_eval_define, whole,
};
use crate::export::{ExportFormat, path_extension, spec_path_extension};
use crate::parser::ast::{
    AssembleBlock, AssembleItem, DefineBlock, DefineItem, PolyhFile, SpecAssembleBlock,
    SpecAssembleItem, SpecDefineBlock, SpecDefineItem, SpecPolyhFile, SpecTopLevelItem, assemblies_of, defines_of,
    first_export,
};
use crate::text::{chars_of, decimal, push_decimal, vec_eq_str};

verus! {

/// The parent of the path spelled by `path`, as `std::path::Path::parent`
/// finds it with the path syntax of the platform the library is built for
/// (`None` for a root or an empty path).
pub uninterp spec fn spec_path_parent(path: Seq<char>) -> Option<Seq<char>>;

/// The file stem of the path spelled by `path`, as
/// `std::path::Path::file_stem` finds it with the path syntax of the
/// platform the library is built for.
pub uninterp spec fn spec_path_file_stem(path: Seq<char>) -> Option<Seq<char>>;

/// `Path::parent` of the path spelled by `path`. The contract names its
/// result (`spec_path_parent`, a function of the text alone) and states no
/// more of how `std` splits a path into components.
#[verifier::external_body]
fn path_parent(path: &str) -> (r: Option<String>)
    ensures
        match r {
            Some(p) => spec_path_parent(path@) == Some(p@),
            None => spec_path_parent(path@) is None,
        },
{
    std::path::Path::new(path).parent().map(|p| p.to_string_lossy().into_owned())
}

/// `Path::file_stem` of the path spelled by `path`. The contract names its
/// result (`spec_path_file_stem`, a function of the text alone) and states
/// no more of how `std` finds the stem.
#[verifier::external_body]
fn path_file_stem(path: &str) -> (r: Option<String>)
    ensures
        match r {
            Some(p) => spec_path_file_stem(path@) == Some(p@),
            None => spec_path_file_stem(path@) is None,
        },
{
    std::path::Path::new(path).file_stem().map(|p| p.to_string_lossy().into_owned())
}

/// The output directory: the one given, else the input file's directory,
/// else the current directory.
pub open spec fn spec_output_dir(dir: Option<Seq<char>>, input: Seq<char>) -> Seq<char> {
    match dir {
        Some(d) => d,
        None => match spec_path_parent(input) {
            Some(p) => p,
            None => "."@,
        },
    }
}

/// The directory that output files go to.
pub fn resolve_output_dir(dir: Option<&str>, input: &str) -> (r: String)
    ensures
        r@ == spec_output_dir(
            match dir {
                Some(d) => Some(d@),
                None => None,
            },
            input@,
        ),
{
    match dir {
        Some(d) => d.to_owned(),
        None => match path_parent(input) {
            Some(p) => p,
            None => ".".to_owned(),
        },
    }
}

/// The name of the file that a format is written to: the input's stem (or
/// nothing), a dot, and the format's extension.
pub open spec fn spec_output_file_name(input: Seq<char>, fmt: ExportFormat) -> Seq<char> {
    let stem = match spec_path_file_stem(input) {
        Some(s) => s,
        None => Seq::empty(),
    };
    stem + "."@ + fmt.spec_extension()
}

/// The name of the file that `fmt` is written to, for the input file `input`.
pub fn output_file_name(input: &str, fmt: ExportFormat) -> (r: String)
    ensures
        r@ == spec_output_file_name(input@, fmt),
{
    let mut s = match path_file_stem(input) {
        Some(stem) => stem,
        None => String::new(),
    };
    s.append(".");
    s.append(fmt.extension());
    s
}


/// The plan that a compile meshes, or the text of the error that stops it:
/// the first `assemble` block when there is one (with every `define` block
/// at hand), else the first `define` block, both in millimetres.
pub open spec fn spec_compile_plan(f: SpecPolyhFile) -> Result<SdfPlan, Seq<char>> {
    let asms = assemblies_of(f.items);
    let defs = defines_of(f.items);
    if asms.len() > 0 {
        match spec_eval_assemble(asms[0], defs, whole(1)) {
            Ok(p) => Ok(p),
            Err(m) => Err("Geometry error: "@ + m),
        }
    } else if defs.len() > 0 {
        match spec_eval_define(defs[0], whole(1)) {
            Ok(p) => Ok(p),
            Err(m) => Err("Geometry error: "@ + m),
        }
    } else {
        Err("file has no 'define' or 'assemble' block"@)
    }
}

/// Chooses the block that a compile meshes and evaluates it; an error comes
/// back as the sentence that reports it.
pub fn compile_plan(file: &PolyhFile) -> (r: Result<SdfPlan, String>)
    ensures
        match r {
            Ok(p) => spec_compile_plan(file@) == Ok::<SdfPlan, Seq<char>>(p),
            Err(e) => spec_compile_plan(file@) == Err::<SdfPlan, Seq<char>>(e@),
        },
{
    let asms = file.assembly_list();
    let defs = file.define_list();
    assert(asms@.len() == assemblies_of(file@.items).len());
    assert(defs@.len() == defines_of(file@.items).len());
    let r = if asms.len() > 0 {
        eval_file_first_assemble(file)
    } else if defs.len() > 0 {
        eval_file_first_define(file)
    } else {
        return Err("file has no 'define' or 'assemble' block".to_owned());
    };
    match r {
        Ok(p) => Ok(p),
        Err(e) => {
            let m = e.message();
            Err(m)
        },
    }
}

// ── `--list` ──────────────────────────────────────────────────────────────────

/// Number of primitive blocks among a define block's items.
pub open spec fn primitive_count(items: Seq<SpecDefineItem>) -> nat
    decreases items.len(),
{
    if items.len() == 0 {
        0
    } else {
        primitive_count(items.drop_last()) + if items.last() is Primitive {
            1nat
        } else {
            0nat
        }
    }
}

/// Number of manipulations among a define block's items.
pub open spec fn manipulation_count(items: Seq<SpecDefineItem>) -> nat
    decreases items.len(),
{
    if items.len() == 0 {
        0
    } else {
        manipulation_count(items.drop_last()) + if items.last() is Manip {
            1nat
        } else {
            0nat
        }
    }
}

/// Number of operations among an assemble block's items.
pub open spec fn operation_count(items: Seq<SpecAssembleItem>) -> nat
    decreases items.len(),
{
    if items.len() == 0 {
        0
    } else {
        operation_count(items.drop_last()) + if items.last() is Op {
            1nat
        } else {
            0nat
        }
    }
}

/// The `--list` line of a define block: its name, how many primitives it
/// has (when it has any) and whether it has manipulations.
pub open spec fn define_line(d: SpecDefineBlock) -> Seq<char> {
    let n = primitive_count(d.items);
    let prims = if n > 0 {
        "  ("@ + decimal(n) + " primitive"@ + (if n != 1 {
            "s"@
        } else {
            Seq::empty()
        }) + ")"@
    } else {
        Seq::empty()
    };
    let manips = if manipulation_count(d.items) > 0 {
        "  [manipulations]"@
    } else {
        Seq::empty()
    };
    "  define "@ + d.name + prims + manips
}

/// The `--list` line of an assemble block: its name and its operation count.
pub open spec fn assemble_line(a: SpecAssembleBlock) -> Seq<char> {
    "  assemble "@ + a.name + "  ("@ + decimal(operation_count(a.items)) + " operations)"@
}

/// The lines that `--list` prints under its heading: the define blocks, then
/// the assemble blocks, each in file order, or a note that there are none.
pub open spec fn spec_list_lines(f: SpecPolyhFile) -> Seq<Seq<char>> {
    let lines = defines_of(f.items).map_values(|d: SpecDefineBlock| define_line(d))
        + assemblies_of(f.items).map_values(|a: SpecAssembleBlock| assemble_line(a));
    if lines.len() == 0 {
        seq!["  (no objects found)"@]
    } else {
        lines
    }
}

fn define_counts(d: &DefineBlock) -> (r: (usize, usize))
    ensures
        r.0 == primitive_count(d@.items),
        r.1 == manipulation_count(d@.items),
{
    let mut prims: usize = 0;
    let mut manips: usize = 0;
    let mut i: usize = 0;
    while i < d.items.len()
        invariant
            i <= d.items.len(),
            prims == primitive_count(d@.items.take(i as int)),
            manips == manipulation_count(d@.items.take(i as int)),
            prims + manips <= i,
        decreases d.items.len() - i,
    {
        assert(d@.items.take(i + 1).drop_last() =~= d@.items.take(i as int));
        match &d.items[i] {
            DefineItem::Primitive(_) => prims = prims + 1,
            DefineItem::Manip(_) => manips = manips + 1,
            DefineItem::Units(_) => {},
        }
        i = i + 1;
    }
    assert(d@.items.take(d.items.len() as int) =~= d@.items);
    (prims, manips)
}

fn operation_total(a: &AssembleBlock) -> (r: usize)
    ensures
        r == operation_count(a@.items),
{
    let mut n: usize = 0;
    let mut i: usize = 0;
    while i < a.items.len()
        invariant
            i <= a.items.len(),
            n == operation_count(a@.items.take(i as int)),
            n <= i,
        decreases a.items.len() - i,
    {
        assert(a@.items.take(i + 1).drop_last() =~= a@.items.take(i as int));
        if let AssembleItem::Op(_) = &a.items[i] {
            n = n + 1;
        }
        i = i + 1;
    }
    assert(a@.items.take(a.items.len() as int) =~= a@.items);
    n
}

fn list_define_line(d: &DefineBlock) -> (r: String)
    ensures
        r@ == define_line(d@),
{
    let (prims, manips) = define_counts(d);
    let mut s = "  define ".to_owned();
    s.append(d.name.as_str());
    if prims > 0 {
        s.append("  (");
        push_decimal(&mut s, prims as u64);
        s.append(" primitive");
        if prims != 1 {
            s.append("s");
        }
        s.append(")");
    }
    if manips > 0 {
        s.append("  [manipulations]");
    }
    s
}

fn list_assemble_line(a: &AssembleBlock) -> (r: String)
    ensures
        r@ == assemble_line(a@),
{
    let n = operation_total(a);
    let mut s = "  assemble ".to_owned();
    s.append(a.name.as_str());
    s.append("  (");
    push_decimal(&mut s, n as u64);
    s.append(" operations)");
    s
}

/// The lines that `--list` prints under its heading.
pub fn list_lines(file: &PolyhFile) -> (r: Vec<String>)
    ensures
        r@.map_values(|s: String| s@) == spec_list_lines(file@),
{
    let defs = file.define_list();
    let asms = file.assembly_list();
    let ghost dv = defines_of(file@.items);
    let ghost av = assemblies_of(file@.items);
    let mut out: Vec<String> = Vec::new();
    let mut i: usize = 0;
    while i < defs.len()
        invariant
            i <= defs.len(),
            defs@.map_values(|d: &DefineBlock| d@) == dv,
            out@.map_values(|s: String| s@) == dv.take(i as int).map_values(
                |d: SpecDefineBlock| define_line(d),
            ),
        decreases defs.len() - i,
    {
        let line = list_define_line(defs[i]);
        proof {
            assert(defs@.map_values(|d: &DefineBlock| d@)[i as int] == defs@[i as int]@);
        }
        let ghost prev = out@;
        out.push(line);
        assert(out@ == prev.push(line));
        assert(dv.len() == defs@.len());
        let ghost ov = out@.map_values(|s: String| s@);
        let ghost tv = dv.take(i + 1).map_values(|d: SpecDefineBlock| define_line(d));
        let ghost pv = prev.map_values(|s: String| s@);
        let ghost qv = dv.take(i as int).map_values(|d: SpecDefineBlock| define_line(d));
        assert(pv.len() == prev.len() && qv.len() == i && pv == qv);
        assert forall|k: int| 0 <= k < i + 1 implies ov[k] == tv[k] by {
            if k < i {
                assert(pv[k] == qv[k]);
            }
        }
        assert(out@.map_values(|s: String| s@) =~= dv.take(i + 1).map_values(
            |d: SpecDefineBlock| define_line(d),
        ));
        i = i + 1;
    }
    assert(dv.take(defs.len() as int) =~= dv);
    let ghost dl = dv.map_values(|d: SpecDefineBlock| define_line(d));
    let mut j: usize = 0;
    while j < asms.len()
        invariant
            j <= asms.len(),
            asms@.map_values(|a: &AssembleBlock| a@) == av,
            dl.len() == dv.len(),
            out@.map_values(|s: String| s@) == dl + av.take(j as int).map_values(
                |a: SpecAssembleBlock| assemble_line(a),
            ),
        decreases asms.len() - j,
    {
        let line = list_assemble_line(asms[j]);
        proof {
            assert(asms@.map_values(|a: &AssembleBlock| a@)[j as int] == asms@[j as int]@);
        }
        let ghost prev = out@;
        out.push(line);
        assert(out@ == prev.push(line));
        assert(av.len() == asms@.len());
        let ghost ov = out@.map_values(|s: String| s@);
        let ghost tv = dl + av.take(j + 1).map_values(|a: SpecAssembleBlock| assemble_line(a));
        let ghost pv = prev.map_values(|s: String| s@);
        let ghost qv = dl + av.take(j as int).map_values(|a: SpecAssembleBlock| assemble_line(a));
        assert(pv.len() == prev.len() && qv.len() == dl.len() + j && pv == qv);
        assert forall|k: int| 0 <= k < dl.len() + j + 1 implies ov[k] == tv[k] by {
            if k < dl.len() + j {
                assert(pv[k] == qv[k]);
            }
        }
        assert(out@.map_values(|s: String| s@) =~= dl + av.take(j + 1).map_values(
            |a: SpecAssembleBlock| assemble_line(a),
        ));
        j = j + 1;
    }
    assert(av.take(asms.len() as int) =~= av);
    if out.len() == 0 {
        out.push("  (no objects found)".to_owned());
        assert(out@.map_values(|s: String| s@) =~= seq!["  (no objects found)"@]);
    }
    out
}

// ── `--validate` ──────────────────────────────────────────────────────────────

/// The lines that `--validate` prints for a file that parses: the number of
/// define and assemble blocks, and whether there is an export block.
pub open spec fn spec_validate_lines(f: SpecPolyhFile) -> Seq<Seq<char>> {
    seq![
        "  define blocks  : "@ + decimal(defines_of(f.items).len()),
        "  assemble blocks: "@ + decimal(assemblies_of(f.items).len()),
        "  export block   : "@ + if first_export(f.items) is Some {
            "yes"@
        } else {
            "no"@
        },
    ]
}

/// The lines that `--validate` prints for a file that parses.
pub fn validate_lines(file: &PolyhFile) -> (r: Vec<String>)
    ensures
        r@.map_values(|s: String| s@) == spec_validate_lines(file@),
{
    let defs = file.define_list();
    let asms = file.assembly_list();
    let mut a = "  define blocks  : ".to_owned();
    push_decimal(&mut a, defs.len() as u64);
    let mut b = "  assemble blocks: ".to_owned();
    push_decimal(&mut b, asms.len() as u64);
    let mut c = "  export block   : ".to_owned();
    match file.export() {
        Some(_) => c.append("yes"),
        None => c.append("no"),
    }
    let mut out: Vec<String> = Vec::new();
    out.push(a);
    out.push(b);
    out.push(c);
    assert(out@.map_values(|s: String| s@) =~= spec_validate_lines(file@));
    out
}

proof fn lemma_primitive_count(items: Seq<SpecDefineItem>)
    ensures
        primitive_count(items) == items.filter(|i: SpecDefineItem| i is Primitive).len(),
        manipulation_count(items) == items.filter(|i: SpecDefineItem| i is Manip).len(),
    decreases items.len(),
{
    reveal(Seq::filter);
    if items.len() > 0 {
        lemma_primitive_count(items.drop_last());
    }
}

proof fn lemma_operation_count(items: Seq<SpecAssembleItem>)
    ensures
        operation_count(items) == items.filter(|i: SpecAssembleItem| i is Op).len(),
    decreases items.len(),
{
    reveal(Seq::filter);
    if items.len() > 0 {
        lemma_operation_count(items.drop_last());
    }
}

/// The `--list` report has one line per block, define blocks first (or a
/// single line when there are none); a define line counts the block's
/// primitives and flags manipulations, and an assemble line counts its
/// operations.
pub proof fn lemma_list_counts(f: SpecPolyhFile)
    ensures
        ({
            let nd = f.items.filter(|i: SpecTopLevelItem| i is Define).len();
            let na = f.items.filter(|i: SpecTopLevelItem| i is Assemble).len();
            spec_list_lines(f).len() == if nd + na == 0 { 1 } else { nd + na }
        }),
        forall|d: SpecDefineBlock| #[trigger] define_line(d) == {
            let n = d.items.filter(|i: SpecDefineItem| i is Primitive).len();
            let has_manip = d.items.filter(|i: SpecDefineItem| i is Manip).len() > 0;
            "  define "@ + d.name + (if n > 0 {
                "  ("@ + decimal(n) + " primitive"@ + (if n != 1 { "s"@ } else { Seq::empty() }) + ")"@
            } else {
                Seq::empty()
            }) + (if has_manip { "  [manipulations]"@ } else { Seq::empty() })
        },
        forall|a: SpecAssembleBlock| #[trigger] assemble_line(a) == "  assemble "@ + a.name + "  ("@ + decimal(
            a.items.filter(|i: SpecAssembleItem| i is Op).len(),
        ) + " operations)"@,
{
    lemma_define_count(f.items);
    lemma_assemble_count(f.items);
    assert forall|d: SpecDefineBlock| #[trigger] define_line(d) == {
        let n = d.items.filter(|i: SpecDefineItem| i is Primitive).len();
        let has_manip = d.items.filter(|i: SpecDefineItem| i is Manip).len() > 0;
        "  define "@ + d.name + (if n > 0 {
            "  ("@ + decimal(n) + " primitive"@ + (if n != 1 { "s"@ } else { Seq::empty() }) + ")"@
        } else {
            Seq::empty()
        }) + (if has_manip { "  [manipulations]"@ } else { Seq::empty() })
    } by {
        lemma_primitive_count(d.items);
    }
    assert forall|a: SpecAssembleBlock| #[trigger] assemble_line(a) == "  assemble "@ + a.name + "  ("@ + decimal(
        a.items.filter(|i: SpecAssembleItem| i is Op).len(),
    ) + " operations)"@ by {
        lemma_operation_count(a.items);
    }
}

proof fn lemma_define_count(s: Seq<SpecTopLevelItem>)
    ensures
        defines_of(s).len() == s.filter(|i: SpecTopLevelItem| i is Define).len(),
    decreases s.len(),
{
    reveal(Seq::filter);
    if s.len() > 0 {
        lemma_define_count(s.drop_last());
    }
}

proof fn lemma_assemble_count(s: Seq<SpecTopLevelItem>)
    ensures
        assemblies_of(s).len() == s.filter(|i: SpecTopLevelItem| i is Assemble).len(),
    decreases s.len(),
{
    reveal(Seq::filter);
    if s.len() > 0 {
        lemma_assemble_count(s.drop_last());
    }
}

proof fn lemma_first_export_exists(s: Seq<SpecTopLevelItem>)
    ensures
        first_export(s) is Some <==> exists|i: int| 0 <= i < s.len() && #[trigger] s[i] is Export,
    decreases s.len(),
{
    if s.len() > 0 {
        lemma_first_export_exists(s.drop_first());
        if first_export(s) is None {
            assert forall|i: int| 0 <= i < s.len() implies !(#[trigger] s[i] is Export) by {
                if i > 0 {
                    assert(s[i] == s.drop_first()[i - 1]);
                }
            }
        } else if !(s[0] is Export) {
            let i = choose|i: int| 0 <= i < s.drop_first().len() && #[trigger] s.drop_first()[i] is Export;
            assert(s[i + 1] is Export);
        }
    }
}

/// The `--validate` report counts the file's blocks: the first line gives the
/// number of `define` blocks, the second the number of `assemble` blocks,
/// and the third says whether there is an `export` block.
pub proof fn lemma_validate_counts(f: SpecPolyhFile)
    ensures
        spec_validate_lines(f).len() == 3,
        spec_validate_lines(f)[0] == "  define blocks  : "@ + decimal(
            f.items.filter(|i: SpecTopLevelItem| i is Define).len(),
        ),
        spec_validate_lines(f)[1] == "  assemble blocks: "@ + decimal(
            f.items.filter(|i: SpecTopLevelItem| i is Assemble).len(),
        ),
        spec_validate_lines(f)[2] == "  export block   : "@ + if exists|i: int|
            0 <= i < f.items.len() && #[trigger] f.items[i] is Export {
            "yes"@
        } else {
            "no"@
        },
{
    lemma_define_count(f.items);
    lemma_assemble_count(f.items);
    lemma_first_export_exists(f.items);
}

// ── `--watch` ─────────────────────────────────────────────────────────────────

/// The path names a `.polyh` file.
pub open spec fn is_polyh_path(p: Seq<char>) -> bool {
    spec_path_extension(p) == Some("polyh"@)
}

/// Some path of a change event names a `.polyh` file.
pub fn touches_polyh_file(paths: &Vec<String>) -> (r: bool)
    ensures
        r == exists|i: int| 0 <= i < paths.len() && is_polyh_path(#[trigger] paths@[i]@),
{
    let mut i: usize = 0;
    while i < paths.len()
        invariant
            i <= paths.len(),
            forall|k: int| 0 <= k < i ==> !is_polyh_path(#[trigger] paths@[k]@),
        decreases paths.len() - i,
    {
        if let Some(e) = path_extension(paths[i].as_str()) {
            let cs = chars_of(e.as_str());
            if vec_eq_str(&cs, "polyh") {
                return true;
            }
        }
        i = i + 1;
    }
    false
}

/// Watch mode recompiles on a change to a `.polyh` file that comes more than
/// 200 ms after the last recompile.
pub fn should_recompile(paths: &Vec<String>, millis_since_last: u128) -> (r: bool)
    ensures
        r == ((exists|i: int| 0 <= i < paths.len() && is_polyh_path(#[trigger] paths@[i]@))
            && millis_since_last > 200),
{
    touches_polyh_file(paths) && millis_since_last > 200
}

} // verus!

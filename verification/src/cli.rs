//! Decisions of the command-line compiler: quality presets and the list of
//! output formats.

use vstd::prelude::*;
use crate::export::{ExportFormat, format_named};
use crate::text::{chars_of, lower, lower_chars_of, push_char, string_of_vec, vec_eq_str};

verus! {

/// Mesh quality preset (controls voxel resolution).
#[derive(Debug, Clone, Copy, PartialEq, Eq, Structural)]
pub enum Quality {
    /// Fast preview — 32 voxels per axis.
    Low,
    /// Balanced quality — 64 voxels per axis (default).
    Medium,
    /// High quality — 128 voxels per axis.
    High,
    /// Ultra — 256 voxels per axis.
    Ultra,
}

impl Quality {
    pub open spec fn spec_resolution(self) -> u32 {
        match self {
            Quality::Low => 32,
            Quality::Medium => 64,
            Quality::High => 128,
            Quality::Ultra => 256,
        }
    }

    /// Voxels per axis of the preset.
    pub fn resolution(&self) -> (r: u32)
        ensures
            r == self.spec_resolution(),
    {
        match self {
            Quality::Low => 32,
            Quality::Medium => 64,
            Quality::High => 128,
            Quality::Ultra => 256,
        }
    }
}

/// The presets double the voxels per axis from one to the next, starting at
/// 32 for a fast preview.
pub proof fn lemma_quality_resolutions()
    ensures
        Quality::Low.spec_resolution() == 32,
        Quality::Medium.spec_resolution() == 2 * Quality::Low.spec_resolution(),
        Quality::High.spec_resolution() == 2 * Quality::Medium.spec_resolution(),
        Quality::Ultra.spec_resolution() == 2 * Quality::High.spec_resolution(),
{
}

/// Unicode `White_Space`, the characters that `str::trim` removes.
pub open spec fn is_white_space(c: char) -> bool {
    ('\u{9}' <= c && c <= '\u{d}') || c == ' ' || c == '\u{85}' || c == '\u{a0}' || c
        == '\u{1680}' || ('\u{2000}' <= c && c <= '\u{200a}') || c == '\u{2028}' || c
        == '\u{2029}' || c == '\u{202f}' || c == '\u{205f}' || c == '\u{3000}'
}

fn white_space(c: char) -> (r: bool)
    ensures
        r == is_white_space(c),
{
    ('\u{9}' <= c && c <= '\u{d}') || c == ' ' || c == '\u{85}' || c == '\u{a0}' || c == '\u{1680}'
        || ('\u{2000}' <= c && c <= '\u{200a}') || c == '\u{2028}' || c == '\u{2029}' || c
        == '\u{202f}' || c == '\u{205f}' || c == '\u{3000}'
}

/// `s` without leading white space.
pub open spec fn trim_start(s: Seq<char>) -> Seq<char>
    decreases s.len(),
{
    if s.len() > 0 && is_white_space(s[0]) {
        trim_start(s.drop_first())
    } else {
        s
    }
}

/// `s` without trailing white space.
pub open spec fn trim_end(s: Seq<char>) -> Seq<char>
    decreases s.len(),
{
    if s.len() > 0 && is_white_space(s.last()) {
        trim_end(s.drop_last())
    } else {
        s
    }
}

/// `s` without leading and trailing white space (`str::trim`).
pub open spec fn trim(s: Seq<char>) -> Seq<char> {
    trim_end(trim_start(s))
}

/// The pieces of `s` between commas (`str::split(',')`); there is always at
/// least one, possibly empty.
pub open spec fn split_commas(s: Seq<char>) -> Seq<Seq<char>>
    decreases s.len(),
{
    if s.len() == 0 {
        seq![Seq::empty()]
    } else if s.last() == ',' {
        split_commas(s.drop_last()).push(Seq::empty())
    } else {
        let p = split_commas(s.drop_last());
        p.update(p.len() - 1, p.last().push(s.last()))
    }
}

/// The formats that the pieces name, blank pieces skipped and repeats
/// dropped; or the first trimmed piece that names no format.
pub open spec fn select_formats(ps: Seq<Seq<char>>) -> Result<Seq<ExportFormat>, Seq<char>>
    decreases ps.len(),
{
    if ps.len() == 0 {
        Ok(Seq::empty())
    } else {
        match select_formats(ps.drop_last()) {
            Err(e) => Err(e),
            Ok(acc) => {
                let t = trim(ps.last());
                if t.len() == 0 {
                    Ok(acc)
                } else {
                    match format_named(lower(t)) {
                        Some(f) => Ok(if acc.contains(f) { acc } else { acc.push(f) }),
                        None => Err(t),
                    }
                }
            },
        }
    }
}

/// All formats, in the order `all` lists them.
pub open spec fn all_formats() -> Seq<ExportFormat> {
    seq![ExportFormat::Stl, ExportFormat::Obj, ExportFormat::Ply, ExportFormat::Glb]
}

/// The formats that an `--output` value asks for, or the message that
/// refuses it.
pub open spec fn spec_resolve_formats(s: Seq<char>) -> Result<Seq<ExportFormat>, Seq<char>> {
    if lower(s) == "all"@ {
        Ok(all_formats())
    } else {
        match select_formats(split_commas(s)) {
            Err(t) => Err("unknown format '"@ + t + "'. Valid: stl, obj, glb, ply, all"@),
            Ok(fs) => if fs.len() == 0 {
                Err("no output formats specified"@)
            } else {
                Ok(fs)
            },
        }
    }
}

fn split_pieces(cs: &Vec<char>) -> (r: Vec<Vec<char>>)
    ensures
        r@.map_values(|v: Vec<char>| v@) == split_commas(cs@),
{
    let mut pieces: Vec<Vec<char>> = Vec::new();
    let mut cur: Vec<char> = Vec::new();
    let mut k: usize = 0;
    assert(cs@.take(0) =~= Seq::<char>::empty());
    while k < cs.len()
        invariant
            k <= cs.len(),
            pieces@.map_values(|v: Vec<char>| v@).push(cur@) == split_commas(cs@.take(k as int)),
        decreases cs.len() - k,
    {
        let ghost before = pieces@.map_values(|v: Vec<char>| v@).push(cur@);
        assert(cs@.take(k + 1).drop_last() =~= cs@.take(k as int));
        assert(cs@.take(k + 1).last() == cs@[k as int]);
        if cs[k] == ',' {
            let done = cur;
            cur = Vec::new();
            let ghost dv = done@;
            pieces.push(done);
            assert(pieces@.map_values(|v: Vec<char>| v@).push(cur@) =~= before.push(
                Seq::empty(),
            ));
        } else {
            cur.push(cs[k]);
            assert(pieces@.map_values(|v: Vec<char>| v@).push(cur@) =~= before.update(
                before.len() - 1,
                before.last().push(cs@[k as int]),
            ));
        }
        k = k + 1;
    }
    assert(cs@.take(cs.len() as int) =~= cs@);
    let ghost before = pieces@.map_values(|v: Vec<char>| v@);
    pieces.push(cur);
    assert(pieces@.map_values(|v: Vec<char>| v@) =~= before.push(cur@));
    pieces
}

fn trimmed(v: &Vec<char>) -> (r: Vec<char>)
    ensures
        r@ == trim(v@),
{
    let mut a: usize = 0;
    assert(v@.skip(0) =~= v@);
    while a < v.len() && white_space(v[a])
        invariant
            a <= v.len(),
            trim_start(v@) == trim_start(v@.skip(a as int)),
        decreases v.len() - a,
    {
        assert(v@.skip(a as int).drop_first() =~= v@.skip(a + 1));
        a = a + 1;
    }
    assert(trim_start(v@.skip(a as int)) == v@.skip(a as int));
    let mut b: usize = v.len();
    while b > a && white_space(v[b - 1])
        invariant
            a <= b <= v.len(),
            trim(v@) == trim_end(v@.subrange(a as int, b as int)),
        decreases b - a,
    {
        assert(v@.subrange(a as int, b as int).drop_last() =~= v@.subrange(a as int, b - 1));
        b = b - 1;
    }
    let mut r: Vec<char> = Vec::new();
    let mut i = a;
    while i < b
        invariant
            a <= i <= b <= v.len(),
            r@ == v@.subrange(a as int, i as int),
        decreases b - i,
    {
        r.push(v[i]);
        assert(r@ =~= v@.subrange(a as int, i + 1));
        i = i + 1;
    }
    proof {
        assert(v@.skip(a as int) =~= v@.subrange(a as int, v.len() as int));
    }
    r
}

fn contains_format(v: &Vec<ExportFormat>, f: ExportFormat) -> (r: bool)
    ensures
        r == v@.contains(f),
{
    let mut i: usize = 0;
    while i < v.len()
        invariant
            i <= v.len(),
            forall|j: int| 0 <= j < i ==> v@[j] != f,
        decreases v.len() - i,
    {
        if v[i] == f {
            return true;
        }
        i = i + 1;
    }
    false
}

/// The formats that an `--output` value asks for: `all` in any case, or a
/// comma-separated list of names in any case, blanks ignored and repeats
/// dropped. An unknown name, or a list without any name, is refused with a
/// message.
pub fn resolve_formats(spec: &str) -> (r: Result<Vec<ExportFormat>, String>)
    ensures
        match spec_resolve_formats(spec@) {
            Ok(fs) => r matches Ok(v) && v@ == fs,
            Err(m) => r matches Err(e) && e@ == m,
        },
{
    let cs = chars_of(spec);
    let l = lower_chars_of(&cs, 0, cs.len());
    assert(cs@.subrange(0, cs.len() as int) =~= cs@);
    if vec_eq_str(&l, "all") {
        let v = vec![ExportFormat::Stl, ExportFormat::Obj, ExportFormat::Ply, ExportFormat::Glb];
        assert(v@ =~= all_formats());
        return Ok(v);
    }
    let pieces = split_pieces(&cs);
    let ghost ps = pieces@.map_values(|v: Vec<char>| v@);
    let mut fmts: Vec<ExportFormat> = Vec::new();
    let mut i: usize = 0;
    assert(ps.take(0) =~= Seq::<Seq<char>>::empty());
    while i < pieces.len()
        invariant
            i <= pieces.len(),
            ps == pieces@.map_values(|v: Vec<char>| v@),
            ps == split_commas(cs@),
            cs@ == spec@,
            lower(spec@) != "all"@,
            select_formats(ps.take(i as int)) == Ok::<Seq<ExportFormat>, Seq<char>>(fmts@),
        decreases pieces.len() - i,
    {
        assert(ps.take(i + 1).drop_last() =~= ps.take(i as int));
        assert(ps.take(i + 1).last() == pieces@[i as int]@);
        let t = trimmed(&pieces[i]);
        if t.len() > 0 {
            let tl = lower_chars_of(&t, 0, t.len());
            assert(t@.subrange(0, t.len() as int) =~= t@);
            let f = if vec_eq_str(&tl, "stl") {
                ExportFormat::Stl
            } else if vec_eq_str(&tl, "obj") {
                ExportFormat::Obj
            } else if vec_eq_str(&tl, "ply") {
                ExportFormat::Ply
            } else if vec_eq_str(&tl, "glb") || vec_eq_str(&tl, "gltf") {
                ExportFormat::Glb
            } else {
                let mut m = "unknown format '".to_owned();
                let ghost m0 = m@;
                let mut k: usize = 0;
                while k < t.len()
                    invariant
                        k <= t.len(),
                        m@ == m0 + t@.take(k as int),
                    decreases t.len() - k,
                {
                    push_char(&mut m, t[k]);
                    assert(m@ =~= m0 + t@.take(k + 1));
                    k = k + 1;
                }
                assert(t@.take(t.len() as int) =~= t@);
                m.append("'. Valid: stl, obj, glb, ply, all");
                proof {
                    assert(format_named(lower(t@)) is None);
                    assert(select_formats(ps.take(i + 1)) == Err::<Seq<ExportFormat>, Seq<char>>(
                        t@,
                    ));
                    lemma_select_error_stays(ps, i as int + 1, t@);
                    assert(select_formats(split_commas(spec@)) == Err::<
                        Seq<ExportFormat>,
                        Seq<char>,
                    >(t@));
                    assert(lower(spec@) != "all"@);
                    assert(m@ == "unknown format '"@ + t@ + "'. Valid: stl, obj, glb, ply, all"@);
                }
                return Err(m);
            };
            if !contains_format(&fmts, f) {
                fmts.push(f);
            }
        }
        i = i + 1;
    }
    assert(ps.take(ps.len() as int) =~= ps);
    if fmts.len() == 0 {
        return Err("no output formats specified".to_owned());
    }
    Ok(fmts)
}

/// A resolved list of formats is never empty and names no format twice.
pub proof fn lemma_resolved_formats_distinct(s: Seq<char>)
    ensures
        spec_resolve_formats(s) matches Ok(fs) ==> fs.len() > 0 && fs.no_duplicates(),
{
    if lower(s) != "all"@ {
        lemma_select_distinct(split_commas(s));
    }
}

proof fn lemma_select_distinct(ps: Seq<Seq<char>>)
    ensures
        select_formats(ps) matches Ok(fs) ==> fs.no_duplicates(),
    decreases ps.len(),
{
    if ps.len() > 0 {
        lemma_select_distinct(ps.drop_last());
    }
}

/// A failure in a prefix of the pieces is the failure of the whole list.
proof fn lemma_select_error_stays(ps: Seq<Seq<char>>, k: int, e: Seq<char>)
    requires
        0 <= k <= ps.len(),
        select_formats(ps.take(k)) == Err::<Seq<ExportFormat>, Seq<char>>(e),
    ensures
        select_formats(ps) == Err::<Seq<ExportFormat>, Seq<char>>(e),
    decreases ps.len() - k,
{
    if k < ps.len() {
        assert(ps.take(k + 1).drop_last() =~= ps.take(k));
        lemma_select_error_stays(ps, k + 1, e);
    } else {
        assert(ps.take(k) =~= ps);
    }
}

} // verus!

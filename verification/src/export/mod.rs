//! Export formats of meshes.
//!
//! | Format | Ext   | Encoding         |
//! |--------|-------|------------------|
//! | STL    | `.stl`| binary LE        |
//! | OBJ    | `.obj`| UTF-8 text       |
//! | PLY    | `.ply`| binary LE        |
//! | GLB    | `.glb`| binary GLTF 2.0  |

pub mod gltf;

use vstd::prelude::*;
use crate::error::PolyhedraError;
use crate::text::{chars_of, lower, lower_chars_of, string_of_vec, vec_eq_str};

verus! {

/// Supported export formats.
#[derive(Debug, Clone, Copy, PartialEq, Eq, Hash, Structural)]
pub enum ExportFormat {
    Stl,
    Obj,
    Ply,
    Glb,
}

/// The format that a lower-case name stands for (`gltf` is GLB).
pub open spec fn format_named(name: Seq<char>) -> Option<ExportFormat> {
    if name == "stl"@ {
        Some(ExportFormat::Stl)
    } else if name == "obj"@ {
        Some(ExportFormat::Obj)
    } else if name == "ply"@ {
        Some(ExportFormat::Ply)
    } else if name == "glb"@ || name == "gltf"@ {
        Some(ExportFormat::Glb)
    } else {
        None
    }
}

/// The extension of the file name of the path spelled by `path`, without
/// its dot, as `std::path::Path::extension` finds it with the path syntax of
/// the platform the library is built for.
pub uninterp spec fn spec_path_extension(path: Seq<char>) -> Option<Seq<char>>;

/// `Path::extension` of the path spelled by `path`. The contract names its
/// result (`spec_path_extension`, a function of the text alone) and states
/// no more of how `std` splits a path into components.
#[verifier::external_body]
pub(crate) fn path_extension(path: &str) -> (r: Option<String>)
    ensures
        match r {
            Some(e) => spec_path_extension(path@) == Some(e@),
            None => spec_path_extension(path@) is None,
        },
{
    std::path::Path::new(path).extension().and_then(|e| e.to_str()).map(|e| e.to_string())
}

/// A format's canonical extension names it again, in any case.
pub proof fn lemma_extension_round_trip(f: ExportFormat)
    ensures
        format_named(lower(f.spec_extension())) == Some(f),
{
    reveal_strlit("stl");
    reveal_strlit("obj");
    reveal_strlit("ply");
    reveal_strlit("glb");
    reveal_strlit("gltf");
    assert(lower(f.spec_extension()) =~= f.spec_extension());
    assert("stl"@[0] != "obj"@[0] && "stl"@[0] != "ply"@[0] && "stl"@[0] != "glb"@[0]);
    assert("obj"@[0] != "ply"@[0] && "obj"@[0] != "glb"@[0] && "ply"@[0] != "glb"@[0]);
    assert("gltf"@.len() != 3);
}

impl ExportFormat {
    /// Canonical extension of the format, without the leading dot.
    pub open spec fn spec_extension(self) -> Seq<char> {
        match self {
            ExportFormat::Stl => "stl"@,
            ExportFormat::Obj => "obj"@,
            ExportFormat::Ply => "ply"@,
            ExportFormat::Glb => "glb"@,
        }
    }

    /// Canonical file extension (without the leading dot).
    pub fn extension(self) -> (r: &'static str)
        ensures
            r@ == self.spec_extension(),
    {
        match self {
            ExportFormat::Stl => "stl",
            ExportFormat::Obj => "obj",
            ExportFormat::Ply => "ply",
            ExportFormat::Glb => "glb",
        }
    }

    /// The format named by `s` in any ASCII case; an unknown name is an
    /// `UnknownFormat` error that carries it in lower case.
    pub fn from_str(s: &str) -> (r: Result<ExportFormat, PolyhedraError>)
        ensures
            format_named(lower(s@)) matches Some(f) ==> r == Ok::<ExportFormat, PolyhedraError>(f),
            format_named(lower(s@)) is None ==> (r matches Err(PolyhedraError::UnknownFormat {
                format,
            }) && format@ == lower(s@)),
    {
        let cs = chars_of(s);
        let l = lower_chars_of(&cs, 0, cs.len());
        assert(cs@.subrange(0, cs.len() as int) =~= cs@);
        if vec_eq_str(&l, "stl") {
            Ok(ExportFormat::Stl)
        } else if vec_eq_str(&l, "obj") {
            Ok(ExportFormat::Obj)
        } else if vec_eq_str(&l, "ply") {
            Ok(ExportFormat::Ply)
        } else if vec_eq_str(&l, "glb") || vec_eq_str(&l, "gltf") {
            Ok(ExportFormat::Glb)
        } else {
            Err(PolyhedraError::UnknownFormat { format: string_of_vec(&l) })
        }
    }

    /// The format that a file extension names, if any.
    pub fn from_extension(ext: Option<&str>) -> (r: Option<ExportFormat>)
        ensures
            r == match ext {
                Some(e) => format_named(lower(e@)),
                None => None,
            },
    {
        match ext {
            Some(e) => match ExportFormat::from_str(e) {
                Ok(f) => Some(f),
                Err(_) => None,
            },
            None => None,
        }
    }

    /// Infers the format from the extension of the path spelled by `path`;
    /// `None` if there is none or it names no format.
    pub fn from_path(path: &str) -> (r: Option<ExportFormat>)
        ensures
            r == match spec_path_extension(path@) {
                Some(e) => format_named(lower(e)),
                None => None,
            },
    {
        match path_extension(path) {
            Some(e) => ExportFormat::from_extension(Some(e.as_str())),
            None => None,
        }
    }
}

/// A mesh is exported only when it has triangles; one with none is an
/// `EmptyMesh` error, whatever the format.
pub fn check_not_empty(triangle_count: usize) -> (r: Result<(), PolyhedraError>)
    ensures
        (r is Err) <==> triangle_count == 0,
        r matches Err(e) ==> e is EmptyMesh,
{
    if triangle_count == 0 {
        Err(PolyhedraError::EmptyMesh)
    } else {
        Ok(())
    }
}

impl std::str::FromStr for ExportFormat {
    type Err = PolyhedraError;

    fn from_str(s: &str) -> (r: Result<ExportFormat, PolyhedraError>)
        ensures
            format_named(lower(s@)) matches Some(f) ==> r == Ok::<ExportFormat, PolyhedraError>(f),
            format_named(lower(s@)) is None ==> (r matches Err(PolyhedraError::UnknownFormat {
                format,
            }) && format@ == lower(s@)),
    {
        ExportFormat::from_str(s)
    }
}

} // verus!

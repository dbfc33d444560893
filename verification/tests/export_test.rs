//! Tests of the export formats.

use polyhedra::error::PolyhedraError;
use polyhedra::export::{ExportFormat, check_not_empty};
use std::str::FromStr;

#[test]
fn format_from_str_all_variants() {
    assert_eq!(ExportFormat::from_str("stl").unwrap(), ExportFormat::Stl);
    assert_eq!(ExportFormat::from_str("STL").unwrap(), ExportFormat::Stl);
    assert_eq!(ExportFormat::from_str("obj").unwrap(), ExportFormat::Obj);
    assert_eq!(ExportFormat::from_str("ply").unwrap(), ExportFormat::Ply);
    assert_eq!(ExportFormat::from_str("glb").unwrap(), ExportFormat::Glb);
    assert_eq!(ExportFormat::from_str("gltf").unwrap(), ExportFormat::Glb);
}

#[test]
fn format_from_str_unknown_is_err() {
    assert!(ExportFormat::from_str("fbx").is_err());
    assert!(ExportFormat::from_str("").is_err());
}

#[test]
fn format_from_path() {
    assert_eq!(ExportFormat::from_path("out.stl"), Some(ExportFormat::Stl));
    assert_eq!(ExportFormat::from_path("out.obj"), Some(ExportFormat::Obj));
    assert_eq!(ExportFormat::from_path("out.ply"), Some(ExportFormat::Ply));
    assert_eq!(ExportFormat::from_path("out.glb"), Some(ExportFormat::Glb));
    assert_eq!(ExportFormat::from_path("out.xyz"), None);
}

#[test]
fn format_extensions() {
    assert_eq!(ExportFormat::Stl.extension(), "stl");
    assert_eq!(ExportFormat::Obj.extension(), "obj");
    assert_eq!(ExportFormat::Ply.extension(), "ply");
    assert_eq!(ExportFormat::Glb.extension(), "glb");
}

#[test]
fn unknown_format_carries_lower_case_name() {
    match ExportFormat::from_str("FBX") {
        Err(PolyhedraError::UnknownFormat { format }) => assert_eq!(format, "fbx"),
        other => panic!("expected UnknownFormat, got {other:?}"),
    }
}

#[test]
fn from_path_uses_the_last_extension_in_any_case() {
    assert_eq!(ExportFormat::from_path("dir/part.v2.GLTF"), Some(ExportFormat::Glb));
    assert_eq!(ExportFormat::from_path("dir.stl/part"), None);
    assert_eq!(ExportFormat::from_path(".stl"), None);
    assert_eq!(ExportFormat::from_extension(Some("Obj")), Some(ExportFormat::Obj));
    assert_eq!(ExportFormat::from_extension(None), None);
}

#[test]
fn empty_mesh_returns_error() {
    let empty_triangles: Vec<[u32; 3]> = vec![];
    for fmt in [ExportFormat::Stl, ExportFormat::Obj, ExportFormat::Ply, ExportFormat::Glb] {
        assert!(
            check_not_empty(empty_triangles.len()).is_err(),
            "{fmt:?} should error on empty mesh"
        );
    }
    assert!(matches!(check_not_empty(0), Err(PolyhedraError::EmptyMesh)));
    assert!(check_not_empty(1).is_ok());
}

//! Tests of the command-line decisions.

use polyhedra::cli::{Quality, resolve_formats};
use polyhedra::export::ExportFormat;

#[test]
fn quality_resolutions() {
    assert_eq!(Quality::Low.resolution(), 32);
    assert_eq!(Quality::Medium.resolution(), 64);
    assert_eq!(Quality::High.resolution(), 128);
    assert_eq!(Quality::Ultra.resolution(), 256);
}

#[test]
fn all_alias_gives_every_format() {
    assert_eq!(
        resolve_formats("ALL").unwrap(),
        vec![ExportFormat::Stl, ExportFormat::Obj, ExportFormat::Ply, ExportFormat::Glb]
    );
}

#[test]
fn list_is_trimmed_deduplicated_and_ordered() {
    assert_eq!(
        resolve_formats(" stl , glb,,STL, gltf ").unwrap(),
        vec![ExportFormat::Stl, ExportFormat::Glb]
    );
}

#[test]
fn unknown_format_is_refused() {
    assert_eq!(
        resolve_formats("stl, fbx").unwrap_err(),
        "unknown format 'fbx'. Valid: stl, obj, glb, ply, all"
    );
}

#[test]
fn empty_list_is_refused() {
    assert_eq!(resolve_formats(" , ").unwrap_err(), "no output formats specified");
    assert_eq!(resolve_formats("").unwrap_err(), "no output formats specified");
}

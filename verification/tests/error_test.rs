//! Tests of the error sentences.

use polyhedra::error::PolyhedraError;

#[test]
fn parse_error_sentence() {
    let e = PolyhedraError::ParseError { line: 12, col: 7, message: "expected 'end'".into() };
    assert_eq!(e.message(), "Syntax error on line 12, column 7: expected 'end'");
}

#[test]
fn simple_sentences() {
    assert_eq!(
        PolyhedraError::EmptyMesh.message(),
        "The geometry produced an empty mesh. Check that objects actually overlap or that dimensions are not zero."
    );
    assert_eq!(
        PolyhedraError::UnknownFormat { format: "fbx".into() }.message(),
        "Unknown export format 'fbx'. Supported formats: stl, obj, gltf, ply, all."
    );
    assert_eq!(
        PolyhedraError::UndefinedVariable { name: "w".into(), line: 3 }.message(),
        "Variable 'w' is used on line 3 but was never defined. Add \"let w = <value>\" before using it."
    );
    assert_eq!(
        PolyhedraError::GeometryError { message: "boom".into() }.message(),
        "Geometry error: boom"
    );
}

use polyhedra::error::PolyhedraError;
use polyhedra::shape_type::ShapeType;

#[test]
fn round_trip_all_variants() {
    let variants = [
        (0, ShapeType::Cube),
        (1, ShapeType::Cylinder),
        (2, ShapeType::Sphere),
        (3, ShapeType::Cone),
        (4, ShapeType::Torus),
        (5, ShapeType::Pyramid),
        (6, ShapeType::Prism),
    ];
    for (id, expected) in variants {
        let got = ShapeType::try_from(id).expect("known id should convert");
        assert_eq!(got, expected);
    }
}

#[test]
fn unknown_id_returns_error() {
    assert!(ShapeType::try_from(99).is_err());
}

#[test]
fn shape_type_cube_id_is_zero() {
    assert_eq!(ShapeType::try_from(0u32).unwrap(), ShapeType::Cube);
}

#[test]
fn shape_type_all_ids_convert() {
    for id in 0u32..=6 {
        assert!(ShapeType::try_from(id).is_ok(), "id {id} should be a valid ShapeType");
    }
}

#[test]
fn shape_type_unknown_id_errors() {
    assert!(ShapeType::try_from(99u32).is_err());
}

#[test]
fn shape_type_cylinder_id_is_one() {
    assert_eq!(ShapeType::try_from(1u32).unwrap(), ShapeType::Cylinder);
}

#[test]
fn shape_type_prism_id_is_six() {
    assert_eq!(ShapeType::try_from(6u32).unwrap(), ShapeType::Prism);
}

#[test]
fn shape_type_pyramid_id_is_five() {
    assert_eq!(ShapeType::try_from(5u32).unwrap(), ShapeType::Pyramid);
}

#[test]
fn shape_type_sphere_id_is_two() {
    assert_eq!(ShapeType::try_from(2u32).unwrap(), ShapeType::Sphere);
}

#[test]
fn unknown_id_error_names_the_id() {
    match ShapeType::try_from(12345u32) {
        Err(PolyhedraError::GeometryError { message }) => {
            assert_eq!(message, "unknown shape type id: 12345");
        }
        other => panic!("expected a geometry error, got {other:?}"),
    }
}

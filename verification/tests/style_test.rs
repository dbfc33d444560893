//! Tests of style presets.

use polyhedra::eval::{Length, PrimitivePlan, SdfPlan, eval_define};
use polyhedra::parser::ast::{Decimal, DefineBlock, DefineItem, PrimKind, PrimitiveBlock, Prop};
use polyhedra::style::style_defaults;

fn d(mantissa: i64, scale: i64) -> Decimal {
    Decimal { mantissa, scale }
}

fn mm(v: Decimal) -> Length {
    Length { value: v, scale: d(1, 0) }
}

fn block(kind: PrimKind, style: Option<&str>, props: Vec<Prop>) -> DefineBlock {
    DefineBlock {
        name: "part".to_string(),
        items: vec![DefineItem::Primitive(PrimitiveBlock {
            kind,
            units: None,
            props,
            moves: vec![],
            style: style.map(|s| s.to_string()),
        })],
    }
}

#[test]
fn preset_tables() {
    assert_eq!(
        style_defaults(PrimKind::Cube, "plate"),
        vec![("width", d(100, 0)), ("depth", d(100, 0)), ("height", d(5, 0))]
    );
    assert_eq!(
        style_defaults(PrimKind::Cube, "shim"),
        vec![("width", d(30, 0)), ("depth", d(30, 0)), ("height", d(5, 1))]
    );
    assert_eq!(style_defaults(PrimKind::Torus, "o_ring"), vec![("major", d(15, 0)), ("minor", d(15, 1))]);
    assert_eq!(
        style_defaults(PrimKind::Prism, "allen_key"),
        vec![("sides", d(6, 0)), ("flat_to_flat", d(5, 0)), ("height", d(60, 0))]
    );
    assert!(style_defaults(PrimKind::Sphere, "plate").is_empty());
    assert!(style_defaults(PrimKind::Cube, "Plate").is_empty());
}

#[test]
fn written_properties_come_before_presets() {
    let b = block(PrimKind::Cube, Some("plate"), vec![Prop { key: "width".to_string(), value: d(7, 0) }]);
    assert_eq!(
        eval_define(&b, d(1, 0)).unwrap(),
        SdfPlan::Primitive(PrimitivePlan::Cube {
            width: mm(d(7, 0)),
            depth: mm(d(100, 0)),
            height: mm(d(5, 0)),
        })
    );
}

#[test]
fn presets_come_before_defaults() {
    let b = block(PrimKind::Cone, Some("frustum"), vec![]);
    assert_eq!(
        eval_define(&b, d(1, 0)).unwrap(),
        SdfPlan::Primitive(PrimitivePlan::Cone {
            base_radius: mm(d(20, 0)),
            top_radius: mm(d(12, 0)),
            height: mm(d(25, 0)),
        })
    );
    let b = block(PrimKind::Prism, Some("octagon"), vec![Prop { key: "n".to_string(), value: d(9, 0) }]);
    assert_eq!(
        eval_define(&b, d(10, 0)).unwrap(),
        SdfPlan::Primitive(PrimitivePlan::Prism {
            sides: d(9, 0),
            flat_to_flat: Length { value: d(20, 0), scale: d(10, 0) },
            height: Length { value: d(25, 0), scale: d(10, 0) },
        })
    );
    let b = block(PrimKind::Sphere, Some("unknown_style"), vec![]);
    assert_eq!(
        eval_define(&b, d(1, 0)).unwrap(),
        SdfPlan::Primitive(PrimitivePlan::Sphere { radius: mm(d(5, 0)) })
    );
}

//! Tests of the evaluation of syntax trees into shape plans.

use polyhedra::error::PolyhedraError;
use polyhedra::eval::{
    Length, PrimitivePlan, SdfPlan, eval_assemble, eval_define, eval_file_first_assemble,
    eval_file_first_define,
};
use polyhedra::parser::ast::{Axis, Decimal, DefineBlock, Position};
use polyhedra::parser::parse_str;

fn d(mantissa: i64, scale: i64) -> Decimal {
    Decimal { mantissa, scale }
}

fn mm(v: Decimal) -> Length {
    Length { value: v, scale: d(1, 0) }
}

fn geometry_message<T: std::fmt::Debug>(r: Result<T, PolyhedraError>) -> String {
    match r {
        Err(PolyhedraError::GeometryError { message }) => message,
        other => panic!("expected a geometry error, got {other:?}"),
    }
}

#[test]
fn cube_defaults_depth_and_height_to_width() {
    let f = parse_str("define b\n  cube\n    width 12\n  end\nend").unwrap();
    let plan = eval_file_first_define(&f).unwrap();
    assert_eq!(
        plan,
        SdfPlan::Primitive(PrimitivePlan::Cube {
            width: mm(d(12, 0)),
            depth: mm(d(12, 0)),
            height: mm(d(12, 0)),
        })
    );
}

#[test]
fn units_scale_every_length_and_move() {
    let f = parse_str("define b\n  units cm\n  sphere\n    radius 2.5\n    move z -1\n  end\nend")
        .unwrap();
    let plan = eval_file_first_define(&f).unwrap();
    let cm = d(10, 0);
    assert_eq!(
        plan,
        SdfPlan::Move {
            inner: Box::new(SdfPlan::Primitive(PrimitivePlan::Sphere {
                radius: Length { value: d(25, 1), scale: cm },
            })),
            axis: Axis::Z,
            by: Length { value: d(-1, 0), scale: cm },
        }
    );
}

#[test]
fn primitive_units_override_block_units() {
    let f = parse_str("define b\n  units cm\n  cylinder\n    units in\n  end\nend").unwrap();
    let plan = eval_file_first_define(&f).unwrap();
    let inch = d(254, 1);
    assert_eq!(
        plan,
        SdfPlan::Primitive(PrimitivePlan::Cylinder {
            radius: Length { value: d(5, 0), scale: inch },
            height: Length { value: d(10, 0), scale: inch },
        })
    );
}

#[test]
fn alternative_keys_and_first_property_wins() {
    let src = "define c\n  cone\n    radius 4\n    base_radius 7\n    top 1\n  end\nend";
    let f = parse_str(src).unwrap();
    let plan = eval_file_first_define(&f).unwrap();
    assert_eq!(
        plan,
        SdfPlan::Primitive(PrimitivePlan::Cone {
            base_radius: mm(d(4, 0)),
            top_radius: mm(d(1, 0)),
            height: mm(d(10, 0)),
        })
    );
}

#[test]
fn prism_sides_and_pyramid_base() {
    let f = parse_str("define p\n  prism\n    n 8\n  end\n  pyramid\n    base 6\n  end\nend")
        .unwrap();
    let plan = eval_file_first_define(&f).unwrap();
    assert_eq!(
        plan,
        SdfPlan::Union(
            Box::new(SdfPlan::Primitive(PrimitivePlan::Prism {
                sides: d(8, 0),
                flat_to_flat: mm(d(10, 0)),
                height: mm(d(10, 0)),
            })),
            Box::new(SdfPlan::Primitive(PrimitivePlan::Pyramid {
                base_width: mm(d(6, 0)),
                base_depth: mm(d(6, 0)),
                height: mm(d(10, 0)),
            })),
        )
    );
}

#[test]
fn manipulations_apply_in_order() {
    let src = "define x\n  torus\n  end\n  fillet 1\n  thread 6\n  shell 2\n  hole 3\nend";
    let f = parse_str(src).unwrap();
    let plan = eval_file_first_define(&f).unwrap();
    let torus = SdfPlan::Primitive(PrimitivePlan::Torus {
        major: mm(d(10, 0)),
        minor: mm(d(2, 0)),
    });
    let expected = SdfPlan::Hole {
        inner: Box::new(SdfPlan::Shell {
            inner: Box::new(SdfPlan::Offset { inner: Box::new(torus), by: mm(d(1, 0)) }),
            thickness: mm(d(2, 0)),
        }),
        diameter: mm(d(3, 0)),
    };
    assert_eq!(plan, expected);
}

#[test]
fn define_without_primitive_is_error() {
    let f = parse_str("define empty\n  chamfer 1\nend").unwrap();
    assert_eq!(
        geometry_message(eval_file_first_define(&f)),
        "define 'empty' has no primitive — expected cube/sphere/cylinder/…"
    );
}

#[test]
fn file_without_blocks_is_error() {
    let f = parse_str("use other").unwrap();
    assert_eq!(geometry_message(eval_file_first_define(&f)), "file contains no 'define' block");
    assert_eq!(
        geometry_message(eval_file_first_assemble(&f)),
        "file contains no 'assemble' block"
    );
}

#[test]
fn assemble_combines_in_order_and_places() {
    let src = "define a\n  sphere\n  end\nend\ndefine b\n  cube\n  end\nend\n\
               assemble w\n  units cm\n  place a at origin\n  cut b at (1, 0, 0)\n  intersect a at origin\nend";
    let f = parse_str(src).unwrap();
    let plan = eval_file_first_assemble(&f).unwrap();
    let cm = d(10, 0);
    let sphere = SdfPlan::Primitive(PrimitivePlan::Sphere {
        radius: Length { value: d(5, 0), scale: cm },
    });
    let cube = SdfPlan::Primitive(PrimitivePlan::Cube {
        width: Length { value: d(10, 0), scale: cm },
        depth: Length { value: d(10, 0), scale: cm },
        height: Length { value: d(10, 0), scale: cm },
    });
    let place = |inner: SdfPlan, at: Position| SdfPlan::Place { inner: Box::new(inner), at, scale: cm };
    let sphere2 = SdfPlan::Primitive(PrimitivePlan::Sphere {
        radius: Length { value: d(5, 0), scale: cm },
    });
    let expected = SdfPlan::Intersection(
        Box::new(SdfPlan::Difference(
            Box::new(place(sphere, Position::Origin)),
            Box::new(place(cube, Position::Coords(d(1, 0), d(0, 0), d(0, 0)))),
        )),
        Box::new(place(sphere2, Position::Origin)),
    );
    assert_eq!(plan, expected);
}

#[test]
fn later_definitions_hide_earlier_ones() {
    let src = "define a\n  sphere\n  end\nend\ndefine a\n  cube\n  end\nend\nassemble w\n  join a at origin\nend";
    let f = parse_str(src).unwrap();
    let plan = eval_file_first_assemble(&f).unwrap();
    match plan {
        SdfPlan::Place { inner, .. } => {
            assert!(matches!(*inner, SdfPlan::Primitive(PrimitivePlan::Cube { .. })))
        }
        other => panic!("unexpected plan {other:?}"),
    }
}

#[test]
fn assemble_errors() {
    let f = parse_str("assemble w\n  place ghost at origin\nend").unwrap();
    assert_eq!(
        geometry_message(eval_file_first_assemble(&f)),
        "assemble 'w': object 'ghost' is not defined"
    );
    let f = parse_str("assemble w\n  chamfer 1\nend").unwrap();
    assert_eq!(geometry_message(eval_file_first_assemble(&f)), "assemble 'w' has no operations");
    let f = parse_str("define e\nend\nassemble w\n  place e at origin\nend").unwrap();
    assert_eq!(
        geometry_message(eval_file_first_assemble(&f)),
        "define 'e' has no primitive — expected cube/sphere/cylinder/…"
    );
}

#[test]
fn eval_define_uses_parent_scale() {
    let f = parse_str("define a\n  sphere\n    radius 1\n  end\nend").unwrap();
    let def: &DefineBlock = f.defines().next().unwrap();
    let plan = eval_define(def, d(3048, 1)).unwrap();
    assert_eq!(
        plan,
        SdfPlan::Primitive(PrimitivePlan::Sphere {
            radius: Length { value: d(1, 0), scale: d(3048, 1) },
        })
    );
    let asm_file = parse_str("assemble w\n  place a at origin\nend").unwrap();
    let block = asm_file.assemblies().next().unwrap();
    let defs: Vec<&DefineBlock> = f.defines().collect();
    let plan = eval_assemble(block, &defs, d(10, 0)).unwrap();
    assert!(matches!(plan, SdfPlan::Place { .. }));
}

#[test]
fn units_statements_ignore_the_outer_scale() {
    let f = parse_str("define a\n  units m\n  sphere\n    units in\n  end\n  cube\n  end\nend")
        .unwrap();
    let def: &DefineBlock = f.defines().next().unwrap();
    let in_mm = eval_define(def, d(1, 0)).unwrap();
    let in_feet = eval_define(def, d(3048, 1)).unwrap();
    assert_eq!(in_mm, in_feet);
    assert_eq!(
        in_mm,
        SdfPlan::Union(
            Box::new(SdfPlan::Primitive(PrimitivePlan::Sphere {
                radius: Length { value: d(5, 0), scale: d(254, 1) },
            })),
            Box::new(SdfPlan::Primitive(PrimitivePlan::Cube {
                width: Length { value: d(10, 0), scale: d(1000, 0) },
                depth: Length { value: d(10, 0), scale: d(1000, 0) },
                height: Length { value: d(10, 0), scale: d(1000, 0) },
            })),
        )
    );
    let asm_file = parse_str("assemble w\n  units cm\n  place a at origin\nend").unwrap();
    let block = asm_file.assemblies().next().unwrap();
    let defs: Vec<&DefineBlock> = f.defines().collect();
    assert_eq!(
        eval_assemble(block, &defs, d(1, 0)).unwrap(),
        eval_assemble(block, &defs, d(254, 1)).unwrap()
    );
}

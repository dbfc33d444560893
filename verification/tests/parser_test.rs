//! Integration tests for the `.polyh` parser: each test feeds a source text
//! to `parse_str` and inspects the syntax tree.

use polyhedra::error::PolyhedraError;
use polyhedra::parser::ast::{
    AssembleItem, AssembleOp, Axis, Decimal, DefineItem, Direction, Manipulation, MoveStmt,
    Position, PrimKind, Prop, Quality, TopLevelItem, Unit,
};
use polyhedra::parser::parse_str;

fn whole(n: i64) -> Decimal {
    Decimal { mantissa: n, scale: 0 }
}

fn dec(mantissa: i64, scale: i64) -> Decimal {
    Decimal { mantissa, scale }
}

// ── Trivial ────────────────────────────────────────────────────────────────────

#[test]
fn empty_file_is_ok() {
    let f = parse_str("").unwrap();
    assert!(f.items.is_empty());
}

#[test]
fn comments_only_is_ok() {
    let src = "# this is a comment\n# another one\n";
    let f = parse_str(src).unwrap();
    assert!(f.items.is_empty());
}

// ── use statement ──────────────────────────────────────────────────────────────

#[test]
fn use_stmt_parsed() {
    let f = parse_str("use hello").unwrap();
    assert_eq!(f.items, vec![TopLevelItem::Use("hello".into())]);
}

#[test]
fn multiple_use_stmts() {
    let f = parse_str("use a\nuse b\nuse c").unwrap();
    assert_eq!(f.items.len(), 3);
}

// ── define block — primitives ──────────────────────────────────────────────────

#[test]
fn define_cube_basic() {
    let src = r#"
define box
  cube
    width 10
    depth 5
    height 3
  end
end
"#;
    let f = parse_str(src).unwrap();
    let def = f.defines().next().expect("no define block");
    assert_eq!(def.name, "box");
    assert_eq!(def.items.len(), 1);
    if let DefineItem::Primitive(p) = &def.items[0] {
        assert_eq!(p.kind, PrimKind::Cube);
        assert_eq!(p.props.len(), 3);
        assert_eq!(p.props[0], Prop { key: "width".into(), value: whole(10) });
        assert_eq!(p.props[1], Prop { key: "depth".into(), value: whole(5) });
        assert_eq!(p.props[2], Prop { key: "height".into(), value: whole(3) });
    } else {
        panic!("expected Primitive item");
    }
}

#[test]
fn define_sphere_with_units() {
    let src = r#"
define ball
  sphere
    units mm
    radius 7.5
  end
end
"#;
    let f = parse_str(src).unwrap();
    let def = f.defines().next().unwrap();
    if let DefineItem::Primitive(p) = &def.items[0] {
        assert_eq!(p.kind, PrimKind::Sphere);
        assert_eq!(p.units, Some(Unit::Mm));
        assert_eq!(p.props[0].value, dec(75, 1));
    } else {
        panic!("expected Primitive");
    }
}

#[test]
fn define_cylinder() {
    let src = "define cyl\n  cylinder\n    radius 3\n    height 20\n  end\nend";
    let f = parse_str(src).unwrap();
    let def = f.defines().next().unwrap();
    if let DefineItem::Primitive(p) = &def.items[0] {
        assert_eq!(p.kind, PrimKind::Cylinder);
        assert_eq!(p.props.len(), 2);
    } else {
        panic!()
    }
}

#[test]
fn define_cone() {
    let src = "define c\n  cone\n    radius 4\n    height 10\n  end\nend";
    let f = parse_str(src).unwrap();
    let def = f.defines().next().unwrap();
    if let DefineItem::Primitive(p) = &def.items[0] {
        assert_eq!(p.kind, PrimKind::Cone);
    } else {
        panic!()
    }
}

#[test]
fn define_torus() {
    let src = "define t\n  torus\n    major 10\n    minor 2\n  end\nend";
    let f = parse_str(src).unwrap();
    let def = f.defines().next().unwrap();
    if let DefineItem::Primitive(p) = &def.items[0] {
        assert_eq!(p.kind, PrimKind::Torus);
        assert_eq!(p.props[0].key, "major");
    } else {
        panic!()
    }
}

#[test]
fn define_pyramid() {
    let src = "define py\n  pyramid\n    base 6\n    height 12\n  end\nend";
    let f = parse_str(src).unwrap();
    let def = f.defines().next().unwrap();
    if let DefineItem::Primitive(p) = &def.items[0] {
        assert_eq!(p.kind, PrimKind::Pyramid);
    } else {
        panic!()
    }
}

#[test]
fn define_prism() {
    let src = "define pr\n  prism\n    sides 6\n    radius 5\n    height 8\n  end\nend";
    let f = parse_str(src).unwrap();
    let def = f.defines().next().unwrap();
    if let DefineItem::Primitive(p) = &def.items[0] {
        assert_eq!(p.kind, PrimKind::Prism);
        assert_eq!(p.props[0], Prop { key: "sides".into(), value: whole(6) });
    } else {
        panic!()
    }
}

// ── move statements ────────────────────────────────────────────────────────────

#[test]
fn primitive_with_move() {
    let src = r#"
define part
  cube
    width 10
    move x 5
    move z -3
  end
end
"#;
    let f = parse_str(src).unwrap();
    let def = f.defines().next().unwrap();
    if let DefineItem::Primitive(p) = &def.items[0] {
        assert_eq!(p.moves.len(), 2);
        assert_eq!(p.moves[0], MoveStmt { axis: Axis::X, value: whole(5) });
        assert_eq!(p.moves[1], MoveStmt { axis: Axis::Z, value: whole(-3) });
    } else {
        panic!()
    }
}

// ── Manipulations ──────────────────────────────────────────────────────────────

#[test]
fn chamfer_manipulation() {
    let src = "define x\n  cube\n    width 10\n  end\n  chamfer 1.5\nend";
    let f = parse_str(src).unwrap();
    let def = f.defines().next().unwrap();
    assert_eq!(def.items.len(), 2);
    assert_eq!(def.items[1], DefineItem::Manip(Manipulation::Chamfer(dec(15, 1))));
}

#[test]
fn fillet_manipulation() {
    let src = "define x\n  sphere\n    radius 5\n  end\n  fillet 0.5\nend";
    let f = parse_str(src).unwrap();
    let def = f.defines().next().unwrap();
    assert_eq!(def.items[1], DefineItem::Manip(Manipulation::Fillet(dec(5, 1))));
}

#[test]
fn shell_manipulation() {
    let src = "define box_shell\n  cube\n    width 20\n  end\n  shell 2\nend";
    let f = parse_str(src).unwrap();
    let def = f.defines().next().unwrap();
    assert_eq!(def.items[1], DefineItem::Manip(Manipulation::Shell(whole(2))));
}

#[test]
fn hole_manipulation_with_depth() {
    let src = "define x\n  cube\n    width 10\n  end\n  hole 3.2 15\nend";
    let f = parse_str(src).unwrap();
    let def = f.defines().next().unwrap();
    assert_eq!(
        def.items[1],
        DefineItem::Manip(Manipulation::Hole { diameter: dec(32, 1), depth: Some(whole(15)) })
    );
}

#[test]
fn hole_manipulation_without_depth() {
    let src = "define x\n  cube\n    width 10\n  end\n  hole 3.2\nend";
    let f = parse_str(src).unwrap();
    let def = f.defines().next().unwrap();
    assert_eq!(
        def.items[1],
        DefineItem::Manip(Manipulation::Hole { diameter: dec(32, 1), depth: None })
    );
}

// ── assemble block ─────────────────────────────────────────────────────────────

#[test]
fn assemble_place_at_origin() {
    let src = r#"
assemble widget
  place base at origin
end
"#;
    let f = parse_str(src).unwrap();
    let block = f.assemblies().next().unwrap();
    assert_eq!(block.name, "widget");
    assert_eq!(block.items.len(), 1);
    if let AssembleItem::Op(AssembleOp::Place { name, at }) = &block.items[0] {
        assert_eq!(name, "base");
        assert_eq!(*at, Position::Origin);
    } else {
        panic!("expected Place op");
    }
}

#[test]
fn assemble_place_at_coords() {
    let src = "assemble a\n  place part at (1, 2, 3)\nend";
    let f = parse_str(src).unwrap();
    let block = f.assemblies().next().unwrap();
    if let AssembleItem::Op(AssembleOp::Place { at, .. }) = &block.items[0] {
        assert_eq!(*at, Position::Coords(whole(1), whole(2), whole(3)));
    } else {
        panic!()
    }
}

#[test]
fn assemble_cut_with_pointing() {
    let src = r#"
assemble drilled
  place block at origin
  cut hole at (0, 0, 0) pointing up
end
"#;
    let f = parse_str(src).unwrap();
    let block = f.assemblies().next().unwrap();
    if let AssembleItem::Op(AssembleOp::Cut { name, at, pointing }) = &block.items[1] {
        assert_eq!(name, "hole");
        assert_eq!(*at, Position::Coords(whole(0), whole(0), whole(0)));
        assert_eq!(*pointing, Some(Direction::Up));
    } else {
        panic!("expected Cut op");
    }
}

#[test]
fn assemble_cut_without_pointing() {
    let src = "assemble a\n  place b at origin\n  cut c at origin\nend";
    let f = parse_str(src).unwrap();
    let block = f.assemblies().next().unwrap();
    if let AssembleItem::Op(AssembleOp::Cut { pointing, .. }) = &block.items[1] {
        assert_eq!(*pointing, None);
    } else {
        panic!()
    }
}

#[test]
fn assemble_join() {
    let src = "assemble a\n  place b at origin\n  join c at (5, 0, 0)\nend";
    let f = parse_str(src).unwrap();
    let block = f.assemblies().next().unwrap();
    assert!(matches!(block.items[1], AssembleItem::Op(AssembleOp::Join { .. })));
}

// ── export block ───────────────────────────────────────────────────────────────

#[test]
fn export_block_all_fields() {
    let src = r#"
export
  format stl
  quality high
  file out.stl
end
"#;
    let f = parse_str(src).unwrap();
    let exp = f.export().expect("no export block");
    assert_eq!(exp.format.as_deref(), Some("stl"));
    assert_eq!(exp.quality, Some(Quality::High));
    assert!(exp.file.as_deref().unwrap().contains("out"));
}

#[test]
fn export_block_format_only() {
    let src = "export\n  format obj\nend";
    let f = parse_str(src).unwrap();
    let exp = f.export().unwrap();
    assert_eq!(exp.format.as_deref(), Some("obj"));
    assert_eq!(exp.quality, None);
    assert_eq!(exp.file, None);
}

// ── Negative cases ─────────────────────────────────────────────────────────────

#[test]
fn unknown_top_level_is_err() {
    let result = parse_str("foobar 42");
    assert!(result.is_err(), "unknown keyword should fail parsing");
}

#[test]
fn unterminated_define_is_err() {
    let result = parse_str("define foo\n  cube\n    width 10\n  end\n");
    // Missing final `end` for the define block
    assert!(result.is_err(), "unterminated define should fail");
}

// ── Combined file ──────────────────────────────────────────────────────────────

#[test]
fn combined_define_and_assemble() {
    let src = r#"
define bracket
  units mm
  cube
    width 60
    depth 40
    height 5
  end
  chamfer 1.5
end

assemble bracket_asm
  place bracket at origin
end

export
  format stl
  quality high
  file bracket.stl
end
"#;
    let f = parse_str(src).unwrap();
    assert_eq!(f.items.len(), 3);
    assert!(matches!(f.items[0], TopLevelItem::Define(_)));
    assert!(matches!(f.items[1], TopLevelItem::Assemble(_)));
    assert!(matches!(f.items[2], TopLevelItem::Export(_)));

    // units propagate to top-level define
    let def = f.defines().next().unwrap();
    assert_eq!(def.items[0], DefineItem::Units(Unit::Mm));
    // chamfer is last item
    assert_eq!(def.items[2], DefineItem::Manip(Manipulation::Chamfer(dec(15, 1))));
}

#[test]
fn negative_number_in_position() {
    let src = "assemble a\n  place b at (-25, -15, 0)\nend";
    let f = parse_str(src).unwrap();
    let block = f.assemblies().next().unwrap();
    if let AssembleItem::Op(AssembleOp::Place { at, .. }) = &block.items[0] {
        assert_eq!(*at, Position::Coords(whole(-25), whole(-15), whole(0)));
    } else {
        panic!()
    }
}

#[test]
fn unit_scale_factors() {
    assert_eq!(Unit::Mm.to_mm(), whole(1));
    assert_eq!(Unit::Cm.to_mm(), whole(10));
    assert_eq!(Unit::In.to_mm(), dec(254, 1));
}

// ── Further cases ──────────────────────────────────────────────────────────────

#[test]
fn syntax_error_reports_line_and_column() {
    match parse_str("use a\n  foobar 42") {
        Err(PolyhedraError::ParseError { line, col, message }) => {
            assert_eq!(line, 2);
            assert_eq!(col, 3);
            assert_eq!(message, "expected 'use', 'define', 'assemble' or 'export'");
        }
        other => panic!("expected a parse error, got {other:?}"),
    }
}

#[test]
fn missing_end_reported_at_end_of_text() {
    match parse_str("define foo\n  cube\n  end\n") {
        Err(PolyhedraError::ParseError { line, col, message }) => {
            assert_eq!((line, col), (4, 1));
            assert_eq!(message, "expected 'end'");
        }
        other => panic!("expected a parse error, got {other:?}"),
    }
}

#[test]
fn unexpected_character_is_err() {
    match parse_str("use a = b") {
        Err(PolyhedraError::ParseError { line, col, message }) => {
            assert_eq!((line, col), (1, 7));
            assert_eq!(message, "unexpected character");
        }
        other => panic!("expected a parse error, got {other:?}"),
    }
}

#[test]
fn long_numbers_keep_their_leading_digits() {
    let number = |text: &str| {
        let src = format!("define x\n  cube\n    width {text}\n  end\nend");
        let f = parse_str(&src).unwrap();
        let d = f.defines().next().unwrap();
        match &d.items[0] {
            DefineItem::Primitive(p) => p.props[0].value,
            other => panic!("expected a primitive, got {other:?}"),
        }
    };
    assert_eq!(number("123456789012345678901234567890"), dec(1234567890123456789, -11));
    assert_eq!(number("-123456789012345678901234567890"), dec(-1234567890123456789, -11));
    assert_eq!(number("0.12345678901234567890123"), dec(1234567890123456789, 19));
    assert_eq!(number("1.00000000000000000009"), dec(1, 0));
    assert_eq!(number("9223372036854775807"), dec(9223372036854775807, 0));
    assert_eq!(number("9223372036854775808"), dec(922337203685477580, -1));
}

#[test]
fn trailing_zeros_are_dropped() {
    let src = "define x\n  cube\n    width 10.500\n    depth -0.0\n  end\nend";
    let f = parse_str(src).unwrap();
    let def = f.defines().next().unwrap();
    if let DefineItem::Primitive(p) = &def.items[0] {
        assert_eq!(p.props[0].value, dec(105, 1));
        assert_eq!(p.props[1].value, whole(0));
    } else {
        panic!()
    }
}

#[test]
fn quoted_file_name_and_directions() {
    let src = "assemble a\n  cut c at origin pointing -z\nend\nexport\n  quality ULTRA\n  file \"my part.glb\"\n  format GLB\nend";
    let f = parse_str(src).unwrap();
    let block = f.assemblies().next().unwrap();
    if let AssembleItem::Op(AssembleOp::Cut { pointing, .. }) = &block.items[0] {
        assert_eq!(*pointing, Some(Direction::NegZ));
    } else {
        panic!()
    }
    let exp = f.export().unwrap();
    assert_eq!(exp.quality, Some(Quality::Ultra));
    assert_eq!(exp.file.as_deref(), Some("my part.glb"));
    assert_eq!(exp.format.as_deref(), Some("glb"));
}

#[test]
fn dotted_file_name_keeps_the_dots() {
    let f = parse_str("export\n  file out.v2.stl\nend").unwrap();
    assert_eq!(f.export().unwrap().file.as_deref(), Some("out.v2.stl"));
}

#[test]
fn pattern_and_thread_manipulations() {
    let src = "assemble a\n  units cm\n  place b at origin\n  thread 6 1.25\n  pattern ring 8\nend";
    let f = parse_str(src).unwrap();
    let block = f.assemblies().next().unwrap();
    assert_eq!(block.items[0], AssembleItem::Units(Unit::Cm));
    assert_eq!(
        block.items[2],
        AssembleItem::Manip(Manipulation::Thread { diameter: whole(6), pitch: Some(dec(125, 2)) })
    );
    assert_eq!(
        block.items[3],
        AssembleItem::Manip(Manipulation::Pattern { name: "ring".into(), count: whole(8) })
    );
}

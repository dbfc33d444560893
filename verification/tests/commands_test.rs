//! Tests of what the command-line modes compute.

use polyhedra::commands::{
    compile_plan, list_lines, output_file_name, resolve_output_dir, should_recompile,
    touches_polyh_file, validate_lines,
};
use polyhedra::eval::{Length, PrimitivePlan, SdfPlan};
use polyhedra::export::ExportFormat;
use polyhedra::parser::ast::Decimal;
use polyhedra::parser::parse_str;

fn mm(mantissa: i64) -> Length {
    Length { value: Decimal { mantissa, scale: 0 }, scale: Decimal { mantissa: 1, scale: 0 } }
}

#[test]
fn output_dir_is_the_given_one_or_the_input_directory() {
    assert_eq!(resolve_output_dir(Some("out"), "parts/bracket.polyh"), "out");
    assert_eq!(resolve_output_dir(None, "parts/bracket.polyh"), "parts");
    assert_eq!(resolve_output_dir(None, "bracket.polyh"), "");
    assert_eq!(resolve_output_dir(None, "/"), ".");
}

#[test]
fn output_file_name_is_stem_and_extension() {
    assert_eq!(output_file_name("parts/bracket.polyh", ExportFormat::Stl), "bracket.stl");
    assert_eq!(output_file_name("main.v2.polyh", ExportFormat::Glb), "main.v2.glb");
    assert_eq!(output_file_name("", ExportFormat::Ply), ".ply");
}

#[test]
fn compile_prefers_the_first_assembly() {
    let f = parse_str(
        "define a\n  sphere\n  end\nend\ndefine b\n  cube\n  end\nend\nassemble w\n  join b at origin\nend",
    )
    .unwrap();
    let plan = compile_plan(&f).unwrap();
    match plan {
        SdfPlan::Place { inner, .. } => assert_eq!(
            *inner,
            SdfPlan::Primitive(PrimitivePlan::Cube { width: mm(10), depth: mm(10), height: mm(10) })
        ),
        other => panic!("expected a placed part, got {other:?}"),
    }
}

#[test]
fn compile_falls_back_to_the_first_define() {
    let f = parse_str("define a\n  sphere\n    radius 3\n  end\nend\ndefine b\n  cube\n  end\nend")
        .unwrap();
    assert_eq!(
        compile_plan(&f).unwrap(),
        SdfPlan::Primitive(PrimitivePlan::Sphere { radius: mm(3) })
    );
}

#[test]
fn compile_errors_read_as_sentences() {
    let f = parse_str("").unwrap();
    assert_eq!(compile_plan(&f).unwrap_err(), "file has no 'define' or 'assemble' block");
    let f = parse_str("assemble w\n  place ghost at origin\nend").unwrap();
    assert_eq!(
        compile_plan(&f).unwrap_err(),
        "Geometry error: assemble 'w': object 'ghost' is not defined"
    );
}

#[test]
fn list_reports_blocks_in_order() {
    let src = "define a\n  sphere\n  end\n  cube\n  end\n  chamfer 1\nend\n\
               define b\n  cube\n  end\nend\n\
               define c\n  units mm\nend\n\
               assemble w\n  place a at origin\n  join b at origin\n  shell 1\nend";
    let f = parse_str(src).unwrap();
    assert_eq!(
        list_lines(&f),
        vec![
            "  define a  (2 primitives)  [manipulations]".to_string(),
            "  define b  (1 primitive)".to_string(),
            "  define c".to_string(),
            "  assemble w  (2 operations)".to_string(),
        ]
    );
}

#[test]
fn list_of_an_empty_file() {
    let f = parse_str("").unwrap();
    assert_eq!(list_lines(&f), vec!["  (no objects found)".to_string()]);
}

#[test]
fn validate_counts_blocks() {
    let f = parse_str("define a\n  sphere\n  end\nend\nassemble w\n  place a at origin\nend")
        .unwrap();
    assert_eq!(
        validate_lines(&f),
        vec![
            "  define blocks  : 1".to_string(),
            "  assemble blocks: 1".to_string(),
            "  export block   : no".to_string(),
        ]
    );
}

#[test]
fn watch_recompiles_on_polyh_changes_after_the_debounce() {
    let polyh = vec!["notes.txt".to_string(), "dir/main.polyh".to_string()];
    let other = vec!["main.stl".to_string(), "polyh".to_string()];
    assert!(touches_polyh_file(&polyh));
    assert!(!touches_polyh_file(&other));
    assert!(should_recompile(&polyh, 201));
    assert!(!should_recompile(&polyh, 200));
    assert!(!should_recompile(&other, 5000));
}

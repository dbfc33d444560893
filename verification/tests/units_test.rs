//! Tests of unit factors and arithmetic names.

use polyhedra::parser::ast::Decimal;
use polyhedra::units::{Arithmetic, arithmetic_named, mm_per_unit};

fn d(mantissa: i64, scale: i64) -> Decimal {
    Decimal { mantissa, scale }
}

#[test]
fn factors_of_length_units() {
    assert_eq!(mm_per_unit("mm"), d(1, 0));
    assert_eq!(mm_per_unit("cm"), d(10, 0));
    assert_eq!(mm_per_unit("m"), d(1000, 0));
    assert_eq!(mm_per_unit("in"), d(254, 1));
    assert_eq!(mm_per_unit("ft"), d(3048, 1));
}

#[test]
fn other_unit_names_keep_the_value() {
    assert_eq!(mm_per_unit("degrees"), d(1, 0));
    assert_eq!(mm_per_unit("furlong"), d(1, 0));
    assert_eq!(mm_per_unit("CM"), d(1, 0));
    assert_eq!(mm_per_unit(""), d(1, 0));
}

#[test]
fn arithmetic_names() {
    assert_eq!(arithmetic_named("twice"), Arithmetic::Twice);
    assert_eq!(arithmetic_named("half"), Arithmetic::Half);
    assert_eq!(arithmetic_named("plus"), Arithmetic::Plus);
    assert_eq!(arithmetic_named("minus"), Arithmetic::Minus);
    assert_eq!(arithmetic_named("times"), Arithmetic::Times);
    assert_eq!(arithmetic_named("divide"), Arithmetic::Divide);
    assert_eq!(arithmetic_named("Twice"), Arithmetic::Unchanged);
    assert_eq!(arithmetic_named("modulo"), Arithmetic::Unchanged);
}

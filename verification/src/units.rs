//! Units of length: how many millimetres a unit named in text stands for,
//! and the named arithmetic steps applied to measured values.
//!
//! All geometry is measured in millimetres. The conversions themselves are
//! products and quotients of real numbers; this module decides which factor
//! or step a name stands for.

use vstd::prelude::*;
use crate::parser::ast::{Decimal, Unit};
use crate::text::{chars_of, vec_eq_str};

verus! {

/// Millimetres per unit for a unit name: `mm`, `cm`, `m`, `in`, `ft`; any
/// other name (an angle in `degrees`, or an unknown unit) is taken as is.
pub open spec fn spec_mm_per_unit(unit: Seq<char>) -> Decimal {
    if unit == "mm"@ {
        Decimal { mantissa: 1, scale: 0 }
    } else if unit == "cm"@ {
        Decimal { mantissa: 10, scale: 0 }
    } else if unit == "m"@ {
        Decimal { mantissa: 1000, scale: 0 }
    } else if unit == "in"@ {
        Decimal { mantissa: 254, scale: 1 }
    } else if unit == "ft"@ {
        Decimal { mantissa: 3048, scale: 1 }
    } else {
        Decimal { mantissa: 1, scale: 0 }
    }
}

/// Millimetres per unit for a unit name: a value in `unit` times this factor
/// is in millimetres, and a value in millimetres divided by it is in `unit`.
pub fn mm_per_unit(unit: &str) -> (r: Decimal)
    ensures
        r == spec_mm_per_unit(unit@),
        r.is_canonical(),
{
    let u = chars_of(unit);
    if vec_eq_str(&u, "mm") {
        Decimal { mantissa: 1, scale: 0 }
    } else if vec_eq_str(&u, "cm") {
        Decimal { mantissa: 10, scale: 0 }
    } else if vec_eq_str(&u, "m") {
        Decimal { mantissa: 1000, scale: 0 }
    } else if vec_eq_str(&u, "in") {
        Decimal { mantissa: 254, scale: 1 }
    } else if vec_eq_str(&u, "ft") {
        Decimal { mantissa: 3048, scale: 1 }
    } else {
        Decimal { mantissa: 1, scale: 0 }
    }
}

/// `10^n`.
pub open spec fn pow10(n: nat) -> int
    decreases n,
{
    if n == 0 {
        1
    } else {
        10 * pow10((n - 1) as nat)
    }
}

/// `a / b == num / den`, exactly, for decimals without a negative scale.
pub open spec fn ratio(a: Decimal, b: Decimal, num: int, den: int) -> bool {
    a.scale >= 0 && b.scale >= 0 && a.mantissa * pow10(b.scale as nat) * den == b.mantissa * pow10(
        a.scale as nat,
    ) * num
}

/// The millimetres per unit that a `units` statement sets agree with the
/// lengths of the units: a millimetre is 1 mm, a centimetre 10 mm, a metre
/// 100 cm, an inch 25.4 mm and a foot 12 inches; and each unit's factor is
/// the one its name stands for.
pub proof fn lemma_unit_factors()
    ensures
        Unit::Mm.spec_to_mm() == (Decimal { mantissa: 1, scale: 0 }),
        ratio(Unit::Cm.spec_to_mm(), Unit::Mm.spec_to_mm(), 10, 1),
        ratio(Unit::M.spec_to_mm(), Unit::Cm.spec_to_mm(), 100, 1),
        ratio(Unit::In.spec_to_mm(), Unit::Mm.spec_to_mm(), 254, 10),
        ratio(Unit::Ft.spec_to_mm(), Unit::In.spec_to_mm(), 12, 1),
        Unit::Mm.spec_to_mm() == spec_mm_per_unit("mm"@),
        Unit::Cm.spec_to_mm() == spec_mm_per_unit("cm"@),
        Unit::M.spec_to_mm() == spec_mm_per_unit("m"@),
        Unit::In.spec_to_mm() == spec_mm_per_unit("in"@),
        Unit::Ft.spec_to_mm() == spec_mm_per_unit("ft"@),
{
    reveal_with_fuel(pow10, 2);
    assert(pow10(0) == 1 && pow10(1) == 10);
    reveal_strlit("mm");
    reveal_strlit("cm");
    reveal_strlit("m");
    reveal_strlit("in");
    reveal_strlit("ft");
    assert("mm"@[0] != "cm"@[0] && "mm"@.len() != "m"@.len() && "mm"@[0] != "in"@[0]);
    assert("cm"@.len() != "m"@.len() && "cm"@[0] != "in"@[0] && "m"@.len() != "in"@.len());
    assert("ft"@ != "mm"@ && "ft"@ != "cm"@ && "ft"@ != "m"@ && "ft"@ != "in"@);
}

/// A plain-English arithmetic step on a value.
#[derive(Debug, Clone, Copy, PartialEq, Eq, Structural)]
pub enum Arithmetic {
    /// The value doubled.
    Twice,
    /// The value halved.
    Half,
    /// The value plus the operand.
    Plus,
    /// The value minus the operand.
    Minus,
    /// The value times the operand.
    Times,
    /// The value divided by the operand.
    Divide,
    /// The value unchanged (any other name).
    Unchanged,
}

/// The step an operation name stands for.
pub open spec fn spec_arithmetic_named(op: Seq<char>) -> Arithmetic {
    if op == "twice"@ {
        Arithmetic::Twice
    } else if op == "half"@ {
        Arithmetic::Half
    } else if op == "plus"@ {
        Arithmetic::Plus
    } else if op == "minus"@ {
        Arithmetic::Minus
    } else if op == "times"@ {
        Arithmetic::Times
    } else if op == "divide"@ {
        Arithmetic::Divide
    } else {
        Arithmetic::Unchanged
    }
}

/// The step an operation name stands for.
pub fn arithmetic_named(op: &str) -> (r: Arithmetic)
    ensures
        r == spec_arithmetic_named(op@),
{
    let o = chars_of(op);
    if vec_eq_str(&o, "twice") {
        Arithmetic::Twice
    } else if vec_eq_str(&o, "half") {
        Arithmetic::Half
    } else if vec_eq_str(&o, "plus") {
        Arithmetic::Plus
    } else if vec_eq_str(&o, "minus") {
        Arithmetic::Minus
    } else if vec_eq_str(&o, "times") {
        Arithmetic::Times
    } else if vec_eq_str(&o, "divide") {
        Arithmetic::Divide
    } else {
        Arithmetic::Unchanged
    }
}

} // verus!

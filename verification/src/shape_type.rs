//! Shape type enum: integer ids shared with the Python constants.

use vstd::prelude::*;
use crate::error::PolyhedraError;
use crate::text::{decimal, literal_then_decimal};
use vstd::std_specs::convert::TryFromSpecImpl;

verus! {

/// Integer ids of every primitive shape.
#[derive(Debug, Clone, Copy, PartialEq, Eq, Structural)]
pub enum ShapeType {
    Cube,
    Cylinder,
    Sphere,
    Cone,
    Torus,
    Pyramid,
    Prism,
}

impl ShapeType {
    /// The id of each variant.
    pub open spec fn id(self) -> u32 {
        match self {
            ShapeType::Cube => 0,
            ShapeType::Cylinder => 1,
            ShapeType::Sphere => 2,
            ShapeType::Cone => 3,
            ShapeType::Torus => 4,
            ShapeType::Pyramid => 5,
            ShapeType::Prism => 6,
        }
    }
}

/// The shape whose id is `value`, if any.
pub open spec fn shape_of_id(value: u32) -> Option<ShapeType> {
    if value == 0 {
        Some(ShapeType::Cube)
    } else if value == 1 {
        Some(ShapeType::Cylinder)
    } else if value == 2 {
        Some(ShapeType::Sphere)
    } else if value == 3 {
        Some(ShapeType::Cone)
    } else if value == 4 {
        Some(ShapeType::Torus)
    } else if value == 5 {
        Some(ShapeType::Pyramid)
    } else if value == 6 {
        Some(ShapeType::Prism)
    } else {
        None
    }
}

/// Ids and shapes correspond one to one: each shape's id converts back to
/// it, and an id that converts names the shape it converts to.
pub proof fn lemma_shape_id_round_trip(t: ShapeType, v: u32)
    ensures
        shape_of_id(t.id()) == Some(t),
        shape_of_id(v) matches Some(u) ==> u.id() == v,
        shape_of_id(v) is Some <==> v <= 6,
{
}

/// What `ShapeType::try_from` gives: the shape of a known id, else a
/// geometry error whose message names the id. The conversion is not declared
/// to obey this spec: vstd ties a `String` to its text only through its view,
/// so no proof can show that the message `try_from` builds is this very
/// `String`. The `ensures` of `try_from` states its result instead.
impl TryFromSpecImpl<u32> for ShapeType {
    open spec fn obeys_try_from_spec() -> bool {
        false
    }

    open spec fn try_from_spec(v: u32) -> Result<ShapeType, PolyhedraError> {
        match shape_of_id(v) {
            Some(t) => Ok(t),
            None => Err(
                PolyhedraError::GeometryError {
                    message: choose|m: String| #[trigger] m@ == "unknown shape type id: "@ + decimal(v as nat),
                },
            ),
        }
    }
}

impl TryFrom<u32> for ShapeType {
    type Error = PolyhedraError;

    /// Converts an id to its shape; an unknown id is a geometry error that names it.
    fn try_from(value: u32) -> (r: Result<ShapeType, PolyhedraError>)
        ensures
            shape_of_id(value) matches Some(t) ==> r == Ok::<ShapeType, PolyhedraError>(t),
            shape_of_id(value) is None ==> (r matches Err(PolyhedraError::GeometryError { message })
                && message@ == "unknown shape type id: "@ + decimal(value as nat)),
    {
        match value {
            0 => Ok(ShapeType::Cube),
            1 => Ok(ShapeType::Cylinder),
            2 => Ok(ShapeType::Sphere),
            3 => Ok(ShapeType::Cone),
            4 => Ok(ShapeType::Torus),
            5 => Ok(ShapeType::Pyramid),
            6 => Ok(ShapeType::Prism),
            other => Err(PolyhedraError::GeometryError {
                message: literal_then_decimal("unknown shape type id: ", other as u64),
            }),
        }
    }
}

} // verus!

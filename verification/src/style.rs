//! Preset dimensions of named primitive styles.
//!
//! A style names a set of dimensions for a primitive kind (`plate` for a
//! cube is 100 × 100 × 5). A property written in the block comes first, the
//! style's preset next, and the kind's default last.

use vstd::prelude::*;
use crate::parser::ast::{Decimal, PrimKind};
use crate::text::{chars_of, vec_eq_str};

verus! {

/// Presets as (property name, value) pairs of plain values.
pub open spec fn preset_view(v: Seq<(&str, Decimal)>) -> Seq<(Seq<char>, Decimal)> {
    v.map_values(|e: (&str, Decimal)| (e.0@, e.1))
}

/// The presets of the cube styles.
pub open spec fn cube_styles(style: Seq<char>) -> Seq<(Seq<char>, Decimal)> {
    if style == "plate"@ {
        seq![
            ("width"@, Decimal { mantissa: 100, scale: 0 }),
            ("depth"@, Decimal { mantissa: 100, scale: 0 }),
            ("height"@, Decimal { mantissa: 5, scale: 0 }),
        ]
    } else if style == "bar"@ {
        seq![
            ("width"@, Decimal { mantissa: 10, scale: 0 }),
            ("depth"@, Decimal { mantissa: 10, scale: 0 }),
            ("height"@, Decimal { mantissa: 100, scale: 0 }),
        ]
    } else if style == "block"@ {
        seq![
            ("width"@, Decimal { mantissa: 40, scale: 0 }),
            ("depth"@, Decimal { mantissa: 40, scale: 0 }),
            ("height"@, Decimal { mantissa: 40, scale: 0 }),
        ]
    } else if style == "beam"@ {
        seq![
            ("width"@, Decimal { mantissa: 20, scale: 0 }),
            ("depth"@, Decimal { mantissa: 30, scale: 0 }),
            ("height"@, Decimal { mantissa: 150, scale: 0 }),
        ]
    } else if style == "shim"@ {
        seq![
            ("width"@, Decimal { mantissa: 30, scale: 0 }),
            ("depth"@, Decimal { mantissa: 30, scale: 0 }),
            ("height"@, Decimal { mantissa: 5, scale: 1 }),
        ]
    } else if style == "key_stock"@ {
        seq![
            ("width"@, Decimal { mantissa: 8, scale: 0 }),
            ("depth"@, Decimal { mantissa: 8, scale: 0 }),
            ("height"@, Decimal { mantissa: 60, scale: 0 }),
        ]
    } else if style == "fin"@ {
        seq![
            ("width"@, Decimal { mantissa: 2, scale: 0 }),
            ("depth"@, Decimal { mantissa: 40, scale: 0 }),
            ("height"@, Decimal { mantissa: 50, scale: 0 }),
        ]
    } else if style == "gusset"@ {
        seq![
            ("width"@, Decimal { mantissa: 40, scale: 0 }),
            ("depth"@, Decimal { mantissa: 5, scale: 0 }),
            ("height"@, Decimal { mantissa: 40, scale: 0 }),
        ]
    } else if style == "tile"@ {
        seq![
            ("width"@, Decimal { mantissa: 50, scale: 0 }),
            ("depth"@, Decimal { mantissa: 50, scale: 0 }),
            ("height"@, Decimal { mantissa: 8, scale: 0 }),
        ]
    } else if style == "lug"@ {
        seq![
            ("width"@, Decimal { mantissa: 25, scale: 0 }),
            ("depth"@, Decimal { mantissa: 10, scale: 0 }),
            ("height"@, Decimal { mantissa: 35, scale: 0 }),
        ]
    } else if style == "spacer_block"@ {
        seq![
            ("width"@, Decimal { mantissa: 20, scale: 0 }),
            ("depth"@, Decimal { mantissa: 20, scale: 0 }),
            ("height"@, Decimal { mantissa: 10, scale: 0 }),
        ]
    } else if style == "bracket_tab"@ {
        seq![
            ("width"@, Decimal { mantissa: 40, scale: 0 }),
            ("depth"@, Decimal { mantissa: 5, scale: 0 }),
            ("height"@, Decimal { mantissa: 30, scale: 0 }),
        ]
    } else if style == "rail"@ {
        seq![
            ("width"@, Decimal { mantissa: 15, scale: 0 }),
            ("depth"@, Decimal { mantissa: 12, scale: 0 }),
            ("height"@, Decimal { mantissa: 120, scale: 0 }),
        ]
    } else if style == "chip"@ {
        seq![
            ("width"@, Decimal { mantissa: 8, scale: 0 }),
            ("depth"@, Decimal { mantissa: 5, scale: 0 }),
            ("height"@, Decimal { mantissa: 2, scale: 0 }),
        ]
    } else if style == "wedge"@ {
        seq![
            ("width"@, Decimal { mantissa: 60, scale: 0 }),
            ("depth"@, Decimal { mantissa: 30, scale: 0 }),
            ("height"@, Decimal { mantissa: 20, scale: 0 }),
        ]
    } else {
        Seq::empty()
    }
}

fn cube_styles_of(style: &Vec<char>) -> (r: Vec<(&'static str, Decimal)>)
    ensures
        preset_view(r@) == cube_styles(style@),
{
    if vec_eq_str(style, "plate") {
        let r = vec![
            ("width", Decimal { mantissa: 100, scale: 0 }),
            ("depth", Decimal { mantissa: 100, scale: 0 }),
            ("height", Decimal { mantissa: 5, scale: 0 }),
        ];
        assert(preset_view(r@) =~= cube_styles(style@));
        r
    } else if vec_eq_str(style, "bar") {
        let r = vec![
            ("width", Decimal { mantissa: 10, scale: 0 }),
            ("depth", Decimal { mantissa: 10, scale: 0 }),
            ("height", Decimal { mantissa: 100, scale: 0 }),
        ];
        assert(preset_view(r@) =~= cube_styles(style@));
        r
    } else if vec_eq_str(style, "block") {
        let r = vec![
            ("width", Decimal { mantissa: 40, scale: 0 }),
            ("depth", Decimal { mantissa: 40, scale: 0 }),
            ("height", Decimal { mantissa: 40, scale: 0 }),
        ];
        assert(preset_view(r@) =~= cube_styles(style@));
        r
    } else if vec_eq_str(style, "beam") {
        let r = vec![
            ("width", Decimal { mantissa: 20, scale: 0 }),
            ("depth", Decimal { mantissa: 30, scale: 0 }),
            ("height", Decimal { mantissa: 150, scale: 0 }),
        ];
        assert(preset_view(r@) =~= cube_styles(style@));
        r
    } else if vec_eq_str(style, "shim") {
        let r = vec![
            ("width", Decimal { mantissa: 30, scale: 0 }),
            ("depth", Decimal { mantissa: 30, scale: 0 }),
            ("height", Decimal { mantissa: 5, scale: 1 }),
        ];
        assert(preset_view(r@) =~= cube_styles(style@));
        r
    } else if vec_eq_str(style, "key_stock") {
        let r = vec![
            ("width", Decimal { mantissa: 8, scale: 0 }),
            ("depth", Decimal { mantissa: 8, scale: 0 }),
            ("height", Decimal { mantissa: 60, scale: 0 }),
        ];
        assert(preset_view(r@) =~= cube_styles(style@));
        r
    } else if vec_eq_str(style, "fin") {
        let r = vec![
            ("width", Decimal { mantissa: 2, scale: 0 }),
            ("depth", Decimal { mantissa: 40, scale: 0 }),
            ("height", Decimal { mantissa: 50, scale: 0 }),
        ];
        assert(preset_view(r@) =~= cube_styles(style@));
        r
    } else if vec_eq_str(style, "gusset") {
        let r = vec![
            ("width", Decimal { mantissa: 40, scale: 0 }),
            ("depth", Decimal { mantissa: 5, scale: 0 }),
            ("height", Decimal { mantissa: 40, scale: 0 }),
        ];
        assert(preset_view(r@) =~= cube_styles(style@));
        r
    } else if vec_eq_str(style, "tile") {
        let r = vec![
            ("width", Decimal { mantissa: 50, scale: 0 }),
            ("depth", Decimal { mantissa: 50, scale: 0 }),
            ("height", Decimal { mantissa: 8, scale: 0 }),
        ];
        assert(preset_view(r@) =~= cube_styles(style@));
        r
    } else if vec_eq_str(style, "lug") {
        let r = vec![
            ("width", Decimal { mantissa: 25, scale: 0 }),
            ("depth", Decimal { mantissa: 10, scale: 0 }),
            ("height", Decimal { mantissa: 35, scale: 0 }),
        ];
        assert(preset_view(r@) =~= cube_styles(style@));
        r
    } else if vec_eq_str(style, "spacer_block") {
        let r = vec![
            ("width", Decimal { mantissa: 20, scale: 0 }),
            ("depth", Decimal { mantissa: 20, scale: 0 }),
            ("height", Decimal { mantissa: 10, scale: 0 }),
        ];
        assert(preset_view(r@) =~= cube_styles(style@));
        r
    } else if vec_eq_str(style, "bracket_tab") {
        let r = vec![
            ("width", Decimal { mantissa: 40, scale: 0 }),
            ("depth", Decimal { mantissa: 5, scale: 0 }),
            ("height", Decimal { mantissa: 30, scale: 0 }),
        ];
        assert(preset_view(r@) =~= cube_styles(style@));
        r
    } else if vec_eq_str(style, "rail") {
        let r = vec![
            ("width", Decimal { mantissa: 15, scale: 0 }),
            ("depth", Decimal { mantissa: 12, scale: 0 }),
            ("height", Decimal { mantissa: 120, scale: 0 }),
        ];
        assert(preset_view(r@) =~= cube_styles(style@));
        r
    } else if vec_eq_str(style, "chip") {
        let r = vec![
            ("width", Decimal { mantissa: 8, scale: 0 }),
            ("depth", Decimal { mantissa: 5, scale: 0 }),
            ("height", Decimal { mantissa: 2, scale: 0 }),
        ];
        assert(preset_view(r@) =~= cube_styles(style@));
        r
    } else if vec_eq_str(style, "wedge") {
        let r = vec![
            ("width", Decimal { mantissa: 60, scale: 0 }),
            ("depth", Decimal { mantissa: 30, scale: 0 }),
            ("height", Decimal { mantissa: 20, scale: 0 }),
        ];
        assert(preset_view(r@) =~= cube_styles(style@));
        r
    } else {
        let r: Vec<(&'static str, Decimal)> = Vec::new();
        assert(preset_view(r@) =~= cube_styles(style@));
        r
    }
}

/// The presets of the sphere styles.
pub open spec fn sphere_styles(style: Seq<char>) -> Seq<(Seq<char>, Decimal)> {
    if style == "ball"@ {
        seq![
            ("radius"@, Decimal { mantissa: 10, scale: 0 }),
        ]
    } else if style == "marble"@ {
        seq![
            ("radius"@, Decimal { mantissa: 5, scale: 0 }),
        ]
    } else if style == "bearing_ball"@ {
        seq![
            ("radius"@, Decimal { mantissa: 3, scale: 0 }),
        ]
    } else if style == "knob"@ {
        seq![
            ("radius"@, Decimal { mantissa: 20, scale: 0 }),
        ]
    } else if style == "rivet_head"@ {
        seq![
            ("radius"@, Decimal { mantissa: 5, scale: 0 }),
        ]
    } else if style == "hemisphere"@ {
        seq![
            ("radius"@, Decimal { mantissa: 20, scale: 0 }),
        ]
    } else if style == "dome"@ {
        seq![
            ("radius"@, Decimal { mantissa: 50, scale: 0 }),
        ]
    } else if style == "lens"@ {
        seq![
            ("radius"@, Decimal { mantissa: 15, scale: 0 }),
        ]
    } else if style == "bubble"@ {
        seq![
            ("radius"@, Decimal { mantissa: 25, scale: 0 }),
        ]
    } else if style == "ball_joint"@ {
        seq![
            ("radius"@, Decimal { mantissa: 12, scale: 0 }),
        ]
    } else if style == "cam_follower"@ {
        seq![
            ("radius"@, Decimal { mantissa: 8, scale: 0 }),
        ]
    } else if style == "float_ball"@ {
        seq![
            ("radius"@, Decimal { mantissa: 30, scale: 0 }),
        ]
    } else if style == "shot"@ {
        seq![
            ("radius"@, Decimal { mantissa: 2, scale: 0 }),
        ]
    } else if style == "plug_end"@ {
        seq![
            ("radius"@, Decimal { mantissa: 8, scale: 0 }),
        ]
    } else if style == "sphere_cap"@ {
        seq![
            ("radius"@, Decimal { mantissa: 20, scale: 0 }),
        ]
    } else {
        Seq::empty()
    }
}

fn sphere_styles_of(style: &Vec<char>) -> (r: Vec<(&'static str, Decimal)>)
    ensures
        preset_view(r@) == sphere_styles(style@),
{
    if vec_eq_str(style, "ball") {
        let r = vec![
            ("radius", Decimal { mantissa: 10, scale: 0 }),
        ];
        assert(preset_view(r@) =~= sphere_styles(style@));
        r
    } else if vec_eq_str(style, "marble") {
        let r = vec![
            ("radius", Decimal { mantissa: 5, scale: 0 }),
        ];
        assert(preset_view(r@) =~= sphere_styles(style@));
        r
    } else if vec_eq_str(style, "bearing_ball") {
        let r = vec![
            ("radius", Decimal { mantissa: 3, scale: 0 }),
        ];
        assert(preset_view(r@) =~= sphere_styles(style@));
        r
    } else if vec_eq_str(style, "knob") {
        let r = vec![
            ("radius", Decimal { mantissa: 20, scale: 0 }),
        ];
        assert(preset_view(r@) =~= sphere_styles(style@));
        r
    } else if vec_eq_str(style, "rivet_head") {
        let r = vec![
            ("radius", Decimal { mantissa: 5, scale: 0 }),
        ];
        assert(preset_view(r@) =~= sphere_styles(style@));
        r
    } else if vec_eq_str(style, "hemisphere") {
        let r = vec![
            ("radius", Decimal { mantissa: 20, scale: 0 }),
        ];
        assert(preset_view(r@) =~= sphere_styles(style@));
        r
    } else if vec_eq_str(style, "dome") {
        let r = vec![
            ("radius", Decimal { mantissa: 50, scale: 0 }),
        ];
        assert(preset_view(r@) =~= sphere_styles(style@));
        r
    } else if vec_eq_str(style, "lens") {
        let r = vec![
            ("radius", Decimal { mantissa: 15, scale: 0 }),
        ];
        assert(preset_view(r@) =~= sphere_styles(style@));
        r
    } else if vec_eq_str(style, "bubble") {
        let r = vec![
            ("radius", Decimal { mantissa: 25, scale: 0 }),
        ];
        assert(preset_view(r@) =~= sphere_styles(style@));
        r
    } else if vec_eq_str(style, "ball_joint") {
        let r = vec![
            ("radius", Decimal { mantissa: 12, scale: 0 }),
        ];
        assert(preset_view(r@) =~= sphere_styles(style@));
        r
    } else if vec_eq_str(style, "cam_follower") {
        let r = vec![
            ("radius", Decimal { mantissa: 8, scale: 0 }),
        ];
        assert(preset_view(r@) =~= sphere_styles(style@));
        r
    } else if vec_eq_str(style, "float_ball") {
        let r = vec![
            ("radius", Decimal { mantissa: 30, scale: 0 }),
        ];
        assert(preset_view(r@) =~= sphere_styles(style@));
        r
    } else if vec_eq_str(style, "shot") {
        let r = vec![
            ("radius", Decimal { mantissa: 2, scale: 0 }),
        ];
        assert(preset_view(r@) =~= sphere_styles(style@));
        r
    } else if vec_eq_str(style, "plug_end") {
        let r = vec![
            ("radius", Decimal { mantissa: 8, scale: 0 }),
        ];
        assert(preset_view(r@) =~= sphere_styles(style@));
        r
    } else if vec_eq_str(style, "sphere_cap") {
        let r = vec![
            ("radius", Decimal { mantissa: 20, scale: 0 }),
        ];
        assert(preset_view(r@) =~= sphere_styles(style@));
        r
    } else {
        let r: Vec<(&'static str, Decimal)> = Vec::new();
        assert(preset_view(r@) =~= sphere_styles(style@));
        r
    }
}

/// The presets of the cylinder styles.
pub open spec fn cylinder_styles(style: Seq<char>) -> Seq<(Seq<char>, Decimal)> {
    if style == "shaft"@ {
        seq![
            ("radius"@, Decimal { mantissa: 5, scale: 0 }),
            ("height"@, Decimal { mantissa: 100, scale: 0 }),
        ]
    } else if style == "rod"@ {
        seq![
            ("radius"@, Decimal { mantissa: 8, scale: 0 }),
            ("height"@, Decimal { mantissa: 60, scale: 0 }),
        ]
    } else if style == "disk"@ {
        seq![
            ("radius"@, Decimal { mantissa: 30, scale: 0 }),
            ("height"@, Decimal { mantissa: 5, scale: 0 }),
        ]
    } else if style == "puck"@ {
        seq![
            ("radius"@, Decimal { mantissa: 20, scale: 0 }),
            ("height"@, Decimal { mantissa: 15, scale: 0 }),
        ]
    } else if style == "tube"@ {
        seq![
            ("radius"@, Decimal { mantissa: 15, scale: 0 }),
            ("height"@, Decimal { mantissa: 60, scale: 0 }),
        ]
    } else if style == "bushing"@ {
        seq![
            ("radius"@, Decimal { mantissa: 12, scale: 0 }),
            ("height"@, Decimal { mantissa: 20, scale: 0 }),
        ]
    } else if style == "pin"@ {
        seq![
            ("radius"@, Decimal { mantissa: 4, scale: 0 }),
            ("height"@, Decimal { mantissa: 25, scale: 0 }),
        ]
    } else if style == "boss"@ {
        seq![
            ("radius"@, Decimal { mantissa: 8, scale: 0 }),
            ("height"@, Decimal { mantissa: 12, scale: 0 }),
        ]
    } else if style == "collar"@ {
        seq![
            ("radius"@, Decimal { mantissa: 15, scale: 0 }),
            ("height"@, Decimal { mantissa: 10, scale: 0 }),
        ]
    } else if style == "barrel"@ {
        seq![
            ("radius"@, Decimal { mantissa: 20, scale: 0 }),
            ("height"@, Decimal { mantissa: 35, scale: 0 }),
        ]
    } else if style == "piston"@ {
        seq![
            ("radius"@, Decimal { mantissa: 25, scale: 0 }),
            ("height"@, Decimal { mantissa: 40, scale: 0 }),
        ]
    } else if style == "reel"@ {
        seq![
            ("radius"@, Decimal { mantissa: 30, scale: 0 }),
            ("height"@, Decimal { mantissa: 50, scale: 0 }),
        ]
    } else if style == "slug"@ {
        seq![
            ("radius"@, Decimal { mantissa: 12, scale: 0 }),
            ("height"@, Decimal { mantissa: 12, scale: 0 }),
        ]
    } else if style == "plug"@ {
        seq![
            ("radius"@, Decimal { mantissa: 10, scale: 0 }),
            ("height"@, Decimal { mantissa: 20, scale: 0 }),
        ]
    } else if style == "cap_end"@ {
        seq![
            ("radius"@, Decimal { mantissa: 15, scale: 0 }),
            ("height"@, Decimal { mantissa: 8, scale: 0 }),
        ]
    } else {
        Seq::empty()
    }
}

fn cylinder_styles_of(style: &Vec<char>) -> (r: Vec<(&'static str, Decimal)>)
    ensures
        preset_view(r@) == cylinder_styles(style@),
{
    if vec_eq_str(style, "shaft") {
        let r = vec![
            ("radius", Decimal { mantissa: 5, scale: 0 }),
            ("height", Decimal { mantissa: 100, scale: 0 }),
        ];
        assert(preset_view(r@) =~= cylinder_styles(style@));
        r
    } else if vec_eq_str(style, "rod") {
        let r = vec![
            ("radius", Decimal { mantissa: 8, scale: 0 }),
            ("height", Decimal { mantissa: 60, scale: 0 }),
        ];
        assert(preset_view(r@) =~= cylinder_styles(style@));
        r
    } else if vec_eq_str(style, "disk") {
        let r = vec![
            ("radius", Decimal { mantissa: 30, scale: 0 }),
            ("height", Decimal { mantissa: 5, scale: 0 }),
        ];
        assert(preset_view(r@) =~= cylinder_styles(style@));
        r
    } else if vec_eq_str(style, "puck") {
        let r = vec![
            ("radius", Decimal { mantissa: 20, scale: 0 }),
            ("height", Decimal { mantissa: 15, scale: 0 }),
        ];
        assert(preset_view(r@) =~= cylinder_styles(style@));
        r
    } else if vec_eq_str(style, "tube") {
        let r = vec![
            ("radius", Decimal { mantissa: 15, scale: 0 }),
            ("height", Decimal { mantissa: 60, scale: 0 }),
        ];
        assert(preset_view(r@) =~= cylinder_styles(style@));
        r
    } else if vec_eq_str(style, "bushing") {
        let r = vec![
            ("radius", Decimal { mantissa: 12, scale: 0 }),
            ("height", Decimal { mantissa: 20, scale: 0 }),
        ];
        assert(preset_view(r@) =~= cylinder_styles(style@));
        r
    } else if vec_eq_str(style, "pin") {
        let r = vec![
            ("radius", Decimal { mantissa: 4, scale: 0 }),
            ("height", Decimal { mantissa: 25, scale: 0 }),
        ];
        assert(preset_view(r@) =~= cylinder_styles(style@));
        r
    } else if vec_eq_str(style, "boss") {
        let r = vec![
            ("radius", Decimal { mantissa: 8, scale: 0 }),
            ("height", Decimal { mantissa: 12, scale: 0 }),
        ];
        assert(preset_view(r@) =~= cylinder_styles(style@));
        r
    } else if vec_eq_str(style, "collar") {
        let r = vec![
            ("radius", Decimal { mantissa: 15, scale: 0 }),
            ("height", Decimal { mantissa: 10, scale: 0 }),
        ];
        assert(preset_view(r@) =~= cylinder_styles(style@));
        r
    } else if vec_eq_str(style, "barrel") {
        let r = vec![
            ("radius", Decimal { mantissa: 20, scale: 0 }),
            ("height", Decimal { mantissa: 35, scale: 0 }),
        ];
        assert(preset_view(r@) =~= cylinder_styles(style@));
        r
    } else if vec_eq_str(style, "piston") {
        let r = vec![
            ("radius", Decimal { mantissa: 25, scale: 0 }),
            ("height", Decimal { mantissa: 40, scale: 0 }),
        ];
        assert(preset_view(r@) =~= cylinder_styles(style@));
        r
    } else if vec_eq_str(style, "reel") {
        let r = vec![
            ("radius", Decimal { mantissa: 30, scale: 0 }),
            ("height", Decimal { mantissa: 50, scale: 0 }),
        ];
        assert(preset_view(r@) =~= cylinder_styles(style@));
        r
    } else if vec_eq_str(style, "slug") {
        let r = vec![
            ("radius", Decimal { mantissa: 12, scale: 0 }),
            ("height", Decimal { mantissa: 12, scale: 0 }),
        ];
        assert(preset_view(r@) =~= cylinder_styles(style@));
        r
    } else if vec_eq_str(style, "plug") {
        let r = vec![
            ("radius", Decimal { mantissa: 10, scale: 0 }),
            ("height", Decimal { mantissa: 20, scale: 0 }),
        ];
        assert(preset_view(r@) =~= cylinder_styles(style@));
        r
    } else if vec_eq_str(style, "cap_end") {
        let r = vec![
            ("radius", Decimal { mantissa: 15, scale: 0 }),
            ("height", Decimal { mantissa: 8, scale: 0 }),
        ];
        assert(preset_view(r@) =~= cylinder_styles(style@));
        r
    } else {
        let r: Vec<(&'static str, Decimal)> = Vec::new();
        assert(preset_view(r@) =~= cylinder_styles(style@));
        r
    }
}

/// The presets of the cone styles.
pub open spec fn cone_styles(style: Seq<char>) -> Seq<(Seq<char>, Decimal)> {
    if style == "sharp"@ {
        seq![
            ("base_radius"@, Decimal { mantissa: 15, scale: 0 }),
            ("top_radius"@, Decimal { mantissa: 0, scale: 0 }),
            ("height"@, Decimal { mantissa: 40, scale: 0 }),
        ]
    } else if style == "frustum"@ {
        seq![
            ("base_radius"@, Decimal { mantissa: 20, scale: 0 }),
            ("top_radius"@, Decimal { mantissa: 12, scale: 0 }),
            ("height"@, Decimal { mantissa: 25, scale: 0 }),
        ]
    } else if style == "nozzle"@ {
        seq![
            ("base_radius"@, Decimal { mantissa: 20, scale: 0 }),
            ("top_radius"@, Decimal { mantissa: 5, scale: 0 }),
            ("height"@, Decimal { mantissa: 30, scale: 0 }),
        ]
    } else if style == "funnel"@ {
        seq![
            ("base_radius"@, Decimal { mantissa: 40, scale: 0 }),
            ("top_radius"@, Decimal { mantissa: 8, scale: 0 }),
            ("height"@, Decimal { mantissa: 50, scale: 0 }),
        ]
    } else if style == "countersink"@ {
        seq![
            ("base_radius"@, Decimal { mantissa: 12, scale: 0 }),
            ("top_radius"@, Decimal { mantissa: 0, scale: 0 }),
            ("height"@, Decimal { mantissa: 6, scale: 0 }),
        ]
    } else if style == "chamfer_ring"@ {
        seq![
            ("base_radius"@, Decimal { mantissa: 20, scale: 0 }),
            ("top_radius"@, Decimal { mantissa: 14, scale: 0 }),
            ("height"@, Decimal { mantissa: 4, scale: 0 }),
        ]
    } else if style == "bullet"@ {
        seq![
            ("base_radius"@, Decimal { mantissa: 8, scale: 0 }),
            ("top_radius"@, Decimal { mantissa: 0, scale: 0 }),
            ("height"@, Decimal { mantissa: 20, scale: 0 }),
        ]
    } else if style == "rocket_nose"@ {
        seq![
            ("base_radius"@, Decimal { mantissa: 15, scale: 0 }),
            ("top_radius"@, Decimal { mantissa: 0, scale: 0 }),
            ("height"@, Decimal { mantissa: 60, scale: 0 }),
        ]
    } else if style == "drill_tip"@ {
        seq![
            ("base_radius"@, Decimal { mantissa: 10, scale: 0 }),
            ("top_radius"@, Decimal { mantissa: 0, scale: 0 }),
            ("height"@, Decimal { mantissa: 9, scale: 0 }),
        ]
    } else if style == "taper_pin"@ {
        seq![
            ("base_radius"@, Decimal { mantissa: 6, scale: 0 }),
            ("top_radius"@, Decimal { mantissa: 4, scale: 0 }),
            ("height"@, Decimal { mantissa: 40, scale: 0 }),
        ]
    } else if style == "spike"@ {
        seq![
            ("base_radius"@, Decimal { mantissa: 3, scale: 0 }),
            ("top_radius"@, Decimal { mantissa: 0, scale: 0 }),
            ("height"@, Decimal { mantissa: 30, scale: 0 }),
        ]
    } else if style == "cup_cone"@ {
        seq![
            ("base_radius"@, Decimal { mantissa: 5, scale: 0 }),
            ("top_radius"@, Decimal { mantissa: 25, scale: 0 }),
            ("height"@, Decimal { mantissa: 20, scale: 0 }),
        ]
    } else if style == "conical_seat"@ {
        seq![
            ("base_radius"@, Decimal { mantissa: 20, scale: 0 }),
            ("top_radius"@, Decimal { mantissa: 10, scale: 0 }),
            ("height"@, Decimal { mantissa: 8, scale: 0 }),
        ]
    } else if style == "diffuser"@ {
        seq![
            ("base_radius"@, Decimal { mantissa: 8, scale: 0 }),
            ("top_radius"@, Decimal { mantissa: 25, scale: 0 }),
            ("height"@, Decimal { mantissa: 35, scale: 0 }),
        ]
    } else if style == "mandrel"@ {
        seq![
            ("base_radius"@, Decimal { mantissa: 25, scale: 0 }),
            ("top_radius"@, Decimal { mantissa: 18, scale: 0 }),
            ("height"@, Decimal { mantissa: 80, scale: 0 }),
        ]
    } else {
        Seq::empty()
    }
}

fn cone_styles_of(style: &Vec<char>) -> (r: Vec<(&'static str, Decimal)>)
    ensures
        preset_view(r@) == cone_styles(style@),
{
    if vec_eq_str(style, "sharp") {
        let r = vec![
            ("base_radius", Decimal { mantissa: 15, scale: 0 }),
            ("top_radius", Decimal { mantissa: 0, scale: 0 }),
            ("height", Decimal { mantissa: 40, scale: 0 }),
        ];
        assert(preset_view(r@) =~= cone_styles(style@));
        r
    } else if vec_eq_str(style, "frustum") {
        let r = vec![
            ("base_radius", Decimal { mantissa: 20, scale: 0 }),
            ("top_radius", Decimal { mantissa: 12, scale: 0 }),
            ("height", Decimal { mantissa: 25, scale: 0 }),
        ];
        assert(preset_view(r@) =~= cone_styles(style@));
        r
    } else if vec_eq_str(style, "nozzle") {
        let r = vec![
            ("base_radius", Decimal { mantissa: 20, scale: 0 }),
            ("top_radius", Decimal { mantissa: 5, scale: 0 }),
            ("height", Decimal { mantissa: 30, scale: 0 }),
        ];
        assert(preset_view(r@) =~= cone_styles(style@));
        r
    } else if vec_eq_str(style, "funnel") {
        let r = vec![
            ("base_radius", Decimal { mantissa: 40, scale: 0 }),
            ("top_radius", Decimal { mantissa: 8, scale: 0 }),
            ("height", Decimal { mantissa: 50, scale: 0 }),
        ];
        assert(preset_view(r@) =~= cone_styles(style@));
        r
    } else if vec_eq_str(style, "countersink") {
        let r = vec![
            ("base_radius", Decimal { mantissa: 12, scale: 0 }),
            ("top_radius", Decimal { mantissa: 0, scale: 0 }),
            ("height", Decimal { mantissa: 6, scale: 0 }),
        ];
        assert(preset_view(r@) =~= cone_styles(style@));
        r
    } else if vec_eq_str(style, "chamfer_ring") {
        let r = vec![
            ("base_radius", Decimal { mantissa: 20, scale: 0 }),
            ("top_radius", Decimal { mantissa: 14, scale: 0 }),
            ("height", Decimal { mantissa: 4, scale: 0 }),
        ];
        assert(preset_view(r@) =~= cone_styles(style@));
        r
    } else if vec_eq_str(style, "bullet") {
        let r = vec![
            ("base_radius", Decimal { mantissa: 8, scale: 0 }),
            ("top_radius", Decimal { mantissa: 0, scale: 0 }),
            ("height", Decimal { mantissa: 20, scale: 0 }),
        ];
        assert(preset_view(r@) =~= cone_styles(style@));
        r
    } else if vec_eq_str(style, "rocket_nose") {
        let r = vec![
            ("base_radius", Decimal { mantissa: 15, scale: 0 }),
            ("top_radius", Decimal { mantissa: 0, scale: 0 }),
            ("height", Decimal { mantissa: 60, scale: 0 }),
        ];
        assert(preset_view(r@) =~= cone_styles(style@));
        r
    } else if vec_eq_str(style, "drill_tip") {
        let r = vec![
            ("base_radius", Decimal { mantissa: 10, scale: 0 }),
            ("top_radius", Decimal { mantissa: 0, scale: 0 }),
            ("height", Decimal { mantissa: 9, scale: 0 }),
        ];
        assert(preset_view(r@) =~= cone_styles(style@));
        r
    } else if vec_eq_str(style, "taper_pin") {
        let r = vec![
            ("base_radius", Decimal { mantissa: 6, scale: 0 }),
            ("top_radius", Decimal { mantissa: 4, scale: 0 }),
            ("height", Decimal { mantissa: 40, scale: 0 }),
        ];
        assert(preset_view(r@) =~= cone_styles(style@));
        r
    } else if vec_eq_str(style, "spike") {
        let r = vec![
            ("base_radius", Decimal { mantissa: 3, scale: 0 }),
            ("top_radius", Decimal { mantissa: 0, scale: 0 }),
            ("height", Decimal { mantissa: 30, scale: 0 }),
        ];
        assert(preset_view(r@) =~= cone_styles(style@));
        r
    } else if vec_eq_str(style, "cup_cone") {
        let r = vec![
            ("base_radius", Decimal { mantissa: 5, scale: 0 }),
            ("top_radius", Decimal { mantissa: 25, scale: 0 }),
            ("height", Decimal { mantissa: 20, scale: 0 }),
        ];
        assert(preset_view(r@) =~= cone_styles(style@));
        r
    } else if vec_eq_str(style, "conical_seat") {
        let r = vec![
            ("base_radius", Decimal { mantissa: 20, scale: 0 }),
            ("top_radius", Decimal { mantissa: 10, scale: 0 }),
            ("height", Decimal { mantissa: 8, scale: 0 }),
        ];
        assert(preset_view(r@) =~= cone_styles(style@));
        r
    } else if vec_eq_str(style, "diffuser") {
        let r = vec![
            ("base_radius", Decimal { mantissa: 8, scale: 0 }),
            ("top_radius", Decimal { mantissa: 25, scale: 0 }),
            ("height", Decimal { mantissa: 35, scale: 0 }),
        ];
        assert(preset_view(r@) =~= cone_styles(style@));
        r
    } else if vec_eq_str(style, "mandrel") {
        let r = vec![
            ("base_radius", Decimal { mantissa: 25, scale: 0 }),
            ("top_radius", Decimal { mantissa: 18, scale: 0 }),
            ("height", Decimal { mantissa: 80, scale: 0 }),
        ];
        assert(preset_view(r@) =~= cone_styles(style@));
        r
    } else {
        let r: Vec<(&'static str, Decimal)> = Vec::new();
        assert(preset_view(r@) =~= cone_styles(style@));
        r
    }
}

/// The presets of the torus styles.
pub open spec fn torus_styles(style: Seq<char>) -> Seq<(Seq<char>, Decimal)> {
    if style == "o_ring"@ {
        seq![
            ("major"@, Decimal { mantissa: 15, scale: 0 }),
            ("minor"@, Decimal { mantissa: 15, scale: 1 }),
        ]
    } else if style == "gasket"@ {
        seq![
            ("major"@, Decimal { mantissa: 25, scale: 0 }),
            ("minor"@, Decimal { mantissa: 5, scale: 0 }),
        ]
    } else if style == "snap_ring"@ {
        seq![
            ("major"@, Decimal { mantissa: 20, scale: 0 }),
            ("minor"@, Decimal { mantissa: 2, scale: 0 }),
        ]
    } else if style == "circlip"@ {
        seq![
            ("major"@, Decimal { mantissa: 12, scale: 0 }),
            ("minor"@, Decimal { mantissa: 15, scale: 1 }),
        ]
    } else if style == "pipe_elbow"@ {
        seq![
            ("major"@, Decimal { mantissa: 20, scale: 0 }),
            ("minor"@, Decimal { mantissa: 8, scale: 0 }),
        ]
    } else if style == "donut"@ {
        seq![
            ("major"@, Decimal { mantissa: 20, scale: 0 }),
            ("minor"@, Decimal { mantissa: 10, scale: 0 }),
        ]
    } else if style == "tire_profile"@ {
        seq![
            ("major"@, Decimal { mantissa: 60, scale: 0 }),
            ("minor"@, Decimal { mantissa: 20, scale: 0 }),
        ]
    } else if style == "rim_ring"@ {
        seq![
            ("major"@, Decimal { mantissa: 50, scale: 0 }),
            ("minor"@, Decimal { mantissa: 4, scale: 0 }),
        ]
    } else if style == "coil_form"@ {
        seq![
            ("major"@, Decimal { mantissa: 15, scale: 0 }),
            ("minor"@, Decimal { mantissa: 3, scale: 0 }),
        ]
    } else if style == "anchor_ring"@ {
        seq![
            ("major"@, Decimal { mantissa: 30, scale: 0 }),
            ("minor"@, Decimal { mantissa: 12, scale: 0 }),
        ]
    } else if style == "bearing_race"@ {
        seq![
            ("major"@, Decimal { mantissa: 25, scale: 0 }),
            ("minor"@, Decimal { mantissa: 5, scale: 0 }),
        ]
    } else if style == "weld_ring"@ {
        seq![
            ("major"@, Decimal { mantissa: 20, scale: 0 }),
            ("minor"@, Decimal { mantissa: 3, scale: 0 }),
        ]
    } else if style == "v_seal"@ {
        seq![
            ("major"@, Decimal { mantissa: 18, scale: 0 }),
            ("minor"@, Decimal { mantissa: 4, scale: 0 }),
        ]
    } else if style == "crown_ring"@ {
        seq![
            ("major"@, Decimal { mantissa: 22, scale: 0 }),
            ("minor"@, Decimal { mantissa: 6, scale: 0 }),
        ]
    } else if style == "bracelet"@ {
        seq![
            ("major"@, Decimal { mantissa: 30, scale: 0 }),
            ("minor"@, Decimal { mantissa: 8, scale: 0 }),
        ]
    } else {
        Seq::empty()
    }
}

fn torus_styles_of(style: &Vec<char>) -> (r: Vec<(&'static str, Decimal)>)
    ensures
        preset_view(r@) == torus_styles(style@),
{
    if vec_eq_str(style, "o_ring") {
        let r = vec![
            ("major", Decimal { mantissa: 15, scale: 0 }),
            ("minor", Decimal { mantissa: 15, scale: 1 }),
        ];
        assert(preset_view(r@) =~= torus_styles(style@));
        r
    } else if vec_eq_str(style, "gasket") {
        let r = vec![
            ("major", Decimal { mantissa: 25, scale: 0 }),
            ("minor", Decimal { mantissa: 5, scale: 0 }),
        ];
        assert(preset_view(r@) =~= torus_styles(style@));
        r
    } else if vec_eq_str(style, "snap_ring") {
        let r = vec![
            ("major", Decimal { mantissa: 20, scale: 0 }),
            ("minor", Decimal { mantissa: 2, scale: 0 }),
        ];
        assert(preset_view(r@) =~= torus_styles(style@));
        r
    } else if vec_eq_str(style, "circlip") {
        let r = vec![
            ("major", Decimal { mantissa: 12, scale: 0 }),
            ("minor", Decimal { mantissa: 15, scale: 1 }),
        ];
        assert(preset_view(r@) =~= torus_styles(style@));
        r
    } else if vec_eq_str(style, "pipe_elbow") {
        let r = vec![
            ("major", Decimal { mantissa: 20, scale: 0 }),
            ("minor", Decimal { mantissa: 8, scale: 0 }),
        ];
        assert(preset_view(r@) =~= torus_styles(style@));
        r
    } else if vec_eq_str(style, "donut") {
        let r = vec![
            ("major", Decimal { mantissa: 20, scale: 0 }),
            ("minor", Decimal { mantissa: 10, scale: 0 }),
        ];
        assert(preset_view(r@) =~= torus_styles(style@));
        r
    } else if vec_eq_str(style, "tire_profile") {
        let r = vec![
            ("major", Decimal { mantissa: 60, scale: 0 }),
            ("minor", Decimal { mantissa: 20, scale: 0 }),
        ];
        assert(preset_view(r@) =~= torus_styles(style@));
        r
    } else if vec_eq_str(style, "rim_ring") {
        let r = vec![
            ("major", Decimal { mantissa: 50, scale: 0 }),
            ("minor", Decimal { mantissa: 4, scale: 0 }),
        ];
        assert(preset_view(r@) =~= torus_styles(style@));
        r
    } else if vec_eq_str(style, "coil_form") {
        let r = vec![
            ("major", Decimal { mantissa: 15, scale: 0 }),
            ("minor", Decimal { mantissa: 3, scale: 0 }),
        ];
        assert(preset_view(r@) =~= torus_styles(style@));
        r
    } else if vec_eq_str(style, "anchor_ring") {
        let r = vec![
            ("major", Decimal { mantissa: 30, scale: 0 }),
            ("minor", Decimal { mantissa: 12, scale: 0 }),
        ];
        assert(preset_view(r@) =~= torus_styles(style@));
        r
    } else if vec_eq_str(style, "bearing_race") {
        let r = vec![
            ("major", Decimal { mantissa: 25, scale: 0 }),
            ("minor", Decimal { mantissa: 5, scale: 0 }),
        ];
        assert(preset_view(r@) =~= torus_styles(style@));
        r
    } else if vec_eq_str(style, "weld_ring") {
        let r = vec![
            ("major", Decimal { mantissa: 20, scale: 0 }),
            ("minor", Decimal { mantissa: 3, scale: 0 }),
        ];
        assert(preset_view(r@) =~= torus_styles(style@));
        r
    } else if vec_eq_str(style, "v_seal") {
        let r = vec![
            ("major", Decimal { mantissa: 18, scale: 0 }),
            ("minor", Decimal { mantissa: 4, scale: 0 }),
        ];
        assert(preset_view(r@) =~= torus_styles(style@));
        r
    } else if vec_eq_str(style, "crown_ring") {
        let r = vec![
            ("major", Decimal { mantissa: 22, scale: 0 }),
            ("minor", Decimal { mantissa: 6, scale: 0 }),
        ];
        assert(preset_view(r@) =~= torus_styles(style@));
        r
    } else if vec_eq_str(style, "bracelet") {
        let r = vec![
            ("major", Decimal { mantissa: 30, scale: 0 }),
            ("minor", Decimal { mantissa: 8, scale: 0 }),
        ];
        assert(preset_view(r@) =~= torus_styles(style@));
        r
    } else {
        let r: Vec<(&'static str, Decimal)> = Vec::new();
        assert(preset_view(r@) =~= torus_styles(style@));
        r
    }
}

/// The presets of the pyramid styles.
pub open spec fn pyramid_styles(style: Seq<char>) -> Seq<(Seq<char>, Decimal)> {
    if style == "square_pyramid"@ {
        seq![
            ("base_width"@, Decimal { mantissa: 30, scale: 0 }),
            ("base_depth"@, Decimal { mantissa: 30, scale: 0 }),
            ("height"@, Decimal { mantissa: 40, scale: 0 }),
        ]
    } else if style == "tetrahedron"@ {
        seq![
            ("base_width"@, Decimal { mantissa: 25, scale: 0 }),
            ("base_depth"@, Decimal { mantissa: 25, scale: 0 }),
            ("height"@, Decimal { mantissa: 35, scale: 0 }),
        ]
    } else if style == "obelisk"@ {
        seq![
            ("base_width"@, Decimal { mantissa: 12, scale: 0 }),
            ("base_depth"@, Decimal { mantissa: 12, scale: 0 }),
            ("height"@, Decimal { mantissa: 80, scale: 0 }),
        ]
    } else if style == "low_pyramid"@ {
        seq![
            ("base_width"@, Decimal { mantissa: 60, scale: 0 }),
            ("base_depth"@, Decimal { mantissa: 60, scale: 0 }),
            ("height"@, Decimal { mantissa: 10, scale: 0 }),
        ]
    } else if style == "steep_pyramid"@ {
        seq![
            ("base_width"@, Decimal { mantissa: 20, scale: 0 }),
            ("base_depth"@, Decimal { mantissa: 20, scale: 0 }),
            ("height"@, Decimal { mantissa: 60, scale: 0 }),
        ]
    } else if style == "hip_roof"@ {
        seq![
            ("base_width"@, Decimal { mantissa: 80, scale: 0 }),
            ("base_depth"@, Decimal { mantissa: 50, scale: 0 }),
            ("height"@, Decimal { mantissa: 25, scale: 0 }),
        ]
    } else if style == "diamond_tip"@ {
        seq![
            ("base_width"@, Decimal { mantissa: 20, scale: 0 }),
            ("base_depth"@, Decimal { mantissa: 20, scale: 0 }),
            ("height"@, Decimal { mantissa: 15, scale: 0 }),
        ]
    } else if style == "arrowhead"@ {
        seq![
            ("base_width"@, Decimal { mantissa: 30, scale: 0 }),
            ("base_depth"@, Decimal { mantissa: 10, scale: 0 }),
            ("height"@, Decimal { mantissa: 20, scale: 0 }),
        ]
    } else if style == "ramp"@ {
        seq![
            ("base_width"@, Decimal { mantissa: 60, scale: 0 }),
            ("base_depth"@, Decimal { mantissa: 30, scale: 0 }),
            ("height"@, Decimal { mantissa: 20, scale: 0 }),
        ]
    } else if style == "chisel"@ {
        seq![
            ("base_width"@, Decimal { mantissa: 20, scale: 0 }),
            ("base_depth"@, Decimal { mantissa: 5, scale: 0 }),
            ("height"@, Decimal { mantissa: 30, scale: 0 }),
        ]
    } else if style == "marker"@ {
        seq![
            ("base_width"@, Decimal { mantissa: 10, scale: 0 }),
            ("base_depth"@, Decimal { mantissa: 10, scale: 0 }),
            ("height"@, Decimal { mantissa: 12, scale: 0 }),
        ]
    } else if style == "frustum_pyramid"@ {
        seq![
            ("base_width"@, Decimal { mantissa: 40, scale: 0 }),
            ("base_depth"@, Decimal { mantissa: 40, scale: 0 }),
            ("height"@, Decimal { mantissa: 30, scale: 0 }),
        ]
    } else if style == "temple"@ {
        seq![
            ("base_width"@, Decimal { mantissa: 80, scale: 0 }),
            ("base_depth"@, Decimal { mantissa: 80, scale: 0 }),
            ("height"@, Decimal { mantissa: 15, scale: 0 }),
        ]
    } else if style == "spire"@ {
        seq![
            ("base_width"@, Decimal { mantissa: 10, scale: 0 }),
            ("base_depth"@, Decimal { mantissa: 10, scale: 0 }),
            ("height"@, Decimal { mantissa: 100, scale: 0 }),
        ]
    } else if style == "tent"@ {
        seq![
            ("base_width"@, Decimal { mantissa: 50, scale: 0 }),
            ("base_depth"@, Decimal { mantissa: 40, scale: 0 }),
            ("height"@, Decimal { mantissa: 18, scale: 0 }),
        ]
    } else {
        Seq::empty()
    }
}

fn pyramid_styles_of(style: &Vec<char>) -> (r: Vec<(&'static str, Decimal)>)
    ensures
        preset_view(r@) == pyramid_styles(style@),
{
    if vec_eq_str(style, "square_pyramid") {
        let r = vec![
            ("base_width", Decimal { mantissa: 30, scale: 0 }),
            ("base_depth", Decimal { mantissa: 30, scale: 0 }),
            ("height", Decimal { mantissa: 40, scale: 0 }),
        ];
        assert(preset_view(r@) =~= pyramid_styles(style@));
        r
    } else if vec_eq_str(style, "tetrahedron") {
        let r = vec![
            ("base_width", Decimal { mantissa: 25, scale: 0 }),
            ("base_depth", Decimal { mantissa: 25, scale: 0 }),
            ("height", Decimal { mantissa: 35, scale: 0 }),
        ];
        assert(preset_view(r@) =~= pyramid_styles(style@));
        r
    } else if vec_eq_str(style, "obelisk") {
        let r = vec![
            ("base_width", Decimal { mantissa: 12, scale: 0 }),
            ("base_depth", Decimal { mantissa: 12, scale: 0 }),
            ("height", Decimal { mantissa: 80, scale: 0 }),
        ];
        assert(preset_view(r@) =~= pyramid_styles(style@));
        r
    } else if vec_eq_str(style, "low_pyramid") {
        let r = vec![
            ("base_width", Decimal { mantissa: 60, scale: 0 }),
            ("base_depth", Decimal { mantissa: 60, scale: 0 }),
            ("height", Decimal { mantissa: 10, scale: 0 }),
        ];
        assert(preset_view(r@) =~= pyramid_styles(style@));
        r
    } else if vec_eq_str(style, "steep_pyramid") {
        let r = vec![
            ("base_width", Decimal { mantissa: 20, scale: 0 }),
            ("base_depth", Decimal { mantissa: 20, scale: 0 }),
            ("height", Decimal { mantissa: 60, scale: 0 }),
        ];
        assert(preset_view(r@) =~= pyramid_styles(style@));
        r
    } else if vec_eq_str(style, "hip_roof") {
        let r = vec![
            ("base_width", Decimal { mantissa: 80, scale: 0 }),
            ("base_depth", Decimal { mantissa: 50, scale: 0 }),
            ("height", Decimal { mantissa: 25, scale: 0 }),
        ];
        assert(preset_view(r@) =~= pyramid_styles(style@));
        r
    } else if vec_eq_str(style, "diamond_tip") {
        let r = vec![
            ("base_width", Decimal { mantissa: 20, scale: 0 }),
            ("base_depth", Decimal { mantissa: 20, scale: 0 }),
            ("height", Decimal { mantissa: 15, scale: 0 }),
        ];
        assert(preset_view(r@) =~= pyramid_styles(style@));
        r
    } else if vec_eq_str(style, "arrowhead") {
        let r = vec![
            ("base_width", Decimal { mantissa: 30, scale: 0 }),
            ("base_depth", Decimal { mantissa: 10, scale: 0 }),
            ("height", Decimal { mantissa: 20, scale: 0 }),
        ];
        assert(preset_view(r@) =~= pyramid_styles(style@));
        r
    } else if vec_eq_str(style, "ramp") {
        let r = vec![
            ("base_width", Decimal { mantissa: 60, scale: 0 }),
            ("base_depth", Decimal { mantissa: 30, scale: 0 }),
            ("height", Decimal { mantissa: 20, scale: 0 }),
        ];
        assert(preset_view(r@) =~= pyramid_styles(style@));
        r
    } else if vec_eq_str(style, "chisel") {
        let r = vec![
            ("base_width", Decimal { mantissa: 20, scale: 0 }),
            ("base_depth", Decimal { mantissa: 5, scale: 0 }),
            ("height", Decimal { mantissa: 30, scale: 0 }),
        ];
        assert(preset_view(r@) =~= pyramid_styles(style@));
        r
    } else if vec_eq_str(style, "marker") {
        let r = vec![
            ("base_width", Decimal { mantissa: 10, scale: 0 }),
            ("base_depth", Decimal { mantissa: 10, scale: 0 }),
            ("height", Decimal { mantissa: 12, scale: 0 }),
        ];
        assert(preset_view(r@) =~= pyramid_styles(style@));
        r
    } else if vec_eq_str(style, "frustum_pyramid") {
        let r = vec![
            ("base_width", Decimal { mantissa: 40, scale: 0 }),
            ("base_depth", Decimal { mantissa: 40, scale: 0 }),
            ("height", Decimal { mantissa: 30, scale: 0 }),
        ];
        assert(preset_view(r@) =~= pyramid_styles(style@));
        r
    } else if vec_eq_str(style, "temple") {
        let r = vec![
            ("base_width", Decimal { mantissa: 80, scale: 0 }),
            ("base_depth", Decimal { mantissa: 80, scale: 0 }),
            ("height", Decimal { mantissa: 15, scale: 0 }),
        ];
        assert(preset_view(r@) =~= pyramid_styles(style@));
        r
    } else if vec_eq_str(style, "spire") {
        let r = vec![
            ("base_width", Decimal { mantissa: 10, scale: 0 }),
            ("base_depth", Decimal { mantissa: 10, scale: 0 }),
            ("height", Decimal { mantissa: 100, scale: 0 }),
        ];
        assert(preset_view(r@) =~= pyramid_styles(style@));
        r
    } else if vec_eq_str(style, "tent") {
        let r = vec![
            ("base_width", Decimal { mantissa: 50, scale: 0 }),
            ("base_depth", Decimal { mantissa: 40, scale: 0 }),
            ("height", Decimal { mantissa: 18, scale: 0 }),
        ];
        assert(preset_view(r@) =~= pyramid_styles(style@));
        r
    } else {
        let r: Vec<(&'static str, Decimal)> = Vec::new();
        assert(preset_view(r@) =~= pyramid_styles(style@));
        r
    }
}

/// The presets of the prism styles.
pub open spec fn prism_styles(style: Seq<char>) -> Seq<(Seq<char>, Decimal)> {
    if style == "triangle"@ {
        seq![
            ("sides"@, Decimal { mantissa: 3, scale: 0 }),
            ("flat_to_flat"@, Decimal { mantissa: 20, scale: 0 }),
            ("height"@, Decimal { mantissa: 30, scale: 0 }),
        ]
    } else if style == "square"@ {
        seq![
            ("sides"@, Decimal { mantissa: 4, scale: 0 }),
            ("flat_to_flat"@, Decimal { mantissa: 20, scale: 0 }),
            ("height"@, Decimal { mantissa: 30, scale: 0 }),
        ]
    } else if style == "pentagon"@ {
        seq![
            ("sides"@, Decimal { mantissa: 5, scale: 0 }),
            ("flat_to_flat"@, Decimal { mantissa: 18, scale: 0 }),
            ("height"@, Decimal { mantissa: 25, scale: 0 }),
        ]
    } else if style == "hex"@ {
        seq![
            ("sides"@, Decimal { mantissa: 6, scale: 0 }),
            ("flat_to_flat"@, Decimal { mantissa: 19, scale: 0 }),
            ("height"@, Decimal { mantissa: 8, scale: 0 }),
        ]
    } else if style == "heptagon"@ {
        seq![
            ("sides"@, Decimal { mantissa: 7, scale: 0 }),
            ("flat_to_flat"@, Decimal { mantissa: 18, scale: 0 }),
            ("height"@, Decimal { mantissa: 25, scale: 0 }),
        ]
    } else if style == "octagon"@ {
        seq![
            ("sides"@, Decimal { mantissa: 8, scale: 0 }),
            ("flat_to_flat"@, Decimal { mantissa: 20, scale: 0 }),
            ("height"@, Decimal { mantissa: 25, scale: 0 }),
        ]
    } else if style == "decagon"@ {
        seq![
            ("sides"@, Decimal { mantissa: 10, scale: 0 }),
            ("flat_to_flat"@, Decimal { mantissa: 20, scale: 0 }),
            ("height"@, Decimal { mantissa: 25, scale: 0 }),
        ]
    } else if style == "hex_bar"@ {
        seq![
            ("sides"@, Decimal { mantissa: 6, scale: 0 }),
            ("flat_to_flat"@, Decimal { mantissa: 19, scale: 0 }),
            ("height"@, Decimal { mantissa: 120, scale: 0 }),
        ]
    } else if style == "triangle_bar"@ {
        seq![
            ("sides"@, Decimal { mantissa: 3, scale: 0 }),
            ("flat_to_flat"@, Decimal { mantissa: 15, scale: 0 }),
            ("height"@, Decimal { mantissa: 100, scale: 0 }),
        ]
    } else if style == "hex_standoff"@ {
        seq![
            ("sides"@, Decimal { mantissa: 6, scale: 0 }),
            ("flat_to_flat"@, Decimal { mantissa: 8, scale: 0 }),
            ("height"@, Decimal { mantissa: 20, scale: 0 }),
        ]
    } else if style == "hex_socket"@ {
        seq![
            ("sides"@, Decimal { mantissa: 6, scale: 0 }),
            ("flat_to_flat"@, Decimal { mantissa: 10, scale: 0 }),
            ("height"@, Decimal { mantissa: 12, scale: 0 }),
        ]
    } else if style == "spline_approx"@ {
        seq![
            ("sides"@, Decimal { mantissa: 18, scale: 0 }),
            ("flat_to_flat"@, Decimal { mantissa: 20, scale: 0 }),
            ("height"@, Decimal { mantissa: 50, scale: 0 }),
        ]
    } else if style == "diamond_prism"@ {
        seq![
            ("sides"@, Decimal { mantissa: 4, scale: 0 }),
            ("flat_to_flat"@, Decimal { mantissa: 14, scale: 0 }),
            ("height"@, Decimal { mantissa: 30, scale: 0 }),
        ]
    } else if style == "key_prism"@ {
        seq![
            ("sides"@, Decimal { mantissa: 4, scale: 0 }),
            ("flat_to_flat"@, Decimal { mantissa: 6, scale: 0 }),
            ("height"@, Decimal { mantissa: 15, scale: 0 }),
        ]
    } else if style == "allen_key"@ {
        seq![
            ("sides"@, Decimal { mantissa: 6, scale: 0 }),
            ("flat_to_flat"@, Decimal { mantissa: 5, scale: 0 }),
            ("height"@, Decimal { mantissa: 60, scale: 0 }),
        ]
    } else {
        Seq::empty()
    }
}

fn prism_styles_of(style: &Vec<char>) -> (r: Vec<(&'static str, Decimal)>)
    ensures
        preset_view(r@) == prism_styles(style@),
{
    if vec_eq_str(style, "triangle") {
        let r = vec![
            ("sides", Decimal { mantissa: 3, scale: 0 }),
            ("flat_to_flat", Decimal { mantissa: 20, scale: 0 }),
            ("height", Decimal { mantissa: 30, scale: 0 }),
        ];
        assert(preset_view(r@) =~= prism_styles(style@));
        r
    } else if vec_eq_str(style, "square") {
        let r = vec![
            ("sides", Decimal { mantissa: 4, scale: 0 }),
            ("flat_to_flat", Decimal { mantissa: 20, scale: 0 }),
            ("height", Decimal { mantissa: 30, scale: 0 }),
        ];
        assert(preset_view(r@) =~= prism_styles(style@));
        r
    } else if vec_eq_str(style, "pentagon") {
        let r = vec![
            ("sides", Decimal { mantissa: 5, scale: 0 }),
            ("flat_to_flat", Decimal { mantissa: 18, scale: 0 }),
            ("height", Decimal { mantissa: 25, scale: 0 }),
        ];
        assert(preset_view(r@) =~= prism_styles(style@));
        r
    } else if vec_eq_str(style, "hex") {
        let r = vec![
            ("sides", Decimal { mantissa: 6, scale: 0 }),
            ("flat_to_flat", Decimal { mantissa: 19, scale: 0 }),
            ("height", Decimal { mantissa: 8, scale: 0 }),
        ];
        assert(preset_view(r@) =~= prism_styles(style@));
        r
    } else if vec_eq_str(style, "heptagon") {
        let r = vec![
            ("sides", Decimal { mantissa: 7, scale: 0 }),
            ("flat_to_flat", Decimal { mantissa: 18, scale: 0 }),
            ("height", Decimal { mantissa: 25, scale: 0 }),
        ];
        assert(preset_view(r@) =~= prism_styles(style@));
        r
    } else if vec_eq_str(style, "octagon") {
        let r = vec![
            ("sides", Decimal { mantissa: 8, scale: 0 }),
            ("flat_to_flat", Decimal { mantissa: 20, scale: 0 }),
            ("height", Decimal { mantissa: 25, scale: 0 }),
        ];
        assert(preset_view(r@) =~= prism_styles(style@));
        r
    } else if vec_eq_str(style, "decagon") {
        let r = vec![
            ("sides", Decimal { mantissa: 10, scale: 0 }),
            ("flat_to_flat", Decimal { mantissa: 20, scale: 0 }),
            ("height", Decimal { mantissa: 25, scale: 0 }),
        ];
        assert(preset_view(r@) =~= prism_styles(style@));
        r
    } else if vec_eq_str(style, "hex_bar") {
        let r = vec![
            ("sides", Decimal { mantissa: 6, scale: 0 }),
            ("flat_to_flat", Decimal { mantissa: 19, scale: 0 }),
            ("height", Decimal { mantissa: 120, scale: 0 }),
        ];
        assert(preset_view(r@) =~= prism_styles(style@));
        r
    } else if vec_eq_str(style, "triangle_bar") {
        let r = vec![
            ("sides", Decimal { mantissa: 3, scale: 0 }),
            ("flat_to_flat", Decimal { mantissa: 15, scale: 0 }),
            ("height", Decimal { mantissa: 100, scale: 0 }),
        ];
        assert(preset_view(r@) =~= prism_styles(style@));
        r
    } else if vec_eq_str(style, "hex_standoff") {
        let r = vec![
            ("sides", Decimal { mantissa: 6, scale: 0 }),
            ("flat_to_flat", Decimal { mantissa: 8, scale: 0 }),
            ("height", Decimal { mantissa: 20, scale: 0 }),
        ];
        assert(preset_view(r@) =~= prism_styles(style@));
        r
    } else if vec_eq_str(style, "hex_socket") {
        let r = vec![
            ("sides", Decimal { mantissa: 6, scale: 0 }),
            ("flat_to_flat", Decimal { mantissa: 10, scale: 0 }),
            ("height", Decimal { mantissa: 12, scale: 0 }),
        ];
        assert(preset_view(r@) =~= prism_styles(style@));
        r
    } else if vec_eq_str(style, "spline_approx") {
        let r = vec![
            ("sides", Decimal { mantissa: 18, scale: 0 }),
            ("flat_to_flat", Decimal { mantissa: 20, scale: 0 }),
            ("height", Decimal { mantissa: 50, scale: 0 }),
        ];
        assert(preset_view(r@) =~= prism_styles(style@));
        r
    } else if vec_eq_str(style, "diamond_prism") {
        let r = vec![
            ("sides", Decimal { mantissa: 4, scale: 0 }),
            ("flat_to_flat", Decimal { mantissa: 14, scale: 0 }),
            ("height", Decimal { mantissa: 30, scale: 0 }),
        ];
        assert(preset_view(r@) =~= prism_styles(style@));
        r
    } else if vec_eq_str(style, "key_prism") {
        let r = vec![
            ("sides", Decimal { mantissa: 4, scale: 0 }),
            ("flat_to_flat", Decimal { mantissa: 6, scale: 0 }),
            ("height", Decimal { mantissa: 15, scale: 0 }),
        ];
        assert(preset_view(r@) =~= prism_styles(style@));
        r
    } else if vec_eq_str(style, "allen_key") {
        let r = vec![
            ("sides", Decimal { mantissa: 6, scale: 0 }),
            ("flat_to_flat", Decimal { mantissa: 5, scale: 0 }),
            ("height", Decimal { mantissa: 60, scale: 0 }),
        ];
        assert(preset_view(r@) =~= prism_styles(style@));
        r
    } else {
        let r: Vec<(&'static str, Decimal)> = Vec::new();
        assert(preset_view(r@) =~= prism_styles(style@));
        r
    }
}

/// The presets of a named style of a primitive kind, in the order they are
/// listed; an unknown style has none.
pub open spec fn spec_style_defaults(kind: PrimKind, style: Seq<char>) -> Seq<(Seq<char>, Decimal)> {
    match kind {
        PrimKind::Cube => cube_styles(style),
        PrimKind::Sphere => sphere_styles(style),
        PrimKind::Cylinder => cylinder_styles(style),
        PrimKind::Cone => cone_styles(style),
        PrimKind::Torus => torus_styles(style),
        PrimKind::Pyramid => pyramid_styles(style),
        PrimKind::Prism => prism_styles(style),
    }
}

/// The presets of the style `style` of primitive kind `kind`.
pub fn style_defaults(kind: PrimKind, style: &str) -> (r: Vec<(&'static str, Decimal)>)
    ensures
        r@.map_values(|e: (&'static str, Decimal)| (e.0@, e.1)) == spec_style_defaults(kind, style@),
{
    let cs = chars_of(style);
    let r = match kind {
        PrimKind::Cube => cube_styles_of(&cs),
        PrimKind::Sphere => sphere_styles_of(&cs),
        PrimKind::Cylinder => cylinder_styles_of(&cs),
        PrimKind::Cone => cone_styles_of(&cs),
        PrimKind::Torus => torus_styles_of(&cs),
        PrimKind::Pyramid => pyramid_styles_of(&cs),
        PrimKind::Prism => prism_styles_of(&cs),
    };
    assert(r@.map_values(|e: (&'static str, Decimal)| (e.0@, e.1)) == preset_view(r@));
    r
}

} // verus!

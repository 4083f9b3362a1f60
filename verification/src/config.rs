//! Discrete world-generation settings.
use vstd::prelude::*;

verus! {

/// Sampling detail: the macro (world/region) or micro (zoomed) terrain.
#[derive(Debug, Clone, Copy, PartialEq, Eq, Structural)]
pub enum LodLevel {
    Macro,
    Micro,
}

/// Overall land layout of a world.
#[derive(Debug, Clone, Copy, PartialEq, Eq, Structural)]
pub enum ShapeProfile {
    Radial,
    Ellipse,
    SquareBump,
    Irregular,
    Archipelago,
    Continents,
}

/// The profile picked by `index`: `index % 6` in the order Radial, Ellipse,
/// SquareBump, Irregular, Archipelago, Continents.
pub open spec fn shape_profile_for(index: nat) -> ShapeProfile {
    let k = index % 6;
    if k == 0 {
        ShapeProfile::Radial
    } else if k == 1 {
        ShapeProfile::Ellipse
    } else if k == 2 {
        ShapeProfile::SquareBump
    } else if k == 3 {
        ShapeProfile::Irregular
    } else if k == 4 {
        ShapeProfile::Archipelago
    } else {
        ShapeProfile::Continents
    }
}

impl ShapeProfile {
    pub fn from_index(index: u32) -> (p: Self)
        ensures
            p == shape_profile_for(index as nat),
    {
        match index % 6 {
            0 => ShapeProfile::Radial,
            1 => ShapeProfile::Ellipse,
            2 => ShapeProfile::SquareBump,
            3 => ShapeProfile::Irregular,
            4 => ShapeProfile::Archipelago,
            _ => ShapeProfile::Continents,
        }
    }
}

/// The profile a world uses: the explicit one if set, else the one its seed picks.
pub open spec fn resolved_profile(explicit: Option<ShapeProfile>, seed: u64) -> ShapeProfile {
    match explicit {
        Some(p) => p,
        None => shape_profile_for(seed as nat),
    }
}

/// The land profile of a world with the given optional override and seed.
pub fn resolve_shape_profile(explicit: Option<ShapeProfile>, seed: u64) -> (p: ShapeProfile)
    ensures
        p == resolved_profile(explicit, seed),
{
    match explicit {
        Some(p) => p,
        None => ShapeProfile::from_index((seed % 6) as u32),
    }
}

/// Seeds six apart share a land profile when none is set explicitly.
pub proof fn law_profile_period_six(seed: nat)
    ensures
        shape_profile_for(seed) == shape_profile_for(seed + 6),
        shape_profile_for(seed) == shape_profile_for(seed % 6),
{
}

} // verus!

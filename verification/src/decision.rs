//! Decision tables: directives whose raw parameters admit more than one
//! descriptor shape are resolved here into exactly one.

use vstd::prelude::*;
use crate::values::{Resize, Rotation};

verus! {

/// The resize mode of a `(width, height, exact)` triple. A zero height asks
/// for a width only, whatever `exact` says; a zero width is looked at only
/// once the height is known to be non-zero; `exact` decides between the two
/// boxes last.
pub open spec fn resize_mode(width: u32, height: u32, exact: bool) -> Resize {
    if height == 0 {
        Resize::Width(width)
    } else if width == 0 {
        Resize::Height(height)
    } else if exact {
        Resize::ExactBox(width, height)
    } else {
        Resize::BoundingBox(width, height)
    }
}

pub fn resolve_resize(width: u32, height: u32, exact: bool) -> (mode: Resize)
    ensures
        mode == resize_mode(width, height, exact),
{
    if height == 0 {
        Resize::Width(width)
    } else if width == 0 {
        Resize::Height(height)
    } else if exact {
        Resize::ExactBox(width, height)
    } else {
        Resize::BoundingBox(width, height)
    }
}

/// The angle, in degrees, that a quarter-turn flag given `occurrences` times
/// adds up to.
pub open spec fn accumulated_degree(occurrences: nat) -> nat {
    (90 * occurrences) % 360
}

/// The rotation that a quarter-turn flag given `occurrences` times stands
/// for: none where the quarter turns add up to full turns.
pub open spec fn accumulated_rotation(occurrences: nat) -> Option<Rotation> {
    let degree = accumulated_degree(occurrences);
    if degree == 90 {
        Some(Rotation::Rotate90)
    } else if degree == 180 {
        Some(Rotation::Rotate180)
    } else if degree == 270 {
        Some(Rotation::Rotate270)
    } else {
        None
    }
}

proof fn lemma_degree_by_quarter(occurrences: nat)
    ensures
        accumulated_degree(occurrences) == 90 * (occurrences % 4),
{
    assert((90 * occurrences) % 360 == 90 * (occurrences % 4)) by (nonlinear_arith);
}

pub fn resolve_rotation(occurrences: u64) -> (rotation: Option<Rotation>)
    ensures
        rotation == accumulated_rotation(occurrences as nat),
{
    proof {
        lemma_degree_by_quarter(occurrences as nat);
    }
    let quarters: u64 = occurrences % 4;
    if quarters == 1 {
        Some(Rotation::Rotate90)
    } else if quarters == 2 {
        Some(Rotation::Rotate180)
    } else if quarters == 3 {
        Some(Rotation::Rotate270)
    } else {
        None
    }
}

/// Four more occurrences of the quarter-turn flag change nothing, and a
/// number of occurrences that four divides stands for no rotation at all.
pub proof fn rotation_has_period_four(occurrences: nat)
    ensures
        accumulated_rotation(occurrences + 4) == accumulated_rotation(occurrences),
        occurrences % 4 == 0 <==> accumulated_rotation(occurrences) is None,
        occurrences % 4 == 1 <==> accumulated_rotation(occurrences) == Some(Rotation::Rotate90),
        occurrences % 4 == 2 <==> accumulated_rotation(occurrences) == Some(Rotation::Rotate180),
        occurrences % 4 == 3 <==> accumulated_rotation(occurrences) == Some(Rotation::Rotate270),
{
    lemma_degree_by_quarter(occurrences);
    lemma_degree_by_quarter(occurrences + 4);
}

/// The resize table looks at the height first, at the width second and at
/// `exact` last, for every triple.
pub proof fn resize_precedence(width: u32, height: u32, exact: bool)
    ensures
        height == 0 ==> resize_mode(width, height, exact) == Resize::Width(width),
        height != 0 && width == 0 ==> resize_mode(width, height, exact) == Resize::Height(height),
        height != 0 && width != 0 && exact ==> resize_mode(width, height, exact)
            == Resize::ExactBox(width, height),
        height != 0 && width != 0 && !exact ==> resize_mode(width, height, exact)
            == Resize::BoundingBox(width, height),
{
}

} // verus!

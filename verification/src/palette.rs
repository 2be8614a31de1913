//! The colour that each species is drawn in.

use vstd::prelude::*;

verus! {

/// The named colours of the palette.
#[derive(Clone, Copy, Debug, PartialEq, Eq, Structural)]
pub enum Tint {
    Salmon,
    SeaGreen,
    Plum,
    IndianRed,
    Khaki,
    LightCoral,
    LightPink,
    SeaShell,
}

/// The colour of species `t`: the first seven species have one each, all
/// further ones share the last.
pub open spec fn tint_of(t: usize) -> Tint {
    if t == 0 {
        Tint::Salmon
    } else if t == 1 {
        Tint::SeaGreen
    } else if t == 2 {
        Tint::Plum
    } else if t == 3 {
        Tint::IndianRed
    } else if t == 4 {
        Tint::Khaki
    } else if t == 5 {
        Tint::LightCoral
    } else if t == 6 {
        Tint::LightPink
    } else {
        Tint::SeaShell
    }
}

/// The colour of species `t`.
pub fn get_col(t: usize) -> (c: Tint)
    ensures
        c == tint_of(t),
{
    match t {
        0 => Tint::Salmon,
        1 => Tint::SeaGreen,
        2 => Tint::Plum,
        3 => Tint::IndianRed,
        4 => Tint::Khaki,
        5 => Tint::LightCoral,
        6 => Tint::LightPink,
        _ => Tint::SeaShell,
    }
}

} // verus!

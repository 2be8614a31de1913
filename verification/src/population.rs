//! Building a population of particles.

use crate::atom::Atom;
use crate::random::{coordinate, within};
use crate::vec2::Vec2;
use vstd::prelude::*;

verus! {

/// Whether `a` is a freshly made particle for the place `index` of a
/// population of `n_t` species, within the given extents: at rest, and of the
/// species that the round robin gives to its place.
pub open spec fn spawned(a: Atom, index: int, n_t: int, half_width: i64, half_height: i64) -> bool {
    &&& within(a.pos.x, half_width)
    &&& within(a.pos.y, half_height)
    &&& a.vel == Vec2::zero()
    &&& a.t == index % n_t
}

/// Whether `atoms` is a freshly made population of `n` particles.
pub open spec fn populated(
    atoms: Seq<Atom>,
    n: int,
    n_t: int,
    half_width: i64,
    half_height: i64,
) -> bool {
    &&& atoms.len() == n
    &&& forall|i: int|
        0 <= i < n ==> spawned(#[trigger] atoms[i], i, n_t, half_width, half_height)
}

/// The particle for the place `index` of a population of `n_t` species, put
/// at the given coordinates.
pub fn place(index: usize, n_t: usize, x: i64, y: i64) -> (a: Atom)
    requires
        n_t >= 1,
    ensures
        a == (Atom { pos: Vec2 { x, y }, vel: Vec2::zero(), t: (index % n_t) as usize }),
{
    Atom { pos: Vec2 { x, y }, vel: Vec2::zero(), t: index % n_t }
}

/// A population of `n` particles of `n_t` species, scattered at random within
/// the given extents on either side of the origin.
pub fn populate(n: usize, n_t: usize, half_width: i64, half_height: i64) -> (atoms: Vec<Atom>)
    requires
        n_t >= 1,
    ensures
        populated(atoms@, n as int, n_t as int, half_width, half_height),
{
    let mut atoms: Vec<Atom> = Vec::new();
    let mut i: usize = 0;
    while i < n
        invariant
            i <= n,
            n_t >= 1,
            populated(atoms@, i as int, n_t as int, half_width, half_height),
        decreases n - i,
    {
        let x: i64 = coordinate(half_width);
        let y: i64 = coordinate(half_height);
        atoms.push(place(i, n_t, x, y));
        i += 1;
    }
    atoms
}

} // verus!

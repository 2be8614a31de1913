//! Particles, the force that one receives from another, and how a particle
//! moves under a force.
//!
//! The force law works on the displacement from the particle to the other
//! one. Beyond the cutoff radius there is no force. Inside the inner radius
//! the particle is pushed away, the harder the nearer the other one is. In
//! between lies the interaction band, where the coefficient of the two species
//! decides between attraction and repulsion.

use crate::fixed::{
    clamp, divide, lemma_root, lemma_root_below, magnitude, multiply, multiply_divide, product,
    quotient, root, saturate, sqrt_below, SCALE,
};
use crate::settings::{average, Settings};
use crate::vec2::Vec2;
use vstd::prelude::*;

verus! {

/// A particle: where it is, how fast it moves, and its species.
#[derive(Clone, Copy, Debug, PartialEq, Eq, Structural)]
pub struct Atom {
    /// The position.
    pub pos: Vec2,
    /// The velocity: the displacement per tick.
    pub vel: Vec2,
    /// The species, counted from zero.
    pub t: usize,
}

/// The length of a displacement, rounded down to the grid.
pub open spec fn distance(along: int, across: int) -> int {
    root(along * along + across * across)
}

/// A distance as a fraction of the cutoff radius.
pub open spec fn normalized(raw: int, r_max: int) -> int {
    raw * SCALE / r_max
}

/// The factor of the short-range repulsion at the normalized distance `d`:
/// minus one where the particles coincide, rising to zero at the inner radius.
pub open spec fn repulsion(d: int, r_min: int) -> int {
    d * SCALE / r_min - SCALE
}

/// The normalized distance as the interaction band sees it: past the midpoint
/// it is folded back toward the inner radius.
pub open spec fn folded(d: int, r_min: int, r_max: int) -> int {
    if d > average(r_min, r_max) {
        d - average(r_min, r_max) + r_min
    } else {
        d
    }
}

/// The factor of the interaction band at the normalized distance `d`, for the
/// coefficient `g`: the coefficient times the way into the band, over half
/// the band's width. It is kept to twice the usual precision: its unit is
/// `SCALE * SCALE`.
pub open spec fn attraction(d: int, r_min: int, r_max: int, g: int) -> int {
    quotient(g * (folded(d, r_min, r_max) - r_min) * SCALE, average(r_min, r_max) - r_min)
}

/// One component of the short-range repulsion at the normalized distance
/// `d`; `along` is the displacement toward the other particle on that axis.
pub open spec fn inner_force(along: int, d: int, r_min: int) -> int {
    product(along, repulsion(d, r_min))
}

/// One component of the force in the interaction band at the normalized
/// distance `d`, for the coefficient `g`, before it is brought into range:
/// the displacement times the cutoff radius times the band's factor.
pub open spec fn band_force(along: int, d: int, r_min: int, r_max: int, g: int) -> int {
    quotient(product(along, r_max) * attraction(d, r_min, r_max, g), SCALE * SCALE)
}

/// One component of the force law. `along` is the displacement toward the
/// other particle on the axis in question, `across` the displacement on the
/// other axis. Beyond the cutoff there is no force; inside the inner radius
/// the short-range repulsion acts; from the inner radius on, the interaction
/// band. The result saturates.
pub open spec fn pull(along: int, across: int, r_min: int, r_max: int, g: int) -> i64 {
    let raw = distance(along, across);
    let d = normalized(raw, r_max);
    if raw > r_max {
        0
    } else if d < r_min {
        clamp(inner_force(along, d, r_min))
    } else {
        clamp(band_force(along, d, r_min, r_max, g))
    }
}

/// The horizontal displacement from `a` to `b`.
pub open spec fn delta_x(a: Atom, b: Atom) -> int {
    b.pos.x - a.pos.x
}

/// The vertical displacement from `a` to `b`.
pub open spec fn delta_y(a: Atom, b: Atom) -> int {
    b.pos.y - a.pos.y
}

/// How far `b` is from `a`, as a fraction of the cutoff radius.
pub open spec fn separation(a: Atom, b: Atom, s: Settings) -> int {
    normalized(distance(delta_x(a, b), delta_y(a, b)), s.r_max() as int)
}

/// The coefficient that weighs the force on `a` from `b`: `a` picks the row
/// of the table, `b` the column.
pub open spec fn coefficient(a: Atom, b: Atom, s: Settings) -> int {
    s.rel().entry(a.t as int, b.t as int) as int
}

/// The force that `a` receives from `b`.
pub open spec fn force(a: Atom, b: Atom, s: Settings) -> Vec2 {
    Vec2 {
        x: pull(
            delta_x(a, b),
            delta_y(a, b),
            s.r_min() as int,
            s.r_max() as int,
            coefficient(a, b, s),
        ),
        y: pull(
            delta_y(a, b),
            delta_x(a, b),
            s.r_min() as int,
            s.r_max() as int,
            coefficient(a, b, s),
        ),
    }
}

/// A velocity component after a force has acted on it and damping has been
/// applied to the sum; it saturates.
pub open spec fn damped(v: int, f: int, friction: int) -> i64 {
    clamp(product(v + f, friction))
}

/// A coordinate after one step at the velocity `v`; it saturates.
pub open spec fn moved(p: int, v: int) -> i64 {
    clamp(p + v)
}

/// The particle `a` after the force `f` has acted on its velocity and the sum
/// has been damped.
pub open spec fn pushed(a: Atom, f: Vec2, friction: i64) -> Atom {
    Atom {
        pos: a.pos,
        vel: Vec2 {
            x: damped(a.vel.x as int, f.x as int, friction as int),
            y: damped(a.vel.y as int, f.y as int, friction as int),
        },
        t: a.t,
    }
}

/// The particle `a` after it has moved for one tick at its velocity.
pub open spec fn drifted(a: Atom) -> Atom {
    Atom {
        pos: Vec2 {
            x: moved(a.pos.x as int, a.vel.x as int),
            y: moved(a.pos.y as int, a.vel.y as int),
        },
        vel: a.vel,
        t: a.t,
    }
}

/// The particle `a` one tick later, when the net force on it is `f`: first
/// the velocity changes, then the position.
pub open spec fn stepped(a: Atom, f: Vec2, friction: i64) -> Atom {
    drifted(pushed(a, f, friction))
}

/// Beyond the cutoff radius a particle receives no force.
pub proof fn lemma_cutoff(a: Atom, b: Atom, s: Settings)
    requires
        distance(delta_x(a, b), delta_y(a, b)) > s.r_max(),
    ensures
        force(a, b, s) == Vec2::zero(),
{
}

/// Inside the inner radius the force pushes the particle away from the other
/// one: each component is the displacement on its axis, scaled by one minus
/// the ratio of the normalized distance to the inner radius, and turned
/// around. So it points against the displacement and is no longer than it.
pub proof fn lemma_inner_repulsion(a: Atom, b: Atom, s: Settings)
    requires
        s.wf(),
        distance(delta_x(a, b), delta_y(a, b)) <= s.r_max(),
        separation(a, b, s) < s.r_min(),
    ensures
        ({
            let k = SCALE - separation(a, b, s) * SCALE / (s.r_min() as int);
            &&& 0 < k <= SCALE
            &&& force(a, b, s).x == -product(delta_x(a, b), k)
            &&& force(a, b, s).y == -product(delta_y(a, b), k)
        }),
        delta_x(a, b) >= 0 ==> -delta_x(a, b) <= force(a, b, s).x <= 0,
        delta_x(a, b) <= 0 ==> 0 <= force(a, b, s).x <= -delta_x(a, b),
        delta_y(a, b) >= 0 ==> -delta_y(a, b) <= force(a, b, s).y <= 0,
        delta_y(a, b) <= 0 ==> 0 <= force(a, b, s).y <= -delta_y(a, b),
{
    let dx = delta_x(a, b);
    let dy = delta_y(a, b);
    let d = separation(a, b, s);
    let k = SCALE - d * SCALE / (s.r_min() as int);
    lemma_inner_fits(dx, dy, s.r_min() as int, s.r_max() as int);
    lemma_inner_fits(dy, dx, s.r_min() as int, s.r_max() as int);
    lemma_repulsion_range(d, s.r_min() as int);
    lemma_product_turns(dx, k);
    lemma_product_turns(dy, k);
}

/// The force on `a` from `b` reads one coefficient: the one in row `a.t`,
/// column `b.t`. Under two tables that agree there it is the same, whatever
/// they hold for the opposite direction; and the displacement from `b` to `a`
/// is the exact negative of the one from `a` to `b`.
pub proof fn lemma_directional(a: Atom, b: Atom, s: Settings, other: Settings)
    requires
        s.r_min() == other.r_min(),
        s.r_max() == other.r_max(),
        coefficient(a, b, s) == coefficient(a, b, other),
    ensures
        force(a, b, s) == force(a, b, other),
        delta_x(b, a) == -delta_x(a, b),
        delta_y(b, a) == -delta_y(a, b),
{
}

/// Where the coefficient is zero, the interaction band exerts no force: two
/// species whose entry was never set do not interact.
pub proof fn lemma_no_interaction(a: Atom, b: Atom, s: Settings)
    requires
        s.wf(),
        coefficient(a, b, s) == 0,
        separation(a, b, s) >= s.r_min(),
    ensures
        force(a, b, s) == Vec2::zero(),
{
    let d = separation(a, b, s);
    let way = folded(d, s.r_min() as int, s.r_max() as int) - s.r_min();
    let width = average(s.r_min() as int, s.r_max() as int) - s.r_min();
    assert(0int * way * SCALE == 0) by (nonlinear_arith);
    assert(0int / width == 0 && 0int / (-width) == 0) by (nonlinear_arith)
        requires
            width != 0,
    ;
    assert(attraction(d, s.r_min() as int, s.r_max() as int, 0) == 0);
    assert(product(delta_x(a, b), s.r_max() as int) * 0 == 0) by (nonlinear_arith);
    assert(product(delta_y(a, b), s.r_max() as int) * 0 == 0) by (nonlinear_arith);
}

/// A particle at rest that receives no net force stays as it is, whatever
/// the damping.
pub proof fn lemma_rest(a: Atom, friction: i64)
    requires
        a.vel == Vec2::zero(),
    ensures
        stepped(a, Vec2::zero(), friction) == a,
{
    assert(0 * friction == 0) by (nonlinear_arith);
}

/// Where the normalized distance equals the inner radius, the force is that
/// of the interaction band, not the short-range repulsion.
pub proof fn lemma_band_begins_at_inner_radius(a: Atom, b: Atom, s: Settings)
    requires
        distance(delta_x(a, b), delta_y(a, b)) <= s.r_max(),
        separation(a, b, s) == s.r_min(),
    ensures
        force(a, b, s).x == clamp(
            band_force(
                delta_x(a, b),
                s.r_min() as int,
                s.r_min() as int,
                s.r_max() as int,
                coefficient(a, b, s),
            ),
        ),
        force(a, b, s).y == clamp(
            band_force(
                delta_y(a, b),
                s.r_min() as int,
                s.r_min() as int,
                s.r_max() as int,
                coefficient(a, b, s),
            ),
        ),
{
}

/// A displacement that exceeds the cutoff on one axis exceeds it in length.
proof fn lemma_far(along: int, across: int, r_max: int)
    requires
        0 <= r_max < magnitude(along),
    ensures
        distance(along, across) > r_max,
{
    let m = magnitude(along);
    let n = along * along + across * across;
    assert((r_max + 1) * (r_max + 1) <= n) by (nonlinear_arith)
        requires
            0 <= r_max < m,
            m == along || m == -along,
            n == along * along + across * across,
    ;
    lemma_root_below(n, r_max + 1);
}

/// Within the cutoff, the normalized distance is a fraction between zero and
/// one.
proof fn lemma_normalized_range(raw: int, r_max: int)
    requires
        0 <= raw <= r_max,
        0 < r_max,
    ensures
        0 <= normalized(raw, r_max) <= SCALE,
{
    let n = raw * SCALE;
    assert(0 <= n <= SCALE * r_max) by (nonlinear_arith)
        requires
            n == raw * SCALE,
            0 <= raw <= r_max,
    ;
    assert(0 <= n / r_max <= SCALE) by (nonlinear_arith)
        requires
            0 <= n <= SCALE * r_max,
            0 < r_max,
    ;
}

/// Inside the inner radius the repulsion factor is negative, and at least
/// minus one.
proof fn lemma_repulsion_range(d: int, r_min: int)
    requires
        0 <= d < r_min,
    ensures
        -SCALE <= repulsion(d, r_min) < 0,
{
    let n = d * SCALE;
    assert(0 <= n < SCALE * r_min) by (nonlinear_arith)
        requires
            n == d * SCALE,
            0 <= d < r_min,
    ;
    assert(0 <= n / r_min < SCALE) by (nonlinear_arith)
        requires
            0 <= n < SCALE * r_min,
            0 < r_min,
    ;
}

/// Scaling by a factor between minus one and one does not lengthen.
proof fn lemma_product_shrinks(v: int, factor: int)
    requires
        -SCALE <= factor <= SCALE,
    ensures
        magnitude(product(v, factor)) <= magnitude(v),
        magnitude(v * factor) <= magnitude(v) * SCALE,
{
    let p = v * factor;
    let m = magnitude(v);
    assert(magnitude(p) <= m * SCALE) by (nonlinear_arith)
        requires
            p == v * factor,
            m == magnitude(v),
            -SCALE <= factor <= SCALE,
    ;
    let n = magnitude(p);
    assert(n / (SCALE as int) <= m) by (nonlinear_arith)
        requires
            0 <= n <= m * SCALE,
    ;
}

/// Turning the factor around turns the product around, and a factor that is
/// not negative keeps the sign.
proof fn lemma_product_turns(v: int, k: int)
    ensures
        product(v, -k) == -product(v, k),
        k >= 0 && v >= 0 ==> product(v, k) >= 0,
        k >= 0 && v <= 0 ==> product(v, k) <= 0,
{
    let p = v * k;
    assert(v * (-k) == -p) by (nonlinear_arith)
        requires
            p == v * k,
    ;
    assert(k >= 0 && v >= 0 ==> p >= 0) by (nonlinear_arith)
        requires
            p == v * k,
    ;
    assert(k >= 0 && v <= 0 ==> p <= 0) by (nonlinear_arith)
        requires
            p == v * k,
    ;
}

/// Within the cutoff and inside the inner radius, a component of the
/// repulsion is no longer than the displacement on its axis, which is no
/// longer than the cutoff radius: it is a fixed-point number as it stands.
proof fn lemma_inner_fits(along: int, across: int, r_min: int, r_max: int)
    requires
        0 < r_min,
        0 < r_max <= i64::MAX,
        distance(along, across) <= r_max,
        normalized(distance(along, across), r_max) < r_min,
    ensures
        0 <= normalized(distance(along, across), r_max) <= SCALE,
        magnitude(along) <= r_max,
        magnitude(inner_force(along, normalized(distance(along, across), r_max), r_min))
            <= magnitude(along),
        clamp(inner_force(along, normalized(distance(along, across), r_max), r_min))
            == inner_force(along, normalized(distance(along, across), r_max), r_min),
{
    let raw = distance(along, across);
    let d = normalized(raw, r_max);
    assert(0 <= along * along) by (nonlinear_arith);
    assert(0 <= across * across) by (nonlinear_arith);
    lemma_root(along * along + across * across);
    if magnitude(along) > r_max {
        lemma_far(along, across, r_max);
    }
    lemma_normalized_range(raw, r_max);
    lemma_repulsion_range(d, r_min);
    lemma_product_shrinks(along, repulsion(d, r_min));
}

impl Atom {
    /// A particle with the given state.
    pub fn new(pos: Vec2, vel: Vec2, t: usize) -> (a: Self)
        ensures
            a == (Atom { pos, vel, t }),
    {
        Atom { pos, vel, t }
    }

    /// The force that this particle receives from `p`.
    pub fn get_force(&self, p: &Atom, s: &Settings) -> (f: Vec2)
        requires
            s.wf(),
            self.t < s.num_t(),
            p.t < s.num_t(),
        ensures
            f == force(*self, *p, *s),
    {
        let dx: i128 = p.pos.x as i128 - self.pos.x as i128;
        let dy: i128 = p.pos.y as i128 - self.pos.y as i128;
        let r_max: i128 = s.r_max() as i128;
        let r_min: i128 = s.r_min() as i128;
        if dx > r_max || dx < -r_max {
            proof {
                lemma_far(dx as int, dy as int, r_max as int);
            }
            return Vec2::zero();
        }
        if dy > r_max || dy < -r_max {
            proof {
                lemma_far(dy as int, dx as int, r_max as int);
            }
            return Vec2::zero();
        }
        assert(0 <= dx * dx <= 0x4000_0000_0000_0000_0000_0000_0000_0000) by (nonlinear_arith)
            requires
                -0x8000_0000_0000_0000 <= dx <= 0x8000_0000_0000_0000,
        ;
        assert(0 <= dy * dy <= 0x4000_0000_0000_0000_0000_0000_0000_0000) by (nonlinear_arith)
            requires
                -0x8000_0000_0000_0000 <= dy <= 0x8000_0000_0000_0000,
        ;
        let square: u128 = (dx * dx) as u128 + (dy * dy) as u128;
        let bound: u128 = r_max as u128 + 1;
        assert(bound * bound <= 0x4000_0000_0000_0000_0000_0000_0000_0000) by (nonlinear_arith)
            requires
                0 <= bound <= 0x8000_0000_0000_0000,
        ;
        proof {
            lemma_root_below(square as int, bound as int);
        }
        if square >= bound * bound {
            return Vec2::zero();
        }
        let raw: i128 = sqrt_below(square, bound) as i128;
        proof {
            lemma_normalized_range(raw as int, r_max as int);
        }
        let d: i128 = raw * (SCALE as i128) / r_max;
        if d < r_min {
            proof {
                lemma_inner_fits(dx as int, dy as int, r_min as int, r_max as int);
                lemma_inner_fits(dy as int, dx as int, r_min as int, r_max as int);
                lemma_repulsion_range(d as int, r_min as int);
            }
            let factor: i128 = d * (SCALE as i128) / r_min - SCALE as i128;
            proof {
                lemma_product_shrinks(dx as int, factor as int);
                lemma_product_shrinks(dy as int, factor as int);
            }
            let fx: i128 = divide(dx * factor, SCALE as i128);
            let fy: i128 = divide(dy * factor, SCALE as i128);
            Vec2 { x: fx as i64, y: fy as i64 }
        } else {
            let avg: i128 = (r_min + r_max) / 2;
            let e: i128 = if d > avg {
                d - avg + r_min
            } else {
                d
            };
            let g: i128 = s.rel().get(self.t, p.t) as i128;
            let way: i128 = (e - r_min) * (SCALE as i128);
            assert(-0x8000_0000_0000_0000 * 1_000_000_000_000 <= g * way <= 0x8000_0000_0000_0000
                * 1_000_000_000_000) by (nonlinear_arith)
                requires
                    -0x8000_0000_0000_0000 <= g <= 0x8000_0000_0000_0000,
                    0 <= way <= 1_000_000_000_000,
            ;
            assert(g * way == g * (e - r_min) * SCALE) by (nonlinear_arith)
                requires
                    way == (e - r_min) * SCALE,
            ;
            let k: i128 = divide(g * way, avg - r_min);
            assert(-0x4000_0000_0000_0000_0000_0000_0000_0000 <= dx * r_max
                <= 0x4000_0000_0000_0000_0000_0000_0000_0000) by (nonlinear_arith)
                requires
                    -r_max <= dx <= r_max,
                    0 <= r_max <= 0x8000_0000_0000_0000,
            ;
            assert(-0x4000_0000_0000_0000_0000_0000_0000_0000 <= dy * r_max
                <= 0x4000_0000_0000_0000_0000_0000_0000_0000) by (nonlinear_arith)
                requires
                    -r_max <= dy <= r_max,
                    0 <= r_max <= 0x8000_0000_0000_0000,
            ;
            let mx: i128 = divide(dx * r_max, SCALE as i128);
            let my: i128 = divide(dy * r_max, SCALE as i128);
            let unit: i128 = (SCALE as i128) * (SCALE as i128);
            Vec2 { x: multiply_divide(mx, k, unit), y: multiply_divide(my, k, unit) }
        }
    }

    /// Lets the force `f` act on the velocity, then damps the sum.
    pub fn apply_forces(&mut self, f: Vec2, s: &Settings)
        ensures
            *final(self) == pushed(*old(self), f, s.friction()),
    {
        let friction: i128 = s.friction() as i128;
        let x: i64 = multiply(self.vel.x as i128 + f.x as i128, friction);
        let y: i64 = multiply(self.vel.y as i128 + f.y as i128, friction);
        self.vel = Vec2 { x, y };
    }

    /// Moves the particle for one tick at its velocity.
    pub fn update(&mut self)
        ensures
            *final(self) == drifted(*old(self)),
    {
        let x: i64 = saturate(self.pos.x as i128 + self.vel.x as i128);
        let y: i64 = saturate(self.pos.y as i128 + self.vel.y as i128);
        self.pos = Vec2 { x, y };
    }
}

impl Default for Atom {
    /// A particle of the first species at rest in the origin.
    fn default() -> (a: Self)
        ensures
            a == (Atom { pos: Vec2::zero(), vel: Vec2::zero(), t: 0 }),
    {
        Atom { pos: Vec2::zero(), vel: Vec2::zero(), t: 0 }
    }
}

} // verus!

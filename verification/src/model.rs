//! The simulation: a population of particles under its parameters, the tick
//! that moves it, and the rebuild that the configured counts can ask for.

use crate::atom::{force, lemma_rest, stepped, Atom};
use crate::fixed::{clamp, saturate};
use crate::population::{populate, populated, spawned};
use crate::settings::{objection, ConfigError, Phase, Settings};
use crate::vec2::Vec2;
use vstd::prelude::*;

verus! {

/// Whether every particle is of one of the first `num_t` species.
pub open spec fn in_species(atoms: Seq<Atom>, num_t: int) -> bool {
    forall|i: int| 0 <= i < atoms.len() ==> (#[trigger] atoms[i]).t < num_t
}

/// The horizontal forces that particle `i` receives from those of the first
/// `k` particles that are not itself, added up.
pub open spec fn sum_x(atoms: Seq<Atom>, i: int, k: int, s: Settings) -> int
    decreases k,
{
    if k <= 0 {
        0
    } else if k - 1 == i {
        sum_x(atoms, i, k - 1, s)
    } else {
        sum_x(atoms, i, k - 1, s) + force(atoms[i], atoms[k - 1], s).x
    }
}

/// The vertical forces that particle `i` receives from those of the first
/// `k` particles that are not itself, added up.
pub open spec fn sum_y(atoms: Seq<Atom>, i: int, k: int, s: Settings) -> int
    decreases k,
{
    if k <= 0 {
        0
    } else if k - 1 == i {
        sum_y(atoms, i, k - 1, s)
    } else {
        sum_y(atoms, i, k - 1, s) + force(atoms[i], atoms[k - 1], s).y
    }
}

/// The net force on particle `i`: the forces that it receives from all the
/// others, added up and brought into range.
pub open spec fn net(atoms: Seq<Atom>, i: int, s: Settings) -> Vec2 {
    Vec2 {
        x: clamp(sum_x(atoms, i, atoms.len() as int, s)),
        y: clamp(sum_y(atoms, i, atoms.len() as int, s)),
    }
}

/// The population one tick later. Every force is taken between the
/// particles as they are in `atoms`: no particle sees another one's move.
pub open spec fn ticked(atoms: Seq<Atom>, s: Settings) -> Seq<Atom> {
    Seq::new(atoms.len(), |i: int| stepped(atoms[i], net(atoms, i, s), s.friction()))
}

/// A particle at rest on which the forces of the others cancel is not moved
/// by a tick.
pub proof fn lemma_tick_rest(atoms: Seq<Atom>, i: int, s: Settings)
    requires
        0 <= i < atoms.len(),
        atoms[i].vel == Vec2::zero(),
        net(atoms, i, s) == Vec2::zero(),
    ensures
        ticked(atoms, s)[i] == atoms[i],
{
    lemma_rest(atoms[i], s.friction());
}

/// No sum of forces from `k` particles leaves the range that `k` forces span.
proof fn lemma_sum_bounds(atoms: Seq<Atom>, i: int, k: int, s: Settings)
    requires
        0 <= k,
    ensures
        -k * 0x8000_0000_0000_0000 <= sum_x(atoms, i, k, s) <= k * 0x8000_0000_0000_0000,
        -k * 0x8000_0000_0000_0000 <= sum_y(atoms, i, k, s) <= k * 0x8000_0000_0000_0000,
    decreases k,
{
    if k > 0 {
        lemma_sum_bounds(atoms, i, k - 1, s);
    }
}

/// The net force on particle `i` of a population.
pub fn net_force(atoms: &Vec<Atom>, i: usize, s: &Settings) -> (f: Vec2)
    requires
        s.wf(),
        i < atoms@.len(),
        in_species(atoms@, s.num_t() as int),
    ensures
        f == net(atoms@, i as int, *s),
{
    let n: usize = atoms.len();
    let mut x: i128 = 0;
    let mut y: i128 = 0;
    let mut j: usize = 0;
    while j < n
        invariant
            j <= n,
            n == atoms@.len(),
            i < n,
            s.wf(),
            in_species(atoms@, s.num_t() as int),
            x == sum_x(atoms@, i as int, j as int, *s),
            y == sum_y(atoms@, i as int, j as int, *s),
        decreases n - j,
    {
        proof {
            lemma_sum_bounds(atoms@, i as int, j as int, *s);
        }
        if j != i {
            let f: Vec2 = atoms[i].get_force(&atoms[j], s);
            x = x + f.x as i128;
            y = y + f.y as i128;
        }
        j += 1;
    }
    Vec2 { x: saturate(x), y: saturate(y) }
}

/// A population of particles and the parameters that it moves under.
#[derive(Clone, Debug)]
pub struct Model {
    settings: Settings,
    atoms: Vec<Atom>,
}

impl Model {
    /// The parameters.
    pub closed spec fn spec_settings(&self) -> &Settings {
        &self.settings
    }

    /// The particles.
    pub closed spec fn spec_atoms(&self) -> &Vec<Atom> {
        &self.atoms
    }

    /// The invariant of the simulation: the parameters are sound, and the
    /// particles are as many, and of such species, as the parameters say.
    pub open spec fn wf(&self) -> bool {
        &&& self.settings().wf()
        &&& self.atoms()@.len() == self.settings().num()
        &&& in_species(self.atoms()@, self.settings().num_t() as int)
    }

    /// The parameters.
    #[verifier::when_used_as_spec(spec_settings)]
    pub fn settings(&self) -> (s: &Settings)
        ensures
            s == self.settings(),
    {
        &self.settings
    }

    /// The particles, for whoever draws them.
    #[verifier::when_used_as_spec(spec_atoms)]
    pub fn atoms(&self) -> (a: &Vec<Atom>)
        ensures
            a == self.atoms(),
    {
        &self.atoms
    }

    /// A simulation under `settings`, its particles scattered at random
    /// within the given extents on either side of the origin.
    pub fn init(settings: Settings, half_width: i64, half_height: i64) -> (m: Model)
        requires
            settings.wf(),
        ensures
            m.wf(),
            *m.settings() == settings,
            populated(
                m.atoms()@,
                settings.num() as int,
                settings.num_t() as int,
                half_width,
                half_height,
            ),
    {
        let atoms: Vec<Atom> = populate(settings.num(), settings.num_t(), half_width, half_height);
        proof {
            lemma_populated_in_species(
                atoms@,
                settings.num() as int,
                settings.num_t() as int,
                half_width,
                half_height,
            );
        }
        Model { settings, atoms }
    }

    /// A simulation of the given particles, if they are as many, and of such
    /// species, as the parameters say.
    pub fn from_parts(settings: Settings, atoms: Vec<Atom>) -> (res: Option<Model>)
        requires
            settings.wf(),
        ensures
            res is Some <==> atoms@.len() == settings.num() && in_species(
                atoms@,
                settings.num_t() as int,
            ),
            res matches Some(m) ==> m.wf() && *m.settings() == settings && *m.atoms() == atoms,
    {
        if atoms.len() != settings.num() {
            return None;
        }
        let n: usize = atoms.len();
        let num_t: usize = settings.num_t();
        let mut i: usize = 0;
        while i < n
            invariant
                i <= n,
                n == atoms@.len(),
                num_t == settings.num_t(),
                forall|k: int| 0 <= k < i ==> (#[trigger] atoms@[k]).t < num_t,
            decreases n - i,
        {
            if atoms[i].t >= num_t {
                return None;
            }
            i += 1;
        }
        Some(Model { settings, atoms })
    }

    /// Sets the inner radius, as a fraction of the cutoff radius. It counts
    /// from the next tick on.
    pub fn set_r_min(&mut self, v: i64) -> (res: Result<(), ConfigError>)
        requires
            old(self).wf(),
        ensures
            final(self).wf(),
            final(self).atoms() == old(self).atoms(),
            res is Ok <==> objection(v, old(self).settings().r_max(), old(self).settings().num_t())
                is None,
            res matches Err(e) ==> objection(
                v,
                old(self).settings().r_max(),
                old(self).settings().num_t(),
            ) == Some(e) && *final(self) == *old(self),
            res is Ok ==> final(self).settings().rescaled_from(
                old(self).settings(),
                v,
                old(self).settings().r_max(),
                old(self).settings().friction(),
            ),
    {
        self.settings.set_r_min(v)
    }

    /// Sets the cutoff radius. It counts from the next tick on.
    pub fn set_r_max(&mut self, v: i64) -> (res: Result<(), ConfigError>)
        requires
            old(self).wf(),
        ensures
            final(self).wf(),
            final(self).atoms() == old(self).atoms(),
            res is Ok <==> objection(old(self).settings().r_min(), v, old(self).settings().num_t())
                is None,
            res matches Err(e) ==> objection(
                old(self).settings().r_min(),
                v,
                old(self).settings().num_t(),
            ) == Some(e) && *final(self) == *old(self),
            res is Ok ==> final(self).settings().rescaled_from(
                old(self).settings(),
                old(self).settings().r_min(),
                v,
                old(self).settings().friction(),
            ),
    {
        self.settings.set_r_max(v)
    }

    /// Sets the damping factor. It counts from the next tick on.
    pub fn set_friction(&mut self, v: i64)
        requires
            old(self).wf(),
        ensures
            final(self).wf(),
            final(self).atoms() == old(self).atoms(),
            final(self).settings().rescaled_from(
                old(self).settings(),
                old(self).settings().r_min(),
                old(self).settings().r_max(),
                v,
            ),
    {
        self.settings.set_friction(v)
    }

    /// Sets the coefficient for the force on species `c` from species `r`.
    /// It counts from the next tick on.
    pub fn set_relation(&mut self, v: i64, c: usize, r: usize)
        requires
            old(self).wf(),
            c < old(self).settings().num_t(),
            r < old(self).settings().num_t(),
        ensures
            final(self).wf(),
            final(self).atoms() == old(self).atoms(),
            final(self).settings().recoupled_from(old(self).settings(), v, c as int, r as int),
    {
        self.settings.set_relation(v, c, r)
    }

    /// Configures the counts of particles and species. Where they differ from
    /// the active ones, the next frame rebuilds the population.
    pub fn set_population(&mut self, pn: usize, pnt: usize) -> (res: Result<(), ConfigError>)
        requires
            old(self).wf(),
        ensures
            final(self).wf(),
            final(self).atoms() == old(self).atoms(),
            res is Ok <==> pnt >= 1,
            res matches Err(e) ==> e == ConfigError::NoSpecies && *final(self) == *old(self),
            res is Ok ==> final(self).settings().recounted_from(old(self).settings(), pn, pnt),
    {
        self.settings.set_population(pn, pnt)
    }

    /// Rebuilds the population for the configured counts: the particles are
    /// made anew, scattered at random within the given extents, and no pair of
    /// species interacts any more; the scalars stay.
    pub fn restart(&mut self, half_width: i64, half_height: i64)
        requires
            old(self).wf(),
        ensures
            final(self).wf(),
            final(self).settings().rebuilt_from(old(self).settings()),
            final(self).settings().phase() == Phase::Active,
            populated(
                final(self).atoms()@,
                old(self).settings().pn() as int,
                old(self).settings().pnt() as int,
                half_width,
                half_height,
            ),
    {
        let settings: Settings = self.settings.restarted();
        let atoms: Vec<Atom> = populate(settings.num(), settings.num_t(), half_width, half_height);
        proof {
            lemma_populated_in_species(
                atoms@,
                settings.num() as int,
                settings.num_t() as int,
                half_width,
                half_height,
            );
        }
        self.settings = settings;
        self.atoms = atoms;
    }

    /// Moves every particle by one tick. The net forces are all computed from
    /// the population as it stands before any particle moves.
    pub fn tick(&mut self)
        requires
            old(self).wf(),
        ensures
            final(self).wf(),
            *final(self).settings() == *old(self).settings(),
            final(self).atoms()@ == ticked(old(self).atoms()@, *old(self).settings()),
    {
        let n: usize = self.atoms.len();
        let mut next: Vec<Atom> = Vec::new();
        let mut i: usize = 0;
        while i < n
            invariant
                i <= n,
                n == self.atoms@.len(),
                *self == *old(self),
                self.wf(),
                next@.len() == i,
                forall|k: int|
                    0 <= k < i ==> #[trigger] next@[k] == ticked(self.atoms@, self.settings)[k],
            decreases n - i,
        {
            let f: Vec2 = net_force(&self.atoms, i, &self.settings);
            let mut a: Atom = self.atoms[i];
            a.apply_forces(f, &self.settings);
            a.update();
            next.push(a);
            i += 1;
        }
        proof {
            assert forall|k: int| 0 <= k < next@.len() implies (#[trigger] next@[k]).t
                < self.settings.num_t() by {
                assert(self.atoms@[k].t < self.settings.num_t());
            }
        }
        self.atoms = next;
    }

    /// One frame of the simulation: the population is rebuilt first if the
    /// configured counts ask for it, then moved by one tick.
    pub fn update(&mut self, half_width: i64, half_height: i64)
        requires
            old(self).wf(),
        ensures
            final(self).wf(),
            final(self).settings().phase() == Phase::Active,
            old(self).settings().phase() == Phase::Active ==> {
                &&& *final(self).settings() == *old(self).settings()
                &&& final(self).atoms()@ == ticked(old(self).atoms()@, *old(self).settings())
            },
            old(self).settings().phase() == Phase::Reinitializing ==> {
                &&& final(self).settings().rebuilt_from(old(self).settings())
                &&& exists|fresh: Seq<Atom>|
                    {
                        &&& #[trigger] populated(
                            fresh,
                            old(self).settings().pn() as int,
                            old(self).settings().pnt() as int,
                            half_width,
                            half_height,
                        )
                        &&& final(self).atoms()@ == ticked(fresh, *final(self).settings())
                    }
            },
    {
        match self.settings.phase() {
            Phase::Reinitializing => {
                self.restart(half_width, half_height);
            },
            Phase::Active => {},
        }
        self.tick();
    }
}

/// The species that the round robin hands out are all among the `n_t` there are.
proof fn lemma_populated_in_species(
    atoms: Seq<Atom>,
    n: int,
    n_t: int,
    half_width: i64,
    half_height: i64,
)
    requires
        n_t >= 1,
        populated(atoms, n, n_t, half_width, half_height),
    ensures
        in_species(atoms, n_t),
{
    assert forall|i: int| 0 <= i < atoms.len() implies (#[trigger] atoms[i]).t < n_t by {
        assert(spawned(atoms[i], i, n_t, half_width, half_height));
        assert(0 <= i % n_t < n_t);
    }
}

} // verus!

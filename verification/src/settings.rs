//! The parameters of a simulation, and the boundary at which they are checked.

use crate::fixed::SCALE;
use crate::relation::Relation;
use vstd::prelude::*;

verus! {

/// Why a configuration was turned down.
#[derive(Clone, Copy, Debug, PartialEq, Eq, Structural)]
pub enum ConfigError {
    /// The cutoff radius is zero or negative.
    CutoffNotPositive,
    /// The inner radius is not a fraction strictly between zero and one.
    InnerFractionOutOfRange,
    /// There is no species.
    NoSpecies,
    /// The middle of the interaction band coincides with its inner end, so
    /// that the band has no slope.
    DegenerateBand,
}

/// What the population needs before the next tick.
#[derive(Clone, Copy, Debug, PartialEq, Eq, Structural)]
pub enum Phase {
    /// The particle set matches the configured counts.
    Active,
    /// The configured counts differ from the active ones: the particle set
    /// has to be rebuilt.
    Reinitializing,
}

/// The midpoint used by the force law: half the sum of the inner fraction and
/// the cutoff radius.
pub open spec fn average(r_min: int, r_max: int) -> int {
    (r_min + r_max) / 2
}

/// The first objection to a configuration, if there is one.
pub open spec fn objection(r_min: i64, r_max: i64, num_t: usize) -> Option<ConfigError> {
    if r_max <= 0 {
        Some(ConfigError::CutoffNotPositive)
    } else if r_min <= 0 || r_min >= SCALE {
        Some(ConfigError::InnerFractionOutOfRange)
    } else if num_t == 0 {
        Some(ConfigError::NoSpecies)
    } else if average(r_min as int, r_max as int) == r_min {
        Some(ConfigError::DegenerateBand)
    } else {
        None
    }
}

/// Checks a configuration before it is applied.
pub fn check(r_min: i64, r_max: i64, num_t: usize) -> (res: Result<(), ConfigError>)
    ensures
        res is Ok <==> objection(r_min, r_max, num_t) is None,
        res matches Err(e) ==> objection(r_min, r_max, num_t) == Some(e),
{
    if r_max <= 0 {
        Err(ConfigError::CutoffNotPositive)
    } else if r_min <= 0 || r_min >= SCALE {
        Err(ConfigError::InnerFractionOutOfRange)
    } else if num_t == 0 {
        Err(ConfigError::NoSpecies)
    } else if midpoint(r_min, r_max) == r_min {
        Err(ConfigError::DegenerateBand)
    } else {
        Ok(())
    }
}

/// The midpoint used by the force law.
pub fn midpoint(r_min: i64, r_max: i64) -> (avg: i64)
    ensures
        avg == average(r_min as int, r_max as int),
{
    let sum: i128 = r_min as i128 + r_max as i128;
    if sum >= 0 {
        (sum / 2) as i64
    } else {
        (-((1 - sum) / 2)) as i64
    }
}

impl ConfigError {
    /// A sentence for the user.
    pub fn message(&self) -> (text: &'static str)
        ensures
            *self == ConfigError::CutoffNotPositive ==> text@
                == "the cutoff radius must be positive"@,
            *self == ConfigError::InnerFractionOutOfRange ==> text@
                == "the inner radius must be a fraction between zero and one"@,
            *self == ConfigError::NoSpecies ==> text@ == "there must be at least one species"@,
            *self == ConfigError::DegenerateBand ==> text@
                == "the cutoff radius leaves the interaction band without a slope"@,
    {
        match self {
            ConfigError::CutoffNotPositive => "the cutoff radius must be positive",
            ConfigError::InnerFractionOutOfRange => {
                "the inner radius must be a fraction between zero and one"
            },
            ConfigError::NoSpecies => "there must be at least one species",
            ConfigError::DegenerateBand => {
                "the cutoff radius leaves the interaction band without a slope"
            },
        }
    }
}

/// The parameters of a simulation. All scalars are fixed-point numbers.
#[derive(Clone, Debug)]
pub struct Settings {
    r_min: i64,
    r_max: i64,
    friction: i64,
    num: usize,
    num_t: usize,
    rel: Relation,
    pn: usize,
    pnt: usize,
}

impl Settings {
    /// The inner radius, as a fraction of the cutoff radius.
    pub closed spec fn spec_r_min(&self) -> i64 {
        self.r_min
    }

    /// The cutoff radius.
    pub closed spec fn spec_r_max(&self) -> i64 {
        self.r_max
    }

    /// The damping factor.
    pub closed spec fn spec_friction(&self) -> i64 {
        self.friction
    }

    /// The number of particles in the active population.
    pub closed spec fn spec_num(&self) -> usize {
        self.num
    }

    /// The number of species in the active population.
    pub closed spec fn spec_num_t(&self) -> usize {
        self.num_t
    }

    /// The coefficients between the active species.
    pub closed spec fn spec_rel(&self) -> &Relation {
        &self.rel
    }

    /// The configured number of particles.
    pub closed spec fn spec_pn(&self) -> usize {
        self.pn
    }

    /// The configured number of species.
    pub closed spec fn spec_pnt(&self) -> usize {
        self.pnt
    }

    /// The invariant of the parameters: nothing in them makes the force law
    /// divide by zero, and the table of coefficients fits the species.
    pub open spec fn wf(&self) -> bool {
        &&& objection(self.r_min(), self.r_max(), self.num_t()) is None
        &&& self.pnt() >= 1
        &&& self.rel().wf()
        &&& self.rel().species_count() == self.num_t()
    }

    /// The phase that these parameters put the population in.
    pub open spec fn spec_phase(&self) -> Phase {
        if self.pn() != self.num() || self.pnt() != self.num_t() {
            Phase::Reinitializing
        } else {
            Phase::Active
        }
    }

    /// Parameters for `num` particles of `num_t` species, none of which
    /// interact yet.
    pub fn new(r_min: i64, r_max: i64, friction: i64, num: usize, num_t: usize) -> (res: Result<
        Settings,
        ConfigError,
    >)
        ensures
            res is Ok <==> objection(r_min, r_max, num_t) is None,
            res matches Err(e) ==> objection(r_min, r_max, num_t) == Some(e),
            res matches Ok(s) ==> {
                &&& s.wf()
                &&& s.r_min() == r_min
                &&& s.r_max() == r_max
                &&& s.friction() == friction
                &&& s.num() == num
                &&& s.num_t() == num_t
                &&& s.pn() == num
                &&& s.pnt() == num_t
                &&& forall|i: int, j: int|
                    0 <= i < num_t && 0 <= j < num_t ==> s.rel().entry(i, j) == 0
            },
    {
        match check(r_min, r_max, num_t) {
            Err(e) => Err(e),
            Ok(()) => Ok(
                Settings {
                    r_min,
                    r_max,
                    friction,
                    num,
                    num_t,
                    rel: Relation::new(num_t),
                    pn: num,
                    pnt: num_t,
                },
            ),
        }
    }

    /// The inner radius, as a fraction of the cutoff radius.
    #[verifier::when_used_as_spec(spec_r_min)]
    pub fn r_min(&self) -> (v: i64)
        ensures
            v == self.r_min(),
    {
        self.r_min
    }

    /// The cutoff radius.
    #[verifier::when_used_as_spec(spec_r_max)]
    pub fn r_max(&self) -> (v: i64)
        ensures
            v == self.r_max(),
    {
        self.r_max
    }

    /// The damping factor.
    #[verifier::when_used_as_spec(spec_friction)]
    pub fn friction(&self) -> (v: i64)
        ensures
            v == self.friction(),
    {
        self.friction
    }

    /// The number of particles in the active population.
    #[verifier::when_used_as_spec(spec_num)]
    pub fn num(&self) -> (n: usize)
        ensures
            n == self.num(),
    {
        self.num
    }

    /// The number of species in the active population.
    #[verifier::when_used_as_spec(spec_num_t)]
    pub fn num_t(&self) -> (n: usize)
        ensures
            n == self.num_t(),
    {
        self.num_t
    }

    /// The coefficients between the active species.
    #[verifier::when_used_as_spec(spec_rel)]
    pub fn rel(&self) -> (r: &Relation)
        ensures
            r == self.rel(),
    {
        &self.rel
    }

    /// The configured number of particles.
    #[verifier::when_used_as_spec(spec_pn)]
    pub fn pn(&self) -> (n: usize)
        ensures
            n == self.pn(),
    {
        self.pn
    }

    /// The configured number of species.
    #[verifier::when_used_as_spec(spec_pnt)]
    pub fn pnt(&self) -> (n: usize)
        ensures
            n == self.pnt(),
    {
        self.pnt
    }

    /// Whether these parameters are what a rebuild makes of `before`: the
    /// scalars carried over, the configured counts become the active ones, and
    /// no pair of species interacts.
    pub open spec fn rebuilt_from(&self, before: &Settings) -> bool {
        &&& self.r_min() == before.r_min()
        &&& self.r_max() == before.r_max()
        &&& self.friction() == before.friction()
        &&& self.num() == before.pn()
        &&& self.num_t() == before.pnt()
        &&& self.pn() == before.pn()
        &&& self.pnt() == before.pnt()
        &&& forall|i: int, j: int|
            0 <= i < self.num_t() && 0 <= j < self.num_t() ==> self.rel().entry(i, j) == 0
    }

    /// Whether these parameters are `before` with the three scalars replaced
    /// by the given ones.
    pub open spec fn rescaled_from(
        &self,
        before: &Settings,
        r_min: i64,
        r_max: i64,
        friction: i64,
    ) -> bool {
        &&& self.r_min() == r_min
        &&& self.r_max() == r_max
        &&& self.friction() == friction
        &&& self.rel() == before.rel()
        &&& self.num() == before.num()
        &&& self.num_t() == before.num_t()
        &&& self.pn() == before.pn()
        &&& self.pnt() == before.pnt()
    }

    /// Whether these parameters are `before` with the coefficient for the
    /// force on species `c` from species `r` replaced by `v`.
    pub open spec fn recoupled_from(&self, before: &Settings, v: i64, c: int, r: int) -> bool {
        &&& self.r_min() == before.r_min()
        &&& self.r_max() == before.r_max()
        &&& self.friction() == before.friction()
        &&& self.rel().rewritten_from(before.rel(), v, c, r)
        &&& self.num() == before.num()
        &&& self.num_t() == before.num_t()
        &&& self.pn() == before.pn()
        &&& self.pnt() == before.pnt()
    }

    /// Whether these parameters are `before` with the configured counts
    /// replaced by the given ones.
    pub open spec fn recounted_from(&self, before: &Settings, pn: usize, pnt: usize) -> bool {
        &&& self.r_min() == before.r_min()
        &&& self.r_max() == before.r_max()
        &&& self.friction() == before.friction()
        &&& self.rel() == before.rel()
        &&& self.num() == before.num()
        &&& self.num_t() == before.num_t()
        &&& self.pn() == pn
        &&& self.pnt() == pnt
    }

    /// Sets the inner radius, as a fraction of the cutoff radius.
    pub fn set_r_min(&mut self, v: i64) -> (res: Result<(), ConfigError>)
        requires
            old(self).wf(),
        ensures
            res is Ok <==> objection(v, old(self).r_max(), old(self).num_t()) is None,
            res matches Err(e) ==> objection(v, old(self).r_max(), old(self).num_t()) == Some(e)
                && *final(self) == *old(self),
            res is Ok ==> final(self).wf() && final(self).rescaled_from(
                old(self),
                v,
                old(self).r_max(),
                old(self).friction(),
            ),
    {
        match check(v, self.r_max, self.num_t) {
            Err(e) => Err(e),
            Ok(()) => {
                self.r_min = v;
                Ok(())
            },
        }
    }

    /// Sets the cutoff radius.
    pub fn set_r_max(&mut self, v: i64) -> (res: Result<(), ConfigError>)
        requires
            old(self).wf(),
        ensures
            res is Ok <==> objection(old(self).r_min(), v, old(self).num_t()) is None,
            res matches Err(e) ==> objection(old(self).r_min(), v, old(self).num_t()) == Some(e)
                && *final(self) == *old(self),
            res is Ok ==> final(self).wf() && final(self).rescaled_from(
                old(self),
                old(self).r_min(),
                v,
                old(self).friction(),
            ),
    {
        match check(self.r_min, v, self.num_t) {
            Err(e) => Err(e),
            Ok(()) => {
                self.r_max = v;
                Ok(())
            },
        }
    }

    /// Sets the damping factor. No value is turned down.
    pub fn set_friction(&mut self, v: i64)
        requires
            old(self).wf(),
        ensures
            final(self).wf(),
            final(self).rescaled_from(old(self), old(self).r_min(), old(self).r_max(), v),
    {
        self.friction = v;
    }

    /// Sets the coefficient for the force on species `c` from species `r`.
    pub fn set_relation(&mut self, v: i64, c: usize, r: usize)
        requires
            old(self).wf(),
            c < old(self).num_t(),
            r < old(self).num_t(),
        ensures
            final(self).wf(),
            final(self).recoupled_from(old(self), v, c as int, r as int),
    {
        self.rel.set(v, c, r);
    }

    /// Configures the counts for the next rebuild of the population.
    pub fn set_population(&mut self, pn: usize, pnt: usize) -> (res: Result<(), ConfigError>)
        requires
            old(self).wf(),
        ensures
            res is Ok <==> pnt >= 1,
            res matches Err(e) ==> e == ConfigError::NoSpecies && *final(self) == *old(self),
            res is Ok ==> final(self).wf() && final(self).recounted_from(old(self), pn, pnt),
    {
        if pnt == 0 {
            Err(ConfigError::NoSpecies)
        } else {
            self.pn = pn;
            self.pnt = pnt;
            Ok(())
        }
    }

    /// The parameters for a rebuilt population.
    pub fn restarted(&self) -> (s: Settings)
        requires
            self.wf(),
        ensures
            s.wf(),
            s.rebuilt_from(self),
            s.phase() == Phase::Active,
    {
        Settings {
            r_min: self.r_min,
            r_max: self.r_max,
            friction: self.friction,
            num: self.pn,
            num_t: self.pnt,
            rel: Relation::new(self.pnt),
            pn: self.pn,
            pnt: self.pnt,
        }
    }

    /// Tells whether the population has to be rebuilt.
    #[verifier::when_used_as_spec(spec_phase)]
    pub fn phase(&self) -> (p: Phase)
        ensures
            p == self.phase(),
    {
        if self.pn != self.num || self.pnt != self.num_t {
            Phase::Reinitializing
        } else {
            Phase::Active
        }
    }
}

impl Default for Settings {
    /// Two species and twelve hundred particles: the first species is drawn
    /// to its own kind and flees the second, the second is drawn to the first
    /// and flees its own kind.
    fn default() -> (s: Self)
        ensures
            s.wf(),
            s.r_min() == 200_000,
            s.r_max() == 50_000_000,
            s.friction() == 200_000,
            s.num() == 1200,
            s.num_t() == 2,
            s.pn() == 1200,
            s.pnt() == 2,
            s.rel().entry(0, 0) == 30_000,
            s.rel().entry(1, 0) == 15_000,
            s.rel().entry(0, 1) == -20_000,
            s.rel().entry(1, 1) == -20_000,
    {
        let mut rel: Relation = Relation::new(2);
        rel.set(30_000, 0, 0);
        rel.set(15_000, 1, 0);
        rel.set(-20_000, 0, 1);
        rel.set(-20_000, 1, 1);
        Settings {
            r_min: 200_000,
            r_max: 50_000_000,
            friction: 200_000,
            num: 1200,
            num_t: 2,
            rel,
            pn: 1200,
            pnt: 2,
        }
    }
}

} // verus!

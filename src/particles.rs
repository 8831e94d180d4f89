use vstd::prelude::*;

verus! {

/// Why a particle system could not be built.
#[derive(Debug, Clone, Copy, PartialEq, Eq, Structural)]
pub enum ConfigError {
    /// No particles were given.
    EmptySystem,
    /// The per-particle arrays differ in length.
    LengthMismatch,
    /// The mass at `index` is not positive (the first such index).
    NonPositiveMass { index: usize },
    /// The smoothing radius is not positive.
    NonPositiveRadius,
}

/// Checks the smoothing radius `h` of a run: it is refused unless
/// `is_positive` accepts it.
pub fn check_smoothing_radius<S, F: Fn(&S) -> bool>(h: &S, is_positive: F) -> (r: Result<
    (),
    ConfigError,
>)
    requires
        is_positive.requires((h,)),
    ensures
        r is Ok ==> is_positive.ensures((h,), true),
        r is Err ==> r == Err::<(), ConfigError>(ConfigError::NonPositiveRadius)
            && is_positive.ensures((h,), false),
{
    if is_positive(h) {
        Ok(())
    } else {
        Err(ConfigError::NonPositiveRadius)
    }
}

/// The state of every particle, as four parallel arrays indexed by particle.
pub struct Simulation<S, P, V> {
    pub masses: Vec<S>,
    pub positions: Vec<P>,
    pub velocities: Vec<V>,
    pub force: Vec<V>,
}

/// `is_positive` accepted every mass.
pub open spec fn all_accepted<S, F: Fn(&S) -> bool>(is_positive: F, masses: Seq<S>) -> bool {
    forall|i: int| 0 <= i < masses.len() ==> #[trigger] is_positive.ensures((&masses[i],), true)
}

impl<S, P, V> Simulation<S, P, V> {
    /// The number of particles.
    pub open spec fn count(&self) -> nat {
        self.masses@.len()
    }

    /// The four arrays have one entry per particle, and there is at least one.
    pub open spec fn wf(&self) -> bool {
        &&& self.masses@.len() > 0
        &&& self.positions@.len() == self.masses@.len()
        &&& self.velocities@.len() == self.masses@.len()
        &&& self.force@.len() == self.masses@.len()
    }

    /// Builds a particle system, checking the configuration first: at least
    /// one particle, arrays of one length, and every mass accepted by
    /// `is_positive`. Nothing is built when a check fails.
    pub fn new<F: Fn(&S) -> bool>(
        masses: Vec<S>,
        positions: Vec<P>,
        velocities: Vec<V>,
        force: Vec<V>,
        is_positive: F,
    ) -> (r: Result<Self, ConfigError>)
        requires
            forall|m: &S| #[trigger] is_positive.requires((m,)),
        ensures
            masses@.len() == 0 ==> r == Err::<Self, ConfigError>(ConfigError::EmptySystem),
            masses@.len() > 0 && (positions@.len() != masses@.len() || velocities@.len()
                != masses@.len() || force@.len() != masses@.len()) ==> r == Err::<
                Self,
                ConfigError,
            >(ConfigError::LengthMismatch),
            r matches Err(ConfigError::NonPositiveMass { index }) ==> {
                &&& index < masses@.len()
                &&& is_positive.ensures((&masses@[index as int],), false)
                &&& forall|j: int| 0 <= j < index ==> #[trigger] is_positive.ensures((&masses@[j],), true)
            },
            masses@.len() > 0 && positions@.len() == masses@.len() && velocities@.len()
                == masses@.len() && force@.len() == masses@.len() ==> (r is Ok || r matches Err(
                ConfigError::NonPositiveMass { .. })),
            r matches Ok(s) ==> {
                &&& s.wf()
                &&& all_accepted(is_positive, masses@)
                &&& s.masses == masses
                &&& s.positions == positions
                &&& s.velocities == velocities
                &&& s.force == force
            },
    {
        let n = masses.len();
        if n == 0 {
            return Err(ConfigError::EmptySystem);
        }
        if positions.len() != n || velocities.len() != n || force.len() != n {
            return Err(ConfigError::LengthMismatch);
        }
        let mut i: usize = 0;
        while i < n
            invariant
                n == masses@.len(),
                n == positions@.len(),
                n == velocities@.len(),
                n == force@.len(),
                i <= n,
                forall|m: &S| #[trigger] is_positive.requires((m,)),
                forall|j: int| 0 <= j < i ==> #[trigger] is_positive.ensures((&masses@[j],), true),
            decreases n - i,
        {
            let ok = is_positive(&masses[i]);
            if !ok {
                return Err(ConfigError::NonPositiveMass { index: i });
            }
            i += 1;
        }
        Ok(Simulation { masses, positions, velocities, force })
    }
}

} // verus!

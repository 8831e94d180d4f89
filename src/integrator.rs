use vstd::prelude::*;
use crate::particles::Simulation;

verus! {

/// What one tick yields: the density estimate of each particle and the
/// render record built for it, both in particle order.
pub struct TickOutput<S, R> {
    pub densities: Vec<S>,
    pub snapshot: Vec<R>,
}

/// The positions as the density of particle `i` sees them: particles up to and
/// including `i` have already moved this tick, the others have not.
pub open spec fn positions_during<P>(before: Seq<P>, after: Seq<P>, i: int) -> Seq<P> {
    Seq::new(before.len(), |j: int| if j <= i { after[j] } else { before[j] })
}

/// `terms[j]` is the contribution of particle `j` to the density at particle
/// `i`: its mass weighted by the kernel at the separation `at[i] - at[j]`.
pub open spec fn density_terms<S, P, FW: Fn(&S, &P, &P) -> S>(
    kernel_term: FW,
    masses: Seq<S>,
    at: Seq<P>,
    i: int,
    terms: Seq<S>,
) -> bool {
    &&& terms.len() == masses.len()
    &&& forall|j: int|
        0 <= j < terms.len() ==> #[trigger] kernel_term.ensures(
            (&masses[j], &at[i], &at[j]),
            terms[j],
        )
}

/// `d` is the sum, by `total`, of the contributions of all particles to the
/// density at particle `i`.
pub open spec fn density_from<S, P, FW: Fn(&S, &P, &P) -> S, FT: Fn(&Vec<S>) -> S>(
    kernel_term: FW,
    total: FT,
    masses: Seq<S>,
    at: Seq<P>,
    i: int,
    d: S,
) -> bool {
    exists|terms: Vec<S>|
        #[trigger] density_terms(kernel_term, masses, at, i, terms@) && total.ensures((&terms,), d)
}

/// One tick of the integrator took `before` to `after`: masses and forces are
/// kept, and each particle's velocity, then its position, is advanced.
pub open spec fn tick_moves<S, P, V, FV: Fn(&V, &S, &V) -> V, FP: Fn(&P, &V) -> P>(
    advance_velocity: FV,
    advance_position: FP,
    before: &Simulation<S, P, V>,
    after: &Simulation<S, P, V>,
) -> bool {
    &&& after.wf()
    &&& after.masses@ == before.masses@
    &&& after.force@ == before.force@
    &&& after.positions@.len() == before.positions@.len()
    &&& after.velocities@.len() == before.velocities@.len()
    &&& forall|i: int|
        0 <= i < before.count() ==> advance_velocity.ensures(
            (&before.velocities@[i], &before.masses@[i], &before.force@[i]),
            #[trigger] after.velocities@[i],
        )
    &&& forall|i: int|
        0 <= i < before.count() ==> advance_position.ensures(
            (&before.positions@[i], &after.velocities@[i]),
            #[trigger] after.positions@[i],
        )
}

/// What one tick from `before` to `after` yields: for each particle, its
/// density summed at the positions of that moment, and its record made from
/// its new position and that density.
pub open spec fn tick_yields<S, P, V, R, FW, FT, FR>(
    kernel_term: FW,
    total: FT,
    record: FR,
    before: &Simulation<S, P, V>,
    after: &Simulation<S, P, V>,
    out: TickOutput<S, R>,
) -> bool where
    FW: Fn(&S, &P, &P) -> S,
    FT: Fn(&Vec<S>) -> S,
    FR: Fn(&P, &S) -> R,
 {
    &&& out.densities@.len() == before.count()
    &&& out.snapshot@.len() == before.count()
    &&& forall|i: int|
        0 <= i < before.count() ==> density_from(
            kernel_term,
            total,
            before.masses@,
            positions_during(before.positions@, after.positions@, i),
            i,
            #[trigger] out.densities@[i],
        )
    &&& forall|i: int|
        0 <= i < before.count() ==> record.ensures(
            (&after.positions@[i], &out.densities@[i]),
            #[trigger] out.snapshot@[i],
        )
}

impl<S, P, V> Simulation<S, P, V> {
    /// Advances every particle by one tick, in particle order. For particle
    /// `i`: the velocity moves by the current force (`advance_velocity`), the
    /// position by the new velocity (`advance_position`), and then the
    /// density is summed over all particles (`kernel_term` for each one,
    /// `total` for the sum) at the positions of that moment, so that the
    /// particles before `i` have moved and those after it have not. The
    /// record for the snapshot is made from the new position and the density.
    /// Masses and forces are left as they are.
    pub fn step<R, FV, FP, FW, FT, FR>(
        &mut self,
        advance_velocity: FV,
        advance_position: FP,
        kernel_term: FW,
        total: FT,
        record: FR,
    ) -> (out: TickOutput<S, R>) where
        FV: Fn(&V, &S, &V) -> V,
        FP: Fn(&P, &V) -> P,
        FW: Fn(&S, &P, &P) -> S,
        FT: Fn(&Vec<S>) -> S,
        FR: Fn(&P, &S) -> R,

        requires
            old(self).wf(),
            forall|v: &V, m: &S, f: &V| #[trigger] advance_velocity.requires((v, m, f)),
            forall|p: &P, v: &V| #[trigger] advance_position.requires((p, v)),
            forall|m: &S, a: &P, b: &P| #[trigger] kernel_term.requires((m, a, b)),
            forall|t: &Vec<S>| #[trigger] total.requires((t,)),
            forall|p: &P, d: &S| #[trigger] record.requires((p, d)),
        ensures
            tick_moves(advance_velocity, advance_position, &*old(self), &*final(self)),
            tick_yields(kernel_term, total, record, &*old(self), &*final(self), out),
    {
        let n = self.masses.len();
        let ghost before = *self;
        let mut densities: Vec<S> = Vec::with_capacity(n);
        let mut snapshot: Vec<R> = Vec::with_capacity(n);
        let mut i: usize = 0;
        while i < n
            invariant
                before.wf(),
                n == before.count(),
                i <= n,
                self.masses@ == before.masses@,
                self.force@ == before.force@,
                self.positions@.len() == n,
                self.velocities@.len() == n,
                densities@.len() == i,
                snapshot@.len() == i,
                forall|v: &V, m: &S, f: &V| #[trigger] advance_velocity.requires((v, m, f)),
                forall|p: &P, v: &V| #[trigger] advance_position.requires((p, v)),
                forall|m: &S, a: &P, b: &P| #[trigger] kernel_term.requires((m, a, b)),
                forall|t: &Vec<S>| #[trigger] total.requires((t,)),
                forall|p: &P, d: &S| #[trigger] record.requires((p, d)),
                forall|j: int| i <= j < n ==> self.positions@[j] == before.positions@[j],
                forall|j: int| i <= j < n ==> self.velocities@[j] == before.velocities@[j],
                forall|j: int|
                    0 <= j < i ==> #[trigger] advance_velocity.ensures(
                        (&before.velocities@[j], &before.masses@[j], &before.force@[j]),
                        self.velocities@[j],
                    ),
                forall|j: int|
                    0 <= j < i ==> #[trigger] advance_position.ensures(
                        (&before.positions@[j], &self.velocities@[j]),
                        self.positions@[j],
                    ),
                forall|k: int|
                    0 <= k < i ==> #[trigger] density_from(
                        kernel_term,
                        total,
                        before.masses@,
                        positions_during(before.positions@, self.positions@, k),
                        k,
                        densities@[k],
                    ),
                forall|k: int|
                    0 <= k < i ==> #[trigger] record.ensures(
                        (&self.positions@[k], &densities@[k]),
                        snapshot@[k],
                    ),
            decreases n - i,
        {
            let ghost prev_positions = self.positions@;
            let v = advance_velocity(&self.velocities[i], &self.masses[i], &self.force[i]);
            self.velocities.set(i, v);
            let p = advance_position(&self.positions[i], &self.velocities[i]);
            self.positions.set(i, p);
            assert forall|k: int| 0 <= k < i implies #[trigger] density_from(
                kernel_term,
                total,
                before.masses@,
                positions_during(before.positions@, self.positions@, k),
                k,
                densities@[k],
            ) by {
                assert(positions_during(before.positions@, self.positions@, k) =~= positions_during(
                    before.positions@,
                    prev_positions,
                    k,
                ));
            }

            let ghost at = positions_during(before.positions@, self.positions@, i as int);
            assert(at =~= self.positions@);
            let mut terms: Vec<S> = Vec::with_capacity(n);
            let mut j: usize = 0;
            while j < n
                invariant
                    n == before.count(),
                    i < n,
                    j <= n,
                    self.masses@ == before.masses@,
                    self.positions@ == at,
                    at.len() == n,
                    terms@.len() == j,
                    forall|m: &S, a: &P, b: &P| #[trigger] kernel_term.requires((m, a, b)),
                    forall|jj: int|
                        0 <= jj < j ==> #[trigger] kernel_term.ensures(
                            (&before.masses@[jj], &at[i as int], &at[jj]),
                            terms@[jj],
                        ),
                decreases n - j,
            {
                let t = kernel_term(&self.masses[j], &self.positions[i], &self.positions[j]);
                terms.push(t);
                j += 1;
            }
            let d = total(&terms);
            assert(density_terms(kernel_term, before.masses@, at, i as int, terms@));
            let rec = record(&self.positions[i], &d);
            densities.push(d);
            snapshot.push(rec);
            i += 1;
        }
        TickOutput { densities, snapshot }
    }
}

/// Two particle systems hold the same masses, positions, velocities and forces.
pub open spec fn same_state<S, P, V>(a: &Simulation<S, P, V>, b: &Simulation<S, P, V>) -> bool {
    &&& a.masses@ == b.masses@
    &&& a.positions@ == b.positions@
    &&& a.velocities@ == b.velocities@
    &&& a.force@ == b.force@
}

/// The velocity update gives one result for each argument: it hides no
/// randomness.
pub open spec fn velocity_update_is_function<S, V, FV: Fn(&V, &S, &V) -> V>(f: FV) -> bool {
    forall|v: &V, m: &S, g: &V, r1: V, r2: V|
        #[trigger] f.ensures((v, m, g), r1) && #[trigger] f.ensures((v, m, g), r2) ==> r1 == r2
}

/// The position update gives one result for each argument: it hides no
/// randomness.
pub open spec fn position_update_is_function<P, V, FP: Fn(&P, &V) -> P>(f: FP) -> bool {
    forall|p: &P, v: &V, r1: P, r2: P|
        #[trigger] f.ensures((p, v), r1) && #[trigger] f.ensures((p, v), r2) ==> r1 == r2
}

/// State `k + 1` of `states` is one tick after state `k`.
pub open spec fn ticks_at<S, P, V, FV: Fn(&V, &S, &V) -> V, FP: Fn(&P, &V) -> P>(
    advance_velocity: FV,
    advance_position: FP,
    states: Seq<Simulation<S, P, V>>,
    k: int,
) -> bool {
    tick_moves(advance_velocity, advance_position, &states[k], &states[k + 1])
}

/// `states` is a run of the integrator: each state is one tick after the one
/// before it.
pub open spec fn is_run<S, P, V, FV: Fn(&V, &S, &V) -> V, FP: Fn(&P, &V) -> P>(
    advance_velocity: FV,
    advance_position: FP,
    states: Seq<Simulation<S, P, V>>,
) -> bool {
    &&& states.len() > 0
    &&& states[0].wf()
    &&& forall|k: int|
        0 <= k < states.len() - 1 ==> #[trigger] ticks_at(advance_velocity, advance_position, states, k)
}

/// A tick never changes a mass: in a run, every state has the masses of the
/// first, so their total is the same at every tick.
pub proof fn lemma_mass_conserved<S, P, V, FV: Fn(&V, &S, &V) -> V, FP: Fn(&P, &V) -> P>(
    advance_velocity: FV,
    advance_position: FP,
    states: Seq<Simulation<S, P, V>>,
    k: int,
)
    requires
        is_run(advance_velocity, advance_position, states),
        0 <= k < states.len(),
    ensures
        states[k].masses@ == states[0].masses@,
        states[k].count() == states[0].count(),
    decreases k,
{
    if k > 0 {
        lemma_mass_conserved(advance_velocity, advance_position, states, k - 1);
        assert(ticks_at(advance_velocity, advance_position, states, k - 1));
    }
}

/// With update functions that hide no randomness, a tick from two equal
/// states gives two equal states.
pub proof fn lemma_tick_deterministic<S, P, V, FV: Fn(&V, &S, &V) -> V, FP: Fn(&P, &V) -> P>(
    advance_velocity: FV,
    advance_position: FP,
    a0: &Simulation<S, P, V>,
    a1: &Simulation<S, P, V>,
    b0: &Simulation<S, P, V>,
    b1: &Simulation<S, P, V>,
)
    requires
        velocity_update_is_function(advance_velocity),
        position_update_is_function(advance_position),
        a0.wf(),
        same_state(a0, b0),
        tick_moves(advance_velocity, advance_position, a0, a1),
        tick_moves(advance_velocity, advance_position, b0, b1),
    ensures
        same_state(a1, b1),
{
    assert forall|i: int| 0 <= i < a0.count() implies a1.velocities@[i] == b1.velocities@[i] by {
        assert(advance_velocity.ensures(
            (&a0.velocities@[i], &a0.masses@[i], &a0.force@[i]),
            a1.velocities@[i],
        ));
        assert(advance_velocity.ensures(
            (&b0.velocities@[i], &b0.masses@[i], &b0.force@[i]),
            b1.velocities@[i],
        ));
    }
    assert(a1.velocities@ =~= b1.velocities@);
    assert forall|i: int| 0 <= i < a0.count() implies a1.positions@[i] == b1.positions@[i] by {
        assert(advance_position.ensures((&a0.positions@[i], &a1.velocities@[i]), a1.positions@[i]));
        assert(advance_position.ensures((&b0.positions@[i], &b1.velocities@[i]), b1.positions@[i]));
    }
    assert(a1.positions@ =~= b1.positions@);
}

/// With update functions that hide no randomness, two runs of the same
/// length from equal states pass through equal states at every tick.
pub proof fn lemma_runs_deterministic<S, P, V, FV: Fn(&V, &S, &V) -> V, FP: Fn(&P, &V) -> P>(
    advance_velocity: FV,
    advance_position: FP,
    a: Seq<Simulation<S, P, V>>,
    b: Seq<Simulation<S, P, V>>,
    k: int,
)
    requires
        velocity_update_is_function(advance_velocity),
        position_update_is_function(advance_position),
        is_run(advance_velocity, advance_position, a),
        is_run(advance_velocity, advance_position, b),
        a.len() == b.len(),
        same_state(&a[0], &b[0]),
        0 <= k < a.len(),
    ensures
        same_state(&a[k], &b[k]),
    decreases k,
{
    if k > 0 {
        lemma_runs_deterministic(advance_velocity, advance_position, a, b, k - 1);
        lemma_run_wf(advance_velocity, advance_position, a, k - 1);
        assert(ticks_at(advance_velocity, advance_position, a, k - 1));
        assert(ticks_at(advance_velocity, advance_position, b, k - 1));
        lemma_tick_deterministic(advance_velocity, advance_position, &a[k - 1], &a[k], &b[k - 1], &b[k]);
    }
}

/// The kernel term gives one result for each mass and pair of positions.
pub open spec fn term_is_function<S, P, FW: Fn(&S, &P, &P) -> S>(f: FW) -> bool {
    forall|m: &S, a: &P, b: &P, r1: S, r2: S|
        #[trigger] f.ensures((m, a, b), r1) && #[trigger] f.ensures((m, a, b), r2) ==> r1 == r2
}

/// The sum depends on the terms alone.
pub open spec fn total_is_function<S, FT: Fn(&Vec<S>) -> S>(f: FT) -> bool {
    forall|t1: &Vec<S>, t2: &Vec<S>, r1: S, r2: S|
        t1@ == t2@ && #[trigger] f.ensures((t1,), r1) && #[trigger] f.ensures((t2,), r2) ==> r1
            == r2
}

/// With functions that hide no randomness, a tick from two equal states
/// gives equal densities as well as equal states.
pub proof fn lemma_tick_densities_deterministic<S, P, V, R, FV, FP, FW, FT, FR>(
    advance_velocity: FV,
    advance_position: FP,
    kernel_term: FW,
    total: FT,
    record: FR,
    a0: &Simulation<S, P, V>,
    a1: &Simulation<S, P, V>,
    out_a: TickOutput<S, R>,
    b0: &Simulation<S, P, V>,
    b1: &Simulation<S, P, V>,
    out_b: TickOutput<S, R>,
) where
    FV: Fn(&V, &S, &V) -> V,
    FP: Fn(&P, &V) -> P,
    FW: Fn(&S, &P, &P) -> S,
    FT: Fn(&Vec<S>) -> S,
    FR: Fn(&P, &S) -> R,

    requires
        velocity_update_is_function(advance_velocity),
        position_update_is_function(advance_position),
        term_is_function(kernel_term),
        total_is_function(total),
        a0.wf(),
        same_state(a0, b0),
        tick_moves(advance_velocity, advance_position, a0, a1),
        tick_moves(advance_velocity, advance_position, b0, b1),
        tick_yields(kernel_term, total, record, a0, a1, out_a),
        tick_yields(kernel_term, total, record, b0, b1, out_b),
    ensures
        same_state(a1, b1),
        out_a.densities@ == out_b.densities@,
{
    lemma_tick_deterministic(advance_velocity, advance_position, a0, a1, b0, b1);
    assert forall|i: int| 0 <= i < a0.count() implies out_a.densities@[i] == out_b.densities@[i] by {
        let at = positions_during(a0.positions@, a1.positions@, i);
        assert(at == positions_during(b0.positions@, b1.positions@, i));
        assert(density_from(kernel_term, total, a0.masses@, at, i, out_a.densities@[i]));
        assert(density_from(kernel_term, total, a0.masses@, at, i, out_b.densities@[i]));
        let ta = choose|t: Vec<S>|
            #[trigger] density_terms(kernel_term, a0.masses@, at, i, t@) && total.ensures(
                (&t,),
                out_a.densities@[i],
            );
        let tb = choose|t: Vec<S>|
            #[trigger] density_terms(kernel_term, a0.masses@, at, i, t@) && total.ensures(
                (&t,),
                out_b.densities@[i],
            );
        assert forall|j: int| 0 <= j < ta@.len() implies ta@[j] == tb@[j] by {
            assert(kernel_term.ensures((&a0.masses@[j], &at[i], &at[j]), ta@[j]));
            assert(kernel_term.ensures((&a0.masses@[j], &at[i], &at[j]), tb@[j]));
        }
        assert(ta@ =~= tb@);
    }
    assert(out_a.densities@ =~= out_b.densities@);
}

/// Tick `k` of a run took `states[k]` to `states[k + 1]` and yielded `outs[k]`.
pub open spec fn yields_at<S, P, V, R, FW, FT, FR>(
    kernel_term: FW,
    total: FT,
    record: FR,
    states: Seq<Simulation<S, P, V>>,
    outs: Seq<TickOutput<S, R>>,
    k: int,
) -> bool where
    FW: Fn(&S, &P, &P) -> S,
    FT: Fn(&Vec<S>) -> S,
    FR: Fn(&P, &S) -> R,
 {
    tick_yields(kernel_term, total, record, &states[k], &states[k + 1], outs[k])
}

/// `outs` are what the ticks of the run `states` yielded, one per tick.
pub open spec fn run_yields<S, P, V, R, FW, FT, FR>(
    kernel_term: FW,
    total: FT,
    record: FR,
    states: Seq<Simulation<S, P, V>>,
    outs: Seq<TickOutput<S, R>>,
) -> bool where
    FW: Fn(&S, &P, &P) -> S,
    FT: Fn(&Vec<S>) -> S,
    FR: Fn(&P, &S) -> R,
 {
    &&& outs.len() + 1 == states.len()
    &&& forall|k: int|
        0 <= k < outs.len() ==> #[trigger] yields_at(kernel_term, total, record, states, outs, k)
}

/// Every state of a run is well formed.
pub proof fn lemma_run_wf<S, P, V, FV: Fn(&V, &S, &V) -> V, FP: Fn(&P, &V) -> P>(
    advance_velocity: FV,
    advance_position: FP,
    states: Seq<Simulation<S, P, V>>,
    k: int,
)
    requires
        is_run(advance_velocity, advance_position, states),
        0 <= k < states.len(),
    ensures
        states[k].wf(),
{
    if k > 0 {
        assert(ticks_at(advance_velocity, advance_position, states, k - 1));
    }
}

/// With functions that hide no randomness, two runs of the same length from
/// equal states yield equal densities at every tick.
pub proof fn lemma_run_densities_deterministic<S, P, V, R, FV, FP, FW, FT, FR>(
    advance_velocity: FV,
    advance_position: FP,
    kernel_term: FW,
    total: FT,
    record: FR,
    a: Seq<Simulation<S, P, V>>,
    outs_a: Seq<TickOutput<S, R>>,
    b: Seq<Simulation<S, P, V>>,
    outs_b: Seq<TickOutput<S, R>>,
    k: int,
) where
    FV: Fn(&V, &S, &V) -> V,
    FP: Fn(&P, &V) -> P,
    FW: Fn(&S, &P, &P) -> S,
    FT: Fn(&Vec<S>) -> S,
    FR: Fn(&P, &S) -> R,

    requires
        velocity_update_is_function(advance_velocity),
        position_update_is_function(advance_position),
        term_is_function(kernel_term),
        total_is_function(total),
        is_run(advance_velocity, advance_position, a),
        is_run(advance_velocity, advance_position, b),
        run_yields(kernel_term, total, record, a, outs_a),
        run_yields(kernel_term, total, record, b, outs_b),
        a.len() == b.len(),
        same_state(&a[0], &b[0]),
        0 <= k < outs_a.len(),
    ensures
        outs_a[k].densities@ == outs_b[k].densities@,
{
    lemma_runs_deterministic(advance_velocity, advance_position, a, b, k);
    lemma_run_wf(advance_velocity, advance_position, a, k);
    assert(ticks_at(advance_velocity, advance_position, a, k));
    assert(ticks_at(advance_velocity, advance_position, b, k));
    assert(yields_at(kernel_term, total, record, a, outs_a, k));
    assert(yields_at(kernel_term, total, record, b, outs_b, k));
    lemma_tick_densities_deterministic(
        advance_velocity,
        advance_position,
        kernel_term,
        total,
        record,
        &a[k],
        &a[k + 1],
        outs_a[k],
        &b[k],
        &b[k + 1],
        outs_b[k],
    );
}

/// Densities are never negative when every kernel term is not (a positive
/// mass times a kernel weight) and a sum of such terms is not either.
pub proof fn lemma_densities_not_negative<S, P, V, R, FW, FT, FR>(
    kernel_term: FW,
    total: FT,
    record: FR,
    not_negative: spec_fn(S) -> bool,
    before: &Simulation<S, P, V>,
    after: &Simulation<S, P, V>,
    out: TickOutput<S, R>,
) where
    FW: Fn(&S, &P, &P) -> S,
    FT: Fn(&Vec<S>) -> S,
    FR: Fn(&P, &S) -> R,

    requires
        forall|m: &S, a: &P, b: &P, t: S|
            #[trigger] kernel_term.ensures((m, a, b), t) ==> not_negative(t),
        forall|terms: &Vec<S>, d: S|
            #[trigger] total.ensures((terms,), d) && (forall|j: int|
                0 <= j < terms@.len() ==> not_negative(#[trigger] terms@[j])) ==> not_negative(d),
        tick_yields(kernel_term, total, record, before, after, out),
    ensures
        forall|i: int| 0 <= i < out.densities@.len() ==> not_negative(#[trigger] out.densities@[i]),
{
    assert forall|i: int| 0 <= i < out.densities@.len() implies not_negative(
        #[trigger] out.densities@[i],
    ) by {
        let at = positions_during(before.positions@, after.positions@, i);
        assert(density_from(kernel_term, total, before.masses@, at, i, out.densities@[i]));
        let t = choose|t: Vec<S>|
            #[trigger] density_terms(kernel_term, before.masses@, at, i, t@) && total.ensures(
                (&t,),
                out.densities@[i],
            );
        assert forall|j: int| 0 <= j < t@.len() implies not_negative(#[trigger] t@[j]) by {
            assert(kernel_term.ensures((&before.masses@[j], &at[i], &at[j]), t@[j]));
        }
    }
}

} // verus!

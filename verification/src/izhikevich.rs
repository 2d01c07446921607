//! The spiking reservoir and the harness that drives it.
//!
//! A reservoir is a population of two-variable neurons (a potential `v` and a
//! recovery variable `u`) with four fixed parameters each and a matrix of
//! connection weights. One micro-step first lets the neurons whose potential
//! crossed the threshold fire: they are reset and their outgoing weights are
//! added to the input. It then integrates every neuron on its own.

use crate::linalg::{
    between_of, draw_row, drawn_between, draws_ok, run_between, stream_of, transposed, unit_of,
    SeededDraws,
};
use crate::matrix::{copy_of, copy_row, rectangular, rows_view, Matrix};
use crate::scalar::{
    count_of, difference, greater, limited, negated, one_of, product, quotient, rounded,
    scalar_ops_ok, scale_row, sum, zero_of, ScalarOps,
};
use vstd::prelude::*;

verus! {

/// The length of one micro-step: a millisecond, in nanoseconds.
pub const MICRO_STEP_NANOS: u128 = 1_000_000;

/// The longest micro-step that a reservoir can have, in nanoseconds.
pub const MAX_STEP_NANOS: u128 = 0xFFFF_FFFF;

/// The potential above which a neuron fires: 30.
pub open spec fn firing_threshold<T, O: ScalarOps<T>>(ops: O) -> T {
    count_of(ops, 30)
}

/// Whether a neuron with the potential `v` fires.
pub open spec fn fires<T, O: ScalarOps<T>>(ops: O, v: T) -> bool {
    greater(ops, v, firing_threshold(ops))
}

/// The least current that a neuron integrates: -100.
pub open spec fn input_floor<T, O: ScalarOps<T>>(ops: O) -> T {
    negated(ops, count_of(ops, 100))
}

/// The greatest current that a neuron integrates: 50.
pub open spec fn input_ceiling<T, O: ScalarOps<T>>(ops: O) -> T {
    count_of(ops, 50)
}

/// The length of a micro-step of `dt_nanos` nanoseconds in milliseconds.
pub open spec fn step_millis<T, O: ScalarOps<T>>(ops: O, dt_nanos: nat) -> T {
    quotient(ops, count_of(ops, dt_nanos as usize), count_of(ops, 1_000_000))
}

/// Half the length of a micro-step, in milliseconds.
pub open spec fn half_step_millis<T, O: ScalarOps<T>>(ops: O, dt_nanos: nat) -> T {
    product(ops, quotient(ops, one_of(ops), count_of(ops, 2)), step_millis(ops, dt_nanos))
}

/// The rate of the potential `v` at the recovery variable `u` and the
/// current `i`: `0.04 * v * v + 5 * v + 140 - u + i`, computed from left to
/// right.
pub open spec fn potential_rate<T, O: ScalarOps<T>>(ops: O, v: T, u: T, i: T) -> T {
    let quadratic = quotient(ops, count_of(ops, 4), count_of(ops, 100));
    sum(
        ops,
        difference(
            ops,
            sum(
                ops,
                sum(
                    ops,
                    product(ops, product(ops, quadratic, v), v),
                    product(ops, count_of(ops, 5), v),
                ),
                count_of(ops, 140),
            ),
            u,
        ),
        i,
    )
}

/// The potential after half a micro-step: `v + half_dt * rate(v, u, i)`.
pub open spec fn half_step<T, O: ScalarOps<T>>(ops: O, dt_nanos: nat, v: T, u: T, i: T) -> T {
    sum(ops, v, product(ops, half_step_millis(ops, dt_nanos), potential_rate(ops, v, u, i)))
}

/// The potential of a neuron after a micro-step: the current is kept
/// between -100 and 50, and the potential makes two half steps, the second
/// from where the first arrived.
pub open spec fn excited_potential<T, O: ScalarOps<T>>(ops: O, dt_nanos: nat, v: T, u: T, i: T)
    -> T {
    let kept = limited(ops, i, input_floor(ops), input_ceiling(ops));
    half_step(ops, dt_nanos, half_step(ops, dt_nanos, v, u, kept), u, kept)
}

/// The recovery variable of a neuron after a micro-step: one full step
/// `u + dt * (a * (b * v - u))` from the new potential `v`.
pub open spec fn excited_recovery<T, O: ScalarOps<T>>(
    ops: O,
    dt_nanos: nat,
    a: T,
    b: T,
    v: T,
    u: T,
) -> T {
    sum(
        ops,
        u,
        product(
            ops,
            step_millis(ops, dt_nanos),
            product(ops, a, difference(ops, product(ops, b, v), u)),
        ),
    )
}

/// The mathematical content of a reservoir.
pub ghost struct ReservoirModel<T> {
    pub a: Seq<T>,
    pub b: Seq<T>,
    pub c: Seq<T>,
    pub d: Seq<T>,
    pub connections: Seq<Seq<T>>,
    pub v: Seq<T>,
    pub u: Seq<T>,
}

impl<T> ReservoirModel<T> {
    /// The number of neurons.
    pub open spec fn n(self) -> nat {
        self.a.len()
    }

    /// All parameters and variables are given for every neuron, and the
    /// connection matrix is square.
    pub open spec fn wf(self) -> bool {
        &&& self.b.len() == self.n()
        &&& self.c.len() == self.n()
        &&& self.d.len() == self.n()
        &&& self.v.len() == self.n()
        &&& self.u.len() == self.n()
        &&& self.connections.len() == self.n()
        &&& rectangular(self.connections, self.n())
    }

    /// The same reservoir with other potentials and recovery variables.
    pub open spec fn with_state(self, v: Seq<T>, u: Seq<T>) -> Self {
        ReservoirModel { v, u, ..self }
    }
}

/// The neurons below `n` that fire, in ascending order.
pub open spec fn firing_ids<T, O: ScalarOps<T>>(ops: O, v: Seq<T>, n: nat) -> Seq<usize>
    decreases n,
{
    if n == 0 {
        Seq::empty()
    } else {
        let rest = firing_ids(ops, v, (n - 1) as nat);
        if fires(ops, v[n - 1]) {
            rest.push((n - 1) as usize)
        } else {
            rest
        }
    }
}

/// The potentials after firing: a firing neuron restarts at its reset value.
pub open spec fn reset_potentials<T, O: ScalarOps<T>>(ops: O, v: Seq<T>, c: Seq<T>) -> Seq<T> {
    Seq::new(
        v.len(),
        |i: int|
            if fires(ops, v[i]) {
                c[i]
            } else {
                v[i]
            },
    )
}

/// The recovery variables after firing: that of a firing neuron is raised by
/// its increment.
pub open spec fn raised_recovery<T, O: ScalarOps<T>>(ops: O, v: Seq<T>, u: Seq<T>, d: Seq<T>)
    -> Seq<T> {
    Seq::new(
        u.len(),
        |i: int|
            if fires(ops, v[i]) {
                sum(ops, u[i], d[i])
            } else {
                u[i]
            },
    )
}

/// `input` with column `col` of the connection matrix added to it.
pub open spec fn add_column<T, O: ScalarOps<T>>(
    ops: O,
    input: Seq<T>,
    connections: Seq<Seq<T>>,
    col: int,
) -> Seq<T> {
    Seq::new(input.len(), |j: int| sum(ops, input[j], connections[j][col]))
}

/// `input` with the outgoing weights of the first `k` neurons of `ids` added
/// to it, one neuron after the other.
pub open spec fn diffused<T, O: ScalarOps<T>>(
    ops: O,
    input: Seq<T>,
    connections: Seq<Seq<T>>,
    ids: Seq<usize>,
    k: nat,
) -> Seq<T>
    decreases k,
{
    if k == 0 {
        input
    } else {
        add_column(
            ops,
            diffused(ops, input, connections, ids, (k - 1) as nat),
            connections,
            ids[k - 1] as int,
        )
    }
}

/// The reservoir after its firing neurons were reset.
pub open spec fn diffuse_model<T, O: ScalarOps<T>>(ops: O, m: ReservoirModel<T>)
    -> ReservoirModel<T> {
    m.with_state(reset_potentials(ops, m.v, m.c), raised_recovery(ops, m.v, m.u, m.d))
}

/// The input after the firing neurons passed their weights on.
pub open spec fn diffuse_input<T, O: ScalarOps<T>>(ops: O, m: ReservoirModel<T>, input: Seq<T>)
    -> Seq<T> {
    let ids = firing_ids(ops, m.v, m.n());
    diffused(ops, input, m.connections, ids, ids.len())
}

/// The potentials after every neuron integrated the current `input` over a
/// micro-step of `dt_nanos` nanoseconds.
pub open spec fn excited_potentials<T, O: ScalarOps<T>>(
    ops: O,
    m: ReservoirModel<T>,
    dt_nanos: nat,
    input: Seq<T>,
) -> Seq<T> {
    Seq::new(m.n(), |i: int| excited_potential(ops, dt_nanos, m.v[i], m.u[i], input[i]))
}

/// The reservoir after every neuron integrated the current `input` over a
/// micro-step of `dt_nanos` nanoseconds.
pub open spec fn excite_model<T, O: ScalarOps<T>>(
    ops: O,
    m: ReservoirModel<T>,
    dt_nanos: nat,
    input: Seq<T>,
) -> ReservoirModel<T> {
    let v = excited_potentials(ops, m, dt_nanos, input);
    m.with_state(
        v,
        Seq::new(m.n(), |i: int| excited_recovery(ops, dt_nanos, m.a[i], m.b[i], v[i], m.u[i])),
    )
}

/// The reservoir after one micro-step under the input `input`.
pub open spec fn micro_step<T, O: ScalarOps<T>>(
    ops: O,
    m: ReservoirModel<T>,
    dt_nanos: nat,
    input: Seq<T>,
) -> ReservoirModel<T> {
    excite_model(ops, diffuse_model(ops, m), dt_nanos, diffuse_input(ops, m, input))
}

/// The reservoir after `k` micro-steps under the constant input `input`.
pub open spec fn run_model<T, O: ScalarOps<T>>(
    ops: O,
    m: ReservoirModel<T>,
    dt_nanos: nat,
    input: Seq<T>,
    k: nat,
) -> ReservoirModel<T>
    decreases k,
{
    if k == 0 {
        m
    } else {
        micro_step(ops, run_model(ops, m, dt_nanos, input, (k - 1) as nat), dt_nanos, input)
    }
}

/// The firing lists of `k` micro-steps under the constant input `input`.
pub open spec fn run_firings<T, O: ScalarOps<T>>(
    ops: O,
    m: ReservoirModel<T>,
    dt_nanos: nat,
    input: Seq<T>,
    k: nat,
) -> Seq<Seq<usize>> {
    Seq::new(
        k,
        |s: int|
            {
                let before = run_model(ops, m, dt_nanos, input, s as nat);
                firing_ids(ops, before.v, before.n())
            },
    )
}

/// The number of micro-steps of length `dt` that a window of length
/// `duration` takes: the least `k` with `k * dt >= duration`.
pub open spec fn micro_steps(duration: nat, dt: nat) -> nat {
    if duration == 0 {
        0
    } else {
        ((duration - 1) / dt as int + 1) as nat
    }
}

/// The firing ids below `n` are ascending and below `n`.
pub proof fn firing_ids_bounds<T, O: ScalarOps<T>>(ops: O, v: Seq<T>, n: nat)
    ensures
        firing_ids(ops, v, n).len() <= n,
        forall|k: int|
            0 <= k < firing_ids(ops, v, n).len() ==> #[trigger] firing_ids(ops, v, n)[k] < n,
    decreases n,
{
    if n > 0 {
        firing_ids_bounds(ops, v, (n - 1) as nat);
    }
}

/// A spiking reservoir: parameters, connection weights and the two state
/// variables of each neuron.
pub struct IzhikevichReservoir<T> {
    neuron_count: usize,
    a: Vec<T>,
    b: Vec<T>,
    c: Vec<T>,
    d: Vec<T>,
    connections: Matrix<T>,
    v: Vec<T>,
    u: Vec<T>,
    dt_nanos: u128,
}

impl<T> View for IzhikevichReservoir<T> {
    type V = ReservoirModel<T>;

    closed spec fn view(&self) -> ReservoirModel<T> {
        ReservoirModel {
            a: self.a@,
            b: self.b@,
            c: self.c@,
            d: self.d@,
            connections: self.connections@,
            v: self.v@,
            u: self.u@,
        }
    }
}

impl<T> IzhikevichReservoir<T> {
    #[verifier::type_invariant]
    spec fn inv(&self) -> bool {
        &&& self@.wf()
        &&& self.neuron_count == self.a@.len()
        &&& self.connections.cols() == self.neuron_count
        &&& 0 < self.dt_nanos <= MAX_STEP_NANOS
    }

    /// The length of a micro-step in nanoseconds.
    pub closed spec fn dt(&self) -> nat {
        self.dt_nanos as nat
    }
}

/// The length of a micro-step of `dt_nanos` nanoseconds in milliseconds.
pub fn millis_of<T: Copy, O: ScalarOps<T>>(dt_nanos: u128, ops: &O) -> (dt: T)
    requires
        dt_nanos <= MAX_STEP_NANOS,
        scalar_ops_ok(*ops),
    ensures
        dt == step_millis(*ops, dt_nanos as nat),
{
    ops.divide(ops.from_count(dt_nanos as usize), ops.from_count(1_000_000))
}

/// The potential after half a micro-step of the length `half_dt`.
fn potential_half_step<T: Copy, O: ScalarOps<T>>(
    Ghost(dt_nanos): Ghost<nat>,
    half_dt: T,
    v: T,
    u: T,
    i: T,
    ops: &O,
) -> (r: T)
    requires
        scalar_ops_ok(*ops),
        half_dt == half_step_millis(*ops, dt_nanos),
    ensures
        r == half_step(*ops, dt_nanos, v, u, i),
{
    let quadratic = ops.divide(ops.from_count(4), ops.from_count(100));
    let square = ops.times(ops.times(quadratic, v), v);
    let line = ops.times(ops.from_count(5), v);
    let rate = ops.plus(
        ops.minus(ops.plus(ops.plus(square, line), ops.from_count(140)), u),
        i,
    );
    ops.plus(v, ops.times(half_dt, rate))
}

impl<T: Copy> IzhikevichReservoir<T> {
    /// A reservoir with a micro-step of one millisecond. The neuron count is
    /// the length of `a`; every other part must agree with it.
    pub fn new(
        a: Vec<T>,
        b: Vec<T>,
        c: Vec<T>,
        d: Vec<T>,
        connections: Matrix<T>,
        v: Vec<T>,
        u: Vec<T>,
    ) -> (r: Self)
        requires
            b@.len() == a@.len(),
            c@.len() == a@.len(),
            d@.len() == a@.len(),
            v@.len() == a@.len(),
            u@.len() == a@.len(),
            connections@.len() == a@.len(),
            connections.cols() == a@.len(),
        ensures
            r@ == (ReservoirModel {
                a: a@,
                b: b@,
                c: c@,
                d: d@,
                connections: connections@,
                v: v@,
                u: u@,
            }),
            r@.wf(),
            r.dt() == MICRO_STEP_NANOS,
    {
        let neuron_count = a.len();
        // Reading the width brings the shape of the matrix into view.
        let width = connections.ncols();
        IzhikevichReservoir {
            neuron_count,
            a,
            b,
            c,
            d,
            connections,
            v,
            u,
            dt_nanos: MICRO_STEP_NANOS,
        }
    }

    /// The number of neurons.
    pub fn neuron_count(&self) -> (n: usize)
        ensures
            n == self@.n(),
            self@.wf(),
            0 < self.dt() <= MAX_STEP_NANOS,
    {
        proof {
            use_type_invariant(self);
        }
        self.neuron_count
    }

    /// The length of a micro-step in nanoseconds.
    pub fn dt_nanos(&self) -> (dt: u128)
        ensures
            dt == self.dt(),
            0 < dt <= MAX_STEP_NANOS,
    {
        proof {
            use_type_invariant(self);
        }
        self.dt_nanos
    }

    /// The time constants of the recovery variables.
    pub fn a(&self) -> (a: &Vec<T>)
        ensures
            a@ == self@.a,
    {
        &self.a
    }

    /// The sensitivities of the recovery variables.
    pub fn b(&self) -> (b: &Vec<T>)
        ensures
            b@ == self@.b,
    {
        &self.b
    }

    /// The reset potentials.
    pub fn c(&self) -> (c: &Vec<T>)
        ensures
            c@ == self@.c,
    {
        &self.c
    }

    /// The reset increments of the recovery variables.
    pub fn d(&self) -> (d: &Vec<T>)
        ensures
            d@ == self@.d,
    {
        &self.d
    }

    /// The connection weights: row `post`, column `pre`.
    pub fn connections(&self) -> (m: &Matrix<T>)
        ensures
            m@ == self@.connections,
            m.cols() == self@.n(),
    {
        proof {
            use_type_invariant(self);
        }
        &self.connections
    }

    /// The potentials.
    pub fn v(&self) -> (v: &Vec<T>)
        ensures
            v@ == self@.v,
    {
        &self.v
    }

    /// The recovery variables.
    pub fn u(&self) -> (u: &Vec<T>)
        ensures
            u@ == self@.u,
    {
        &self.u
    }

    /// A copy of the reservoir in its present state.
    pub fn duplicate(&self) -> (r: Self)
        ensures
            r@ == self@,
            r.dt() == self.dt(),
    {
        proof {
            use_type_invariant(self);
        }
        IzhikevichReservoir {
            neuron_count: self.neuron_count,
            a: copy_row(&self.a),
            b: copy_row(&self.b),
            c: copy_row(&self.c),
            d: copy_row(&self.d),
            connections: self.connections.duplicate(),
            v: copy_row(&self.v),
            u: copy_row(&self.u),
            dt_nanos: self.dt_nanos,
        }
    }

    /// Lets the neurons fire whose potential is above 30: each restarts at
    /// its reset potential, has its recovery variable raised by its
    /// increment, and adds its outgoing weights to `input`. Returns the input
    /// after that and the firing neurons in ascending order.
    pub fn diffuse<O: ScalarOps<T>>(&mut self, input: Vec<T>, ops: &O) -> (r: (Vec<T>, Vec<usize>))
        requires
            input@.len() == old(self)@.n(),
            scalar_ops_ok(*ops),
        ensures
            final(self)@ == diffuse_model(*ops, old(self)@),
            final(self).dt() == old(self).dt(),
            r.0@ == diffuse_input(*ops, old(self)@, input@),
            r.0@.len() == input@.len(),
            r.1@ == firing_ids(*ops, old(self)@.v, old(self)@.n()),
    {
        proof {
            use_type_invariant(&*self);
        }
        let n = self.neuron_count;
        let threshold = ops.from_count(30);
        let ghost m = self@;
        let mut firings: Vec<usize> = Vec::new();
        let mut new_v: Vec<T> = Vec::new();
        let mut new_u: Vec<T> = Vec::new();
        let mut i: usize = 0;
        while i < n
            invariant
                i <= n,
                m == self@,
                m.wf(),
                n == m.n(),
                scalar_ops_ok(*ops),
                threshold == firing_threshold(*ops),
                firings@ == firing_ids(*ops, m.v, i as nat),
                new_v@.len() == i,
                new_u@.len() == i,
                forall|k: int| 0 <= k < i ==> new_v@[k] == reset_potentials(*ops, m.v, m.c)[k],
                forall|k: int|
                    0 <= k < i ==> new_u@[k] == raised_recovery(*ops, m.v, m.u, m.d)[k],
            decreases n - i,
        {
            if ops.exceeds(self.v[i], threshold) {
                firings.push(i);
                new_v.push(self.c[i]);
                new_u.push(ops.plus(self.u[i], self.d[i]));
            } else {
                new_v.push(self.v[i]);
                new_u.push(self.u[i]);
            }
            i += 1;
        }
        proof {
            firing_ids_bounds(*ops, m.v, n as nat);
        }
        let mut input = input;
        let ghost input0 = input@;
        let mut k: usize = 0;
        while k < firings.len()
            invariant
                k <= firings@.len(),
                m == self@,
                m.wf(),
                n == m.n(),
                n == self.neuron_count,
                self.connections@ == m.connections,
                self.connections.cols() == n,
                scalar_ops_ok(*ops),
                input0.len() == n,
                forall|s: int| 0 <= s < firings@.len() ==> #[trigger] firings@[s] < n,
                input@ == diffused(*ops, input0, m.connections, firings@, k as nat),
                input@.len() == n,
            decreases firings@.len() - k,
        {
            let col = firings[k];
            let ghost before = input@;
            let mut next: Vec<T> = Vec::new();
            let mut j: usize = 0;
            while j < n
                invariant
                    j <= n,
                    col < n,
                    n == m.n(),
                    m.wf(),
                    self.connections@ == m.connections,
                    self.connections.cols() == n,
                    scalar_ops_ok(*ops),
                    input@ == before,
                    before.len() == n,
                    next@.len() == j,
                    forall|s: int|
                        0 <= s < j ==> next@[s] == add_column(
                            *ops,
                            before,
                            m.connections,
                            col as int,
                        )[s],
                decreases n - j,
            {
                next.push(ops.plus(input[j], self.connections.get(j, col)));
                j += 1;
            }
            assert(next@ =~= add_column(*ops, before, m.connections, col as int));
            input = next;
            k += 1;
        }
        assert(new_v@ =~= reset_potentials(*ops, m.v, m.c));
        assert(new_u@ =~= raised_recovery(*ops, m.v, m.u, m.d));
        self.v = new_v;
        self.u = new_u;
        (input, firings)
    }

    /// Integrates every neuron over one micro-step. The current into a
    /// neuron is kept between -100 and 50; its potential makes two half
    /// steps at the rate `0.04 * v * v + 5 * v + 140 - u + i`; its recovery
    /// variable then makes one full step at the rate `a * (b * v - u)`.
    pub fn excite<O: ScalarOps<T>>(&mut self, input: Vec<T>, ops: &O)
        requires
            input@.len() == old(self)@.n(),
            scalar_ops_ok(*ops),
        ensures
            final(self)@ == excite_model(*ops, old(self)@, old(self).dt(), input@),
            final(self).dt() == old(self).dt(),
    {
        proof {
            use_type_invariant(&*self);
        }
        let n = self.neuron_count;
        let ghost m = self@;
        let ghost step = self.dt_nanos as nat;
        let dt = millis_of(self.dt_nanos, ops);
        let half_dt = ops.times(ops.divide(ops.one(), ops.from_count(2)), dt);
        let floor = ops.negate(ops.from_count(100));
        let ceiling = ops.from_count(50);
        let mut new_v: Vec<T> = Vec::new();
        let mut new_u: Vec<T> = Vec::new();
        let mut i: usize = 0;
        while i < n
            invariant
                i <= n,
                m == self@,
                m.wf(),
                n == m.n(),
                input@.len() == n,
                scalar_ops_ok(*ops),
                dt == step_millis(*ops, step),
                half_dt == half_step_millis(*ops, step),
                floor == input_floor(*ops),
                ceiling == input_ceiling(*ops),
                new_v@.len() == i,
                new_u@.len() == i,
                forall|k: int|
                    0 <= k < i ==> new_v@[k] == excited_potential(
                        *ops,
                        step,
                        m.v[k],
                        m.u[k],
                        input@[k],
                    ),
                forall|k: int|
                    0 <= k < i ==> new_u@[k] == excited_recovery(
                        *ops,
                        step,
                        m.a[k],
                        m.b[k],
                        new_v@[k],
                        m.u[k],
                    ),
            decreases n - i,
        {
            let u = self.u[i];
            let kept = ops.limit(input[i], floor, ceiling);
            let v1 = potential_half_step(Ghost(step), half_dt, self.v[i], u, kept, ops);
            let v2 = potential_half_step(Ghost(step), half_dt, v1, u, kept, ops);
            let x = ops.minus(ops.times(self.b[i], v2), u);
            let u2 = ops.plus(u, ops.times(dt, ops.times(self.a[i], x)));
            new_v.push(v2);
            new_u.push(u2);
            i += 1;
        }
        assert(new_v@ =~= excited_potentials(*ops, m, step, input@));
        assert(new_u@ =~= excite_model(*ops, m, step, input@).u);
        self.v = new_v;
        self.u = new_u;
    }
}

/// A constant current into each neuron, held for a duration.
#[derive(Debug)]
pub struct IzhikevichInput<T> {
    pub input: Vec<T>,
    /// The length of the window in nanoseconds.
    pub duration_nanos: u128,
}

/// The trace after the first `k` of the firing neurons `ids` were counted:
/// each occurrence adds one to the entry of its neuron.
pub open spec fn bumped<T, O: ScalarOps<T>>(ops: O, trace: Seq<T>, ids: Seq<usize>, k: nat) -> Seq<T>
    decreases k,
{
    if k == 0 {
        trace
    } else {
        let prev = bumped(ops, trace, ids, (k - 1) as nat);
        prev.update(ids[k - 1] as int, sum(ops, prev[ids[k - 1] as int], one_of(ops)))
    }
}

/// The trace with every entry multiplied by the decay factor.
pub open spec fn decayed<T, O: ScalarOps<T>>(ops: O, trace: Seq<T>, decay: T) -> Seq<T> {
    trace.map_values(|x: T| product(ops, x, decay))
}

/// The spike trace `start` after the first `t` micro-steps of a firing log:
/// each micro-step first decays every entry and then counts the neurons that
/// fired in it.
pub open spec fn trace_from<T, O: ScalarOps<T>>(
    ops: O,
    start: Seq<T>,
    firings: Seq<Seq<usize>>,
    decay: T,
    t: nat,
) -> Seq<T>
    decreases t,
{
    if t == 0 {
        start
    } else {
        bumped(
            ops,
            decayed(ops, trace_from(ops, start, firings, decay, (t - 1) as nat), decay),
            firings[t - 1],
            firings[t - 1].len(),
        )
    }
}

/// The spike trace of `n` neurons after the first `t` micro-steps of the
/// firing log, started at zero.
pub open spec fn trace_after<T, O: ScalarOps<T>>(
    ops: O,
    firings: Seq<Seq<usize>>,
    n: nat,
    decay: T,
    t: nat,
) -> Seq<T> {
    trace_from(ops, Seq::new(n, |i: int| zero_of(ops)), firings, decay, t)
}

/// One row per input window: the spike trace at the end of the window.
pub open spec fn spike_traces<T, O: ScalarOps<T>>(
    ops: O,
    firings: Seq<Seq<usize>>,
    ends: Seq<usize>,
    n: nat,
    decay: T,
) -> Seq<Seq<T>> {
    Seq::new(ends.len(), |w: int| trace_after(ops, firings, n, decay, ends[w] as nat))
}

/// Every neuron named in the log exists.
pub open spec fn ids_below(firings: Seq<Seq<usize>>, n: nat) -> bool {
    forall|t: int, k: int|
        0 <= t < firings.len() && 0 <= k < firings[t].len() ==> (#[trigger] firings[t][k]) < n
}

/// The window ends never go back and lie within the log.
pub open spec fn ends_ordered(ends: Seq<usize>, steps: nat) -> bool {
    &&& forall|i: int, j: int| 0 <= i <= j < ends.len() ==> ends[i] <= ends[j]
    &&& forall|i: int| 0 <= i < ends.len() ==> ends[i] <= steps
}

/// Counting spikes keeps the length of the trace.
pub proof fn bumped_len<T, O: ScalarOps<T>>(ops: O, trace: Seq<T>, ids: Seq<usize>, k: nat)
    requires
        k <= ids.len(),
        forall|j: int| 0 <= j < ids.len() ==> ids[j] < trace.len(),
    ensures
        bumped(ops, trace, ids, k).len() == trace.len(),
    decreases k,
{
    if k > 0 {
        bumped_len(ops, trace, ids, (k - 1) as nat);
    }
}

/// A spike trace keeps its length over the micro-steps of a log.
pub proof fn trace_from_len<T, O: ScalarOps<T>>(
    ops: O,
    start: Seq<T>,
    firings: Seq<Seq<usize>>,
    decay: T,
    t: nat,
)
    requires
        ids_below(firings, start.len()),
        t <= firings.len(),
    ensures
        trace_from(ops, start, firings, decay, t).len() == start.len(),
    decreases t,
{
    if t > 0 {
        trace_from_len(ops, start, firings, decay, (t - 1) as nat);
        bumped_len(
            ops,
            decayed(ops, trace_from(ops, start, firings, decay, (t - 1) as nat), decay),
            firings[t - 1],
            firings[t - 1].len(),
        );
    }
}

/// A spike trace has one entry per neuron.
pub proof fn trace_after_len<T, O: ScalarOps<T>>(
    ops: O,
    firings: Seq<Seq<usize>>,
    n: nat,
    decay: T,
    t: nat,
)
    requires
        ids_below(firings, n),
        t <= firings.len(),
    ensures
        trace_after(ops, firings, n, decay, t).len() == n,
{
    trace_from_len(ops, Seq::new(n, |i: int| zero_of(ops)), firings, decay, t);
}

/// Drives a reservoir through input windows and keeps the log of what fired:
/// one list of firing neurons per micro-step and, for each window, the number
/// of micro-steps logged when it ended.
pub struct IzhikevichHarness<T> {
    reservoir: IzhikevichReservoir<T>,
    firings: Vec<Vec<usize>>,
    input_end_steps: Vec<usize>,
    total_time_nanos: u128,
}

impl<T> IzhikevichHarness<T> {
    #[verifier::type_invariant]
    spec fn inv(&self) -> bool {
        &&& ids_below(rows_view(self.firings@), self.reservoir@.n())
        &&& ends_ordered(self.input_end_steps@, self.firings@.len())
    }

    /// The reservoir in its present state.
    pub closed spec fn reservoir_model(&self) -> ReservoirModel<T> {
        self.reservoir@
    }

    /// The length of a micro-step in nanoseconds.
    pub closed spec fn dt(&self) -> nat {
        self.reservoir.dt()
    }

    /// The firing neurons of each micro-step so far.
    pub closed spec fn firing_log(&self) -> Seq<Seq<usize>> {
        rows_view(self.firings@)
    }

    /// For each window so far, the number of micro-steps logged at its end.
    pub closed spec fn window_ends(&self) -> Seq<usize> {
        self.input_end_steps@
    }

    /// The simulated time so far in nanoseconds.
    pub closed spec fn total_nanos(&self) -> nat {
        self.total_time_nanos as nat
    }
}

/// The number of micro-steps of length `dt` that a window of length
/// `duration` takes.
pub fn count_micro_steps(duration: u128, dt: u128) -> (k: u128)
    requires
        dt > 0,
    ensures
        k == micro_steps(duration as nat, dt as nat),
{
    if duration == 0 {
        0
    } else {
        (duration - 1) / dt + 1
    }
}

impl<T: Copy> IzhikevichHarness<T> {
    /// A harness around `reservoir` with an empty log.
    pub fn new(reservoir: IzhikevichReservoir<T>) -> (h: Self)
        ensures
            h.reservoir_model() == reservoir@,
            h.dt() == reservoir.dt(),
            h.firing_log() == Seq::<Seq<usize>>::empty(),
            h.window_ends() == Seq::<usize>::empty(),
            h.total_nanos() == 0,
    {
        let firings: Vec<Vec<usize>> = Vec::new();
        assert(rows_view(firings@) =~= Seq::<Seq<usize>>::empty());
        IzhikevichHarness {
            reservoir,
            firings,
            input_end_steps: Vec::new(),
            total_time_nanos: 0,
        }
    }

    /// The reservoir.
    pub fn reservoir(&self) -> (r: &IzhikevichReservoir<T>)
        ensures
            r@ == self.reservoir_model(),
            r.dt() == self.dt(),
    {
        &self.reservoir
    }

    /// The firing neurons of each micro-step so far.
    pub fn firings(&self) -> (f: &Vec<Vec<usize>>)
        ensures
            rows_view(f@) == self.firing_log(),
            ids_below(self.firing_log(), self.reservoir_model().n()),
    {
        proof {
            use_type_invariant(self);
        }
        &self.firings
    }

    /// For each window so far, the number of micro-steps logged at its end.
    pub fn input_end_steps(&self) -> (e: &Vec<usize>)
        ensures
            e@ == self.window_ends(),
            ends_ordered(self.window_ends(), self.firing_log().len()),
    {
        proof {
            use_type_invariant(self);
        }
        &self.input_end_steps
    }

    /// The simulated time so far in nanoseconds.
    pub fn total_time_nanos(&self) -> (t: u128)
        ensures
            t == self.total_nanos(),
    {
        self.total_time_nanos
    }

    /// Holds the current `input.input` for `input.duration_nanos`: the
    /// reservoir makes micro-steps until their lengths add up to the
    /// duration, the firing list of each goes to the log, and the end of the
    /// window is marked by the length of the log.
    pub fn process_input<O: ScalarOps<T>>(&mut self, input: IzhikevichInput<T>, ops: &O)
        requires
            input.input@.len() == old(self).reservoir_model().n(),
            scalar_ops_ok(*ops),
            old(self).total_nanos() + micro_steps(input.duration_nanos as nat, old(self).dt())
                * old(self).dt() <= u128::MAX,
        ensures
            final(self).dt() == old(self).dt(),
            final(self).reservoir_model() == run_model(
                *ops,
                old(self).reservoir_model(),
                old(self).dt(),
                input.input@,
                micro_steps(input.duration_nanos as nat, old(self).dt()),
            ),
            final(self).firing_log() == old(self).firing_log() + run_firings(
                *ops,
                old(self).reservoir_model(),
                old(self).dt(),
                input.input@,
                micro_steps(input.duration_nanos as nat, old(self).dt()),
            ),
            final(self).firing_log().len() <= usize::MAX,
            final(self).window_ends() == old(self).window_ends().push(
                final(self).firing_log().len() as usize,
            ),
            final(self).total_nanos() == old(self).total_nanos() + micro_steps(
                input.duration_nanos as nat,
                old(self).dt(),
            ) * old(self).dt(),
    {
        proof {
            use_type_invariant(&*self);
        }
        // Take the parts out, ends first, so that the harness stays
        // consistent while they are worked on.
        let mut ends: Vec<usize> = Vec::new();
        std::mem::swap(&mut self.input_end_steps, &mut ends);
        let mut log: Vec<Vec<usize>> = Vec::new();
        assert(rows_view(log@) =~= Seq::<Seq<usize>>::empty());
        std::mem::swap(&mut self.firings, &mut log);
        let mut reservoir = IzhikevichReservoir::new(
            Vec::new(),
            Vec::new(),
            Vec::new(),
            Vec::new(),
            Matrix::empty(0),
            Vec::new(),
            Vec::new(),
        );
        std::mem::swap(&mut self.reservoir, &mut reservoir);

        let dt = reservoir.dt_nanos();
        let n = reservoir.neuron_count();
        let steps = count_micro_steps(input.duration_nanos, dt);
        let ghost m0 = reservoir@;
        let ghost log0 = rows_view(log@);
        let ghost cur = input.input@;
        let ghost planned = run_firings(*ops, m0, dt as nat, cur, steps as nat);
        let mut done: u128 = 0;
        while done < steps
            invariant
                done <= steps,
                reservoir@ == run_model(*ops, m0, dt as nat, cur, done as nat),
                reservoir@.wf(),
                reservoir@.n() == n,
                reservoir.dt() == dt,
                cur == input.input@,
                cur.len() == n,
                scalar_ops_ok(*ops),
                planned == run_firings(*ops, m0, dt as nat, cur, steps as nat),
                rows_view(log@) == log0 + planned.take(done as int),
                ids_below(rows_view(log@), n as nat),
            decreases steps - done,
        {
            let current = copy_row(&input.input);
            let ghost before = reservoir@;
            let ghost log_before = rows_view(log@);
            let (input_and_firings, fired) = reservoir.diffuse(current, ops);
            proof {
                firing_ids_bounds(*ops, before.v, n as nat);
            }
            log.push(fired);
            reservoir.excite(input_and_firings, ops);
            proof {
                assert(reservoir@ == micro_step(*ops, before, dt as nat, cur));
                assert(planned[done as int] == fired@);
                assert(planned.take(done + 1) =~= planned.take(done as int).push(fired@));
                assert(rows_view(log@) =~= log_before.push(fired@));
                assert(rows_view(log@) =~= log0 + planned.take(done + 1));
                assert(ids_below(rows_view(log@), n as nat)) by {
                    assert forall|t: int, k: int|
                        0 <= t < rows_view(log@).len() && 0 <= k < rows_view(
                            log@,
                        )[t].len() implies (#[trigger] rows_view(log@)[t][k]) < n by {
                        if t < log_before.len() {
                            assert(rows_view(log@)[t] == log_before[t]);
                        } else {
                            assert(rows_view(log@)[t] == fired@);
                        }
                    }
                }
            }
            done += 1;
        }
        proof {
            assert(planned.take(steps as int) =~= planned);
        }
        let end = log.len();
        let ghost ends0 = ends@;
        ends.push(end);
        proof {
            assert(ends_ordered(ends@, log@.len())) by {
                assert forall|i: int, j: int| 0 <= i <= j < ends@.len() implies ends@[i]
                    <= ends@[j] by {
                    if j == ends0.len() {
                        if i < j {
                            assert(ends0[i] <= log0.len());
                        }
                    } else {
                        assert(ends0[i] <= ends0[j]);
                    }
                }
                assert forall|i: int| 0 <= i < ends@.len() implies ends@[i] <= log@.len() by {
                    if i < ends0.len() {
                        assert(ends0[i] <= log0.len());
                    }
                }
            }
        }
        let elapsed = elapsed_nanos(steps, dt, self.total_time_nanos);
        self.reservoir = reservoir;
        self.firings = log;
        self.input_end_steps = ends;
        self.total_time_nanos = self.total_time_nanos + elapsed;
    }

    /// The spike traces at the ends of the input windows, one row per window
    /// and one column per neuron. A trace starts at zero; each micro-step
    /// multiplies every entry by `decay_factor` and then adds one to the
    /// entry of each neuron that fired. Without neurons the rows are empty;
    /// without windows there are no rows.
    pub fn calculate_spike_traces<O: ScalarOps<T>>(&self, decay_factor: T, ops: &O) -> (out: Matrix<
        T,
    >)
        requires
            scalar_ops_ok(*ops),
        ensures
            out@ == spike_traces(
                *ops,
                self.firing_log(),
                self.window_ends(),
                self.reservoir_model().n(),
                decay_factor,
            ),
            out.cols() == self.reservoir_model().n(),
    {
        proof {
            use_type_invariant(self);
        }
        let n = self.reservoir.neuron_count();
        let zero = ops.zero();
        let one = ops.one();
        let ghost log = rows_view(self.firings@);
        let ghost ends = self.input_end_steps@;
        let ghost expected = spike_traces(*ops, log, ends, n as nat, decay_factor);
        if n == 0 {
            let out = Matrix::filled(self.input_end_steps.len(), 0, zero);
            proof {
                assert forall|w: int| 0 <= w < ends.len() implies out@[w] == expected[w] by {
                    trace_after_len(*ops, log, 0, decay_factor, ends[w] as nat);
                    assert(out@[w] =~= expected[w]);
                }
                assert(out@ =~= expected);
            }
            return out;
        }
        if self.input_end_steps.len() == 0 {
            assert(expected =~= Seq::<Seq<T>>::empty());
            return Matrix::empty(n);
        }
        let mut trace = copy_of(zero, n);
        let mut rows: Vec<Vec<T>> = Vec::new();
        let mut w: usize = 0;
        let mut t: usize = 0;
        while w < self.input_end_steps.len()
            invariant
                w <= ends.len(),
                t <= log.len(),
                log == rows_view(self.firings@),
                ends == self.input_end_steps@,
                ids_below(log, n as nat),
                ends_ordered(ends, log.len()),
                scalar_ops_ok(*ops),
                one == one_of(*ops),
                w < ends.len() ==> ends[w as int] >= t,
                trace@ == trace_after(*ops, log, n as nat, decay_factor, t as nat),
                trace@.len() == n,
                rows@.len() == w,
                forall|j: int|
                    0 <= j < w ==> (#[trigger] rows@[j])@ == trace_after(
                        *ops,
                        log,
                        n as nat,
                        decay_factor,
                        ends[j] as nat,
                    ),
            decreases (ends.len() - w) + (log.len() - t),
        {
            if self.input_end_steps[w] == t {
                rows.push(copy_row(&trace));
                proof {
                    if w + 1 < ends.len() {
                        assert(ends[w as int] <= ends[w + 1]);
                    }
                }
                w += 1;
            } else {
                assert(ends[w as int] <= log.len());
                let fired = &self.firings[t];
                let ghost start = decayed(*ops, trace@, decay_factor);
                trace = scale_row(&trace, decay_factor, ops);
                let mut k: usize = 0;
                while k < fired.len()
                    invariant
                        k <= fired@.len(),
                        fired@ == log[t as int],
                        t < log.len(),
                        ids_below(log, n as nat),
                        scalar_ops_ok(*ops),
                        one == one_of(*ops),
                        start.len() == n,
                        trace@ == bumped(*ops, start, fired@, k as nat),
                        trace@.len() == n,
                    decreases fired@.len() - k,
                {
                    let id = fired[k];
                    assert(log[t as int][k as int] < n);
                    let raised = ops.plus(trace[id], one);
                    trace.set(id, raised);
                    k += 1;
                }
                t += 1;
            }
        }
        proof {
            assert(rows_view(rows@) =~= expected);
            assert forall|j: int| 0 <= j < rows@.len() implies (#[trigger] rows_view(
                rows@,
            )[j]).len() == n by {
                trace_after_len(*ops, log, n as nat, decay_factor, ends[j] as nat);
            }
        }
        Matrix::from_rows(n, rows)
    }

    /// The number of spikes in each micro-step so far.
    pub fn spike_counts(&self) -> (counts: Vec<usize>)
        ensures
            counts@ == Seq::new(
                self.firing_log().len(),
                |t: int| self.firing_log()[t].len() as usize,
            ),
    {
        let mut counts: Vec<usize> = Vec::new();
        let mut t: usize = 0;
        while t < self.firings.len()
            invariant
                t <= self.firings@.len(),
                counts@.len() == t,
                forall|s: int| 0 <= s < t ==> counts@[s] == self.firings@[s]@.len(),
            decreases self.firings@.len() - t,
        {
            counts.push(self.firings[t].len());
            t += 1;
        }
        assert(counts@ =~= Seq::new(
            self.firing_log().len(),
            |t: int| self.firing_log()[t].len() as usize,
        ));
        counts
    }
}

/// The time that `steps` micro-steps of length `dt` take.
fn elapsed_nanos(steps: u128, dt: u128, total: u128) -> (elapsed: u128)
    requires
        total + steps * dt <= u128::MAX,
    ensures
        elapsed == steps * dt,
{
    assert(steps * dt <= u128::MAX) by (nonlinear_arith)
        requires
            total + steps * dt <= u128::MAX,
            total >= 0,
    ;
    steps * dt
}

/// The potential at which a neuron rests: -65.
pub open spec fn resting_potential<T, O: ScalarOps<T>>(ops: O) -> T {
    negated(ops, count_of(ops, 65))
}

/// The parameters `(a, b, c, d)` of a neuron by its class: those of a
/// regular-spiking neuron, `(0.02, 0.2, -65, 8)`, for an excitatory one and
/// those of a fast-spiking neuron, `(0.1, 0.2, -65, 2)`, for an inhibitory
/// one.
pub open spec fn class_parameters<T, O: ScalarOps<T>>(ops: O, excitatory: bool) -> (T, T, T, T) {
    (
        if excitatory {
            quotient(ops, count_of(ops, 2), count_of(ops, 100))
        } else {
            quotient(ops, one_of(ops), count_of(ops, 10))
        },
        quotient(ops, count_of(ops, 2), count_of(ops, 10)),
        resting_potential(ops),
        if excitatory {
            count_of(ops, 8)
        } else {
            count_of(ops, 2)
        },
    )
}

/// A reservoir of one neuron of the given class that rests: its potential
/// is -65, its recovery variable `b` times that, and the one connection
/// weight is zero.
pub open spec fn single_neuron_model<T, O: ScalarOps<T>>(ops: O, excitatory: bool)
    -> ReservoirModel<T> {
    let (a, b, c, d) = class_parameters(ops, excitatory);
    ReservoirModel {
        a: seq![a],
        b: seq![b],
        c: seq![c],
        d: seq![d],
        connections: seq![seq![zero_of(ops)]],
        v: seq![resting_potential(ops)],
        u: seq![product(ops, b, resting_potential(ops))],
    }
}

/// The number of excitatory neurons among `n`: `n * excit_frac`, rounded.
pub open spec fn excitatory_count<T, O: ScalarOps<T>>(ops: O, n: usize, excit_frac: T) -> usize {
    rounded(ops, product(ops, count_of(ops, n), excit_frac))
}

/// The greatest magnitude of a weight that leaves a neuron of the given
/// class: a half for an excitatory one, one for an inhibitory one.
pub open spec fn weight_bound<T, O: ScalarOps<T>>(ops: O, excitatory: bool) -> T {
    if excitatory {
        quotient(ops, one_of(ops), count_of(ops, 2))
    } else {
        one_of(ops)
    }
}

/// The bound of the noise on a start potential: 5.
pub open spec fn noise_bound<T, O: ScalarOps<T>>(ops: O) -> T {
    count_of(ops, 5)
}

/// The weight of one connection and the generator after it was decided. A
/// neuron sends nothing to itself, and no draw is made for that. To another
/// neuron it sends a weight where the chance `p` is greater than a draw
/// between zero and one: a further draw between zero and the bound of its
/// class, taken as it is from an excitatory neuron and negated from an
/// inhibitory one. Else the weight is zero.
pub open spec fn connection<T, O: ScalarOps<T> + SeededDraws<T>>(
    ops: O,
    stream: O::Stream,
    p: T,
    excitatory: bool,
    to_itself: bool,
) -> (T, O::Stream) {
    if to_itself {
        (zero_of(ops), stream)
    } else {
        let unit = unit_of(ops, stream);
        if greater(ops, p, unit.0) {
            let x = between_of(ops, unit.1, zero_of(ops), weight_bound(ops, excitatory));
            (
                if excitatory {
                    x.0
                } else {
                    negated(ops, x.0)
                },
                x.1,
            )
        } else {
            (zero_of(ops), unit.1)
        }
    }
}

/// The generator after the connections of the sender `pre` to the first `k`
/// receivers were decided, from the generator `stream`; the first `e`
/// neurons are excitatory.
pub open spec fn sender_stream<T, O: ScalarOps<T> + SeededDraws<T>>(
    ops: O,
    stream: O::Stream,
    p: T,
    e: nat,
    pre: nat,
    k: nat,
) -> O::Stream
    decreases k,
{
    if k == 0 {
        stream
    } else {
        connection(
            ops,
            sender_stream(ops, stream, p, e, pre, (k - 1) as nat),
            p,
            pre < e,
            k - 1 == pre,
        ).1
    }
}

/// The generator after the connections of the first `j` senders among `n`
/// neurons were decided, sender by sender.
pub open spec fn senders_stream<T, O: ScalarOps<T> + SeededDraws<T>>(
    ops: O,
    stream: O::Stream,
    p: T,
    e: nat,
    n: nat,
    j: nat,
) -> O::Stream
    decreases j,
{
    if j == 0 {
        stream
    } else {
        sender_stream(
            ops,
            senders_stream(ops, stream, p, e, n, (j - 1) as nat),
            p,
            e,
            (j - 1) as nat,
            n,
        )
    }
}

/// The weight from the neuron `pre` to the neuron `post` among `n` neurons,
/// when the connections are decided from the generator `stream`, sender by
/// sender and for each sender receiver by receiver.
pub open spec fn drawn_connection<T, O: ScalarOps<T> + SeededDraws<T>>(
    ops: O,
    stream: O::Stream,
    p: T,
    e: nat,
    n: nat,
    pre: nat,
    post: nat,
) -> T {
    connection(
        ops,
        sender_stream(ops, senders_stream(ops, stream, p, e, n, pre), p, e, pre, post),
        p,
        pre < e,
        post == pre,
    ).0
}

/// The potential that neuron `i` starts at: the resting potential plus draw
/// `i` between -5 and 5 of the generator `stream`.
pub open spec fn start_potential<T, O: ScalarOps<T> + SeededDraws<T>>(
    ops: O,
    stream: O::Stream,
    i: nat,
) -> T {
    sum(
        ops,
        resting_potential(ops),
        drawn_between(ops, stream, negated(ops, noise_bound(ops)), noise_bound(ops), i),
    )
}

/// The random reservoir of `n` neurons that the generator `stream` gives,
/// with the first `e` neurons excitatory and the chance `p` of a
/// connection. Each neuron has the parameters of its class. The start
/// potentials are drawn first, neuron by neuron, and the recovery variable
/// of a neuron is `b * v`. The connections are drawn after them.
pub open spec fn random_reservoir<T, O: ScalarOps<T> + SeededDraws<T>>(
    ops: O,
    n: nat,
    e: nat,
    p: T,
    stream: O::Stream,
) -> ReservoirModel<T> {
    let after_noise = run_between(
        ops,
        stream,
        negated(ops, noise_bound(ops)),
        noise_bound(ops),
        n,
    );
    ReservoirModel {
        a: Seq::new(n, |i: int| class_parameters(ops, i < e).0),
        b: Seq::new(n, |i: int| class_parameters(ops, i < e).1),
        c: Seq::new(n, |i: int| class_parameters(ops, i < e).2),
        d: Seq::new(n, |i: int| class_parameters(ops, i < e).3),
        connections: Seq::new(
            n,
            |post: int|
                Seq::new(
                    n,
                    |pre: int|
                        drawn_connection(ops, after_noise, p, e, n, pre as nat, post as nat),
                ),
        ),
        v: Seq::new(n, |i: int| start_potential(ops, stream, i as nat)),
        u: Seq::new(
            n,
            |i: int|
                product(ops, class_parameters(ops, i < e).1, start_potential(ops, stream, i as nat)),
        ),
    }
}

/// Without a chance nothing is connected: where the chance `p` is greater
/// than no draw between zero and one, every weight of the random reservoir
/// is zero, whatever the generator.
pub proof fn no_chance_no_connection<T, O: ScalarOps<T> + SeededDraws<T>>(
    ops: O,
    n: nat,
    e: nat,
    p: T,
    stream: O::Stream,
)
    requires
        forall|s: O::Stream| !greater(ops, p, (#[trigger] unit_of(ops, s)).0),
    ensures
        random_reservoir(ops, n, e, p, stream).connections == Seq::new(
            n,
            |post: int| Seq::new(n, |pre: int| zero_of(ops)),
        ),
{
    let after_noise = run_between(
        ops,
        stream,
        negated(ops, noise_bound(ops)),
        noise_bound(ops),
        n,
    );
    let made = random_reservoir(ops, n, e, p, stream).connections;
    let none = Seq::new(n, |post: int| Seq::new(n, |pre: int| zero_of(ops)));
    assert forall|post: int| 0 <= post < n implies #[trigger] made[post] =~= none[post] by {
        assert forall|pre: int| 0 <= pre < n implies made[post][pre] == zero_of(ops) by {
            let before = sender_stream(
                ops,
                senders_stream(ops, after_noise, p, e, n, pre as nat),
                p,
                e,
                pre as nat,
                post as nat,
            );
            assert(!greater(ops, p, unit_of(ops, before).0));
        }
    }
    assert(made =~= none);
}

/// The parameters of a neuron of the given class.
fn parameters_of<T: Copy, O: ScalarOps<T>>(excitatory: bool, ops: &O) -> (r: (T, T, T, T))
    requires
        scalar_ops_ok(*ops),
    ensures
        r == class_parameters(*ops, excitatory),
{
    let a = if excitatory {
        ops.divide(ops.from_count(2), ops.from_count(100))
    } else {
        ops.divide(ops.one(), ops.from_count(10))
    };
    let b = ops.divide(ops.from_count(2), ops.from_count(10));
    let c = ops.negate(ops.from_count(65));
    let d = if excitatory {
        ops.from_count(8)
    } else {
        ops.from_count(2)
    };
    (a, b, c, d)
}

/// A reservoir of one resting neuron of the given class.
fn single_neuron_reservoir<T: Copy, O: ScalarOps<T>>(excitatory: bool, ops: &O) -> (r:
    IzhikevichReservoir<T>)
    requires
        scalar_ops_ok(*ops),
    ensures
        r@ == single_neuron_model(*ops, excitatory),
        r.dt() == MICRO_STEP_NANOS,
{
    let (a, b, c, d) = parameters_of(excitatory, ops);
    let rest = ops.negate(ops.from_count(65));
    let u0 = ops.times(b, rest);
    let connections = Matrix::filled(1, 1, ops.zero());
    let r = IzhikevichReservoir::new(
        copy_of(a, 1),
        copy_of(b, 1),
        copy_of(c, 1),
        copy_of(d, 1),
        connections,
        copy_of(rest, 1),
        copy_of(u0, 1),
    );
    proof {
        let m = single_neuron_model(*ops, excitatory);
        assert(r@.a =~= m.a);
        assert(r@.b =~= m.b);
        assert(r@.c =~= m.c);
        assert(r@.d =~= m.d);
        assert(r@.v =~= m.v);
        assert(r@.u =~= m.u);
        assert(r@.connections[0] =~= m.connections[0]);
        assert(r@.connections =~= m.connections);
    }
    r
}

/// A reservoir of one regular-spiking neuron at rest.
pub fn regular_spiking_single_neuron_reservoir<T: Copy, O: ScalarOps<T>>(ops: &O) -> (r:
    IzhikevichReservoir<T>)
    requires
        scalar_ops_ok(*ops),
    ensures
        r@ == single_neuron_model(*ops, true),
        r.dt() == MICRO_STEP_NANOS,
{
    single_neuron_reservoir(true, ops)
}

/// A reservoir of one fast-spiking neuron at rest.
pub fn fast_spiking_single_neuron_reservoir<T: Copy, O: ScalarOps<T>>(ops: &O) -> (r:
    IzhikevichReservoir<T>)
    requires
        scalar_ops_ok(*ops),
    ensures
        r@ == single_neuron_model(*ops, false),
        r.dt() == MICRO_STEP_NANOS,
{
    single_neuron_reservoir(false, ops)
}

/// The seed of the draws that a random reservoir is made from.
pub const RESERVOIR_SEED: u64 = 42;

/// The weight of one connection, decided from the generator `stream`, and
/// the generator after it.
pub fn draw_connection<T: Copy, O: ScalarOps<T> + SeededDraws<T>>(
    stream: O::Stream,
    p: T,
    excitatory: bool,
    to_itself: bool,
    ops: &O,
) -> (r: (T, O::Stream))
    requires
        scalar_ops_ok(*ops),
        draws_ok(*ops),
    ensures
        r == connection(*ops, stream, p, excitatory, to_itself),
{
    let zero = ops.zero();
    if to_itself {
        return (zero, stream);
    }
    let (unit, after_unit) = ops.next_unit(stream);
    if ops.exceeds(p, unit) {
        let bound = if excitatory {
            ops.divide(ops.one(), ops.from_count(2))
        } else {
            ops.one()
        };
        let (x, after_weight) = ops.next_between(after_unit, zero, bound);
        let w = if excitatory {
            x
        } else {
            ops.negate(x)
        };
        (w, after_weight)
    } else {
        (zero, after_unit)
    }
}

/// The random reservoir of `n` neurons that the generator `stream` gives.
/// The first `n * excit_frac` (rounded) are excitatory, the others
/// inhibitory. Each starts at the resting potential plus a draw between -5
/// and 5. A neuron sends a weight to each other neuron with the chance `p`:
/// a draw between zero and a half from an excitatory neuron, the opposite
/// of a draw between zero and one from an inhibitory one.
pub fn reservoir_from_stream<T: Copy, O: ScalarOps<T> + SeededDraws<T>>(
    n: usize,
    p: T,
    excit_frac: T,
    stream: O::Stream,
    ops: &O,
) -> (r: IzhikevichReservoir<T>)
    requires
        scalar_ops_ok(*ops),
        draws_ok(*ops),
    ensures
        r@ == random_reservoir(
            *ops,
            n as nat,
            excitatory_count(*ops, n, excit_frac) as nat,
            p,
            stream,
        ),
        r@.wf(),
        r@.n() == n,
        r.dt() == MICRO_STEP_NANOS,
{
    let e_count = ops.round_to_count(ops.times(ops.from_count(n), excit_frac));
    let ghost e = e_count as nat;
    let ghost expected = random_reservoir(*ops, n as nat, e, p, stream);
    let rest = ops.negate(ops.from_count(65));
    let noise_high = ops.from_count(5);
    let noise_low = ops.negate(noise_high);
    let mut a: Vec<T> = Vec::new();
    let mut b: Vec<T> = Vec::new();
    let mut c: Vec<T> = Vec::new();
    let mut d: Vec<T> = Vec::new();
    let mut i: usize = 0;
    while i < n
        invariant
            i <= n,
            scalar_ops_ok(*ops),
            a@.len() == i,
            b@.len() == i,
            c@.len() == i,
            d@.len() == i,
            forall|k: int|
                0 <= k < i ==> (#[trigger] a@[k], b@[k], c@[k], d@[k]) == class_parameters(
                    *ops,
                    k < e_count,
                ),
        decreases n - i,
    {
        let (pa, pb, pc, pd) = parameters_of(i < e_count, ops);
        a.push(pa);
        b.push(pb);
        c.push(pc);
        d.push(pd);
        i += 1;
    }
    let (noise, after_noise) = draw_row(stream, noise_low, noise_high, n, ops);
    let mut v: Vec<T> = Vec::new();
    let mut u: Vec<T> = Vec::new();
    let mut i: usize = 0;
    while i < n
        invariant
            i <= n,
            scalar_ops_ok(*ops),
            b@.len() == n,
            noise@.len() == n,
            rest == resting_potential(*ops),
            v@.len() == i,
            u@.len() == i,
            forall|k: int| 0 <= k < i ==> v@[k] == sum(*ops, rest, noise@[k]),
            forall|k: int| 0 <= k < i ==> u@[k] == product(*ops, b@[k], v@[k]),
        decreases n - i,
    {
        let start = ops.plus(rest, noise[i]);
        v.push(start);
        u.push(ops.times(b[i], start));
        i += 1;
    }
    // The weights are drawn sender by sender, so the rows built here are the
    // columns of the connection matrix.
    let mut outgoing: Vec<Vec<T>> = Vec::new();
    let mut current = after_noise;
    let mut pre: usize = 0;
    while pre < n
        invariant
            pre <= n,
            scalar_ops_ok(*ops),
            draws_ok(*ops),
            e == e_count,
            current == senders_stream(*ops, after_noise, p, e, n as nat, pre as nat),
            outgoing@.len() == pre,
            rectangular(rows_view(outgoing@), n as nat),
            forall|s: int, t: int|
                0 <= s < pre && 0 <= t < n ==> (#[trigger] outgoing@[s]@[t]) == drawn_connection(
                    *ops,
                    after_noise,
                    p,
                    e,
                    n as nat,
                    s as nat,
                    t as nat,
                ),
        decreases n - pre,
    {
        let ghost before_sender = current;
        let mut row: Vec<T> = Vec::new();
        let mut post: usize = 0;
        while post < n
            invariant
                post <= n,
                pre < n,
                scalar_ops_ok(*ops),
                draws_ok(*ops),
                e == e_count,
                before_sender == senders_stream(*ops, after_noise, p, e, n as nat, pre as nat),
                current == sender_stream(*ops, before_sender, p, e, pre as nat, post as nat),
                row@.len() == post,
                forall|t: int|
                    0 <= t < post ==> (#[trigger] row@[t]) == drawn_connection(
                        *ops,
                        after_noise,
                        p,
                        e,
                        n as nat,
                        pre as nat,
                        t as nat,
                    ),
            decreases n - post,
        {
            let (w, next) = draw_connection(current, p, pre < e_count, post == pre, ops);
            row.push(w);
            current = next;
            post += 1;
        }
        let ghost before = rows_view(outgoing@);
        let ghost row_spec = row@;
        outgoing.push(row);
        proof {
            assert(rows_view(outgoing@) =~= before.push(row_spec));
        }
        pre += 1;
    }
    let columns = Matrix::from_rows(n, outgoing);
    let connections = transposed(&columns);
    let r = IzhikevichReservoir::new(a, b, c, d, connections, v, u);
    proof {
        let m = r@;
        assert forall|k: int| 0 <= k < n implies m.a[k] == expected.a[k] && m.b[k]
            == expected.b[k] && m.c[k] == expected.c[k] && m.d[k] == expected.d[k] by {
            assert((m.a[k], m.b[k], m.c[k], m.d[k]) == class_parameters(*ops, k < e_count));
        }
        assert(m.a =~= expected.a);
        assert(m.b =~= expected.b);
        assert(m.c =~= expected.c);
        assert(m.d =~= expected.d);
        assert(m.v =~= expected.v);
        assert(m.u =~= expected.u);
        assert forall|post: int| 0 <= post < n implies #[trigger] m.connections[post]
            =~= expected.connections[post] by {
            assert forall|pre: int| 0 <= pre < n implies m.connections[post][pre]
                == expected.connections[post][pre] by {
                assert(m.connections[post][pre] == columns@[pre][post]);
                assert(columns@[pre] == outgoing@[pre]@);
            }
        }
        assert(m.connections =~= expected.connections);
    }
    r
}

/// A random reservoir of `n` neurons: the one that the generator of a fixed
/// seed gives. Equal arguments give the same reservoir.
pub fn random_izhikevich<T: Copy, O: ScalarOps<T> + SeededDraws<T>>(
    n: usize,
    p: T,
    excit_frac: T,
    ops: &O,
) -> (r: IzhikevichReservoir<T>)
    requires
        scalar_ops_ok(*ops),
        draws_ok(*ops),
    ensures
        r@ == random_reservoir(
            *ops,
            n as nat,
            excitatory_count(*ops, n, excit_frac) as nat,
            p,
            stream_of(*ops, RESERVOIR_SEED),
        ),
        r@.wf(),
        r@.n() == n,
        r.dt() == MICRO_STEP_NANOS,
{
    let stream = ops.seeded(RESERVOIR_SEED);
    reservoir_from_stream(n, p, excit_frac, stream, ops)
}

} // verus!

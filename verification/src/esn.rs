//! The echo-state reservoir.
//!
//! A reservoir holds a square matrix of internal weights and a matrix of
//! input weights. Its state is a matrix with one row per episode that is
//! simulated at the same time. A step applies the internal weights to the
//! state and the input weights to the input, adds the two and squashes the
//! sum entry by entry.

use crate::coin::{bernoulli_from_ratio, bernoulli_sample, thread_generator};
use crate::linalg::{
    is_matrix_product, is_spectral_radius, matrix_ops_ok, matrix_product, matrix_sum,
    plus_matrix, spectral_radius_of, transposed, Draws, MatrixOps,
};
use crate::matrix::{copy_row, filled_spec, rectangular, rows_view, transpose_spec, Matrix};
use crate::scalar::{
    greater, is_squash_result, negated, not_above, one_of, quotient, scalar_ops_ok, squashed,
    zero_of, ScalarOps,
};
use vstd::prelude::*;

verus! {

/// The input weight that a coin flip chooses: the scaling for heads, its
/// opposite for tails.
pub fn signed_scaling<T: Copy>(heads: bool, scaling: T, opposite: T) -> (w: T)
    ensures
        w == if heads {
            scaling
        } else {
            opposite
        },
{
    if heads {
        scaling
    } else {
        opposite
    }
}

/// Every entry of `m` is one of `a` and `b`.
pub open spec fn entries_among<T>(m: Seq<Seq<T>>, a: T, b: T) -> bool {
    forall|i: int, j: int|
        0 <= i < m.len() && 0 <= j < m[i].len() ==> (#[trigger] m[i][j]) == a || m[i][j] == b
}

/// `x` is an entry of masked weights for the chance `connectivity`: a
/// weight that was drawn where a draw of the mask kept it, and zero where
/// that draw did not.
pub open spec fn is_masked_entry<T, O: ScalarOps<T> + Draws<T>>(ops: O, connectivity: T, x: T)
    -> bool {
    exists|kept: bool| #[trigger]
        call_ensures(O::draw_mask, (&ops, connectivity), kept) && if kept {
            call_ensures(O::draw_weight, (&ops,), x)
        } else {
            x == zero_of(ops)
        }
}

/// Every entry of `m` is an entry of masked weights for the chance
/// `connectivity`.
pub open spec fn is_masked_draw<T, O: ScalarOps<T> + Draws<T>>(
    ops: O,
    connectivity: T,
    m: Seq<Seq<T>>,
) -> bool {
    forall|i: int, j: int|
        0 <= i < m.len() && 0 <= j < m[i].len() ==> is_masked_entry(
            ops,
            connectivity,
            #[trigger] m[i][j],
        )
}

/// The weights `raw`, scaled to the spectral radius `spectral_radius`: each
/// is divided by the quotient of the spectral radius of `raw` and the
/// spectral radius asked for.
pub open spec fn scaled_weights<T, O: MatrixOps<T>>(ops: O, raw: Seq<Seq<T>>, spectral_radius: T)
    -> Seq<Seq<T>> {
    let scale = quotient(ops, spectral_radius_of(ops, raw), spectral_radius);
    Seq::new(
        raw.len(),
        |i: int| Seq::new(raw[i].len(), |j: int| quotient(ops, raw[i][j], scale)),
    )
}

/// `w` are internal weights of `units` units for the chance `connectivity`
/// and the spectral radius `spectral_radius`: masked draws, scaled.
pub open spec fn is_internal_weights<T, O: MatrixOps<T> + Draws<T>>(
    ops: O,
    w: Seq<Seq<T>>,
    units: nat,
    connectivity: T,
    spectral_radius: T,
) -> bool {
    exists|raw: Seq<Seq<T>>|
        raw.len() == units && rectangular(raw, units) && is_masked_draw(ops, connectivity, raw)
            && w == #[trigger] scaled_weights(ops, raw, spectral_radius)
}

/// A connectivity is a chance greater than zero and at most one.
pub open spec fn connectivity_ok<T, O: ScalarOps<T>>(ops: O, connectivity: T) -> bool {
    greater(ops, connectivity, zero_of(ops)) && not_above(ops, connectivity, one_of(ops))
}

/// What drives each unit in each episode, before it is squashed: the
/// internal weights applied to the state plus the input weights applied to
/// the input, one row per unit and one column per episode.
pub open spec fn drive_spec<T, O: MatrixOps<T>>(
    ops: O,
    esn: Esn<T>,
    input: Seq<Seq<T>>,
    state: Seq<Seq<T>>,
) -> Seq<Seq<T>> {
    matrix_sum(
        ops,
        matrix_product(
            ops,
            esn.internal(),
            esn.units(),
            transpose_spec(state, esn.units()),
            state.len(),
        ),
        matrix_product(
            ops,
            esn.input(),
            esn.vars(),
            transpose_spec(input, esn.vars()),
            input.len(),
        ),
    )
}

/// The next state of a reservoir: for each episode and each unit, what
/// drives the unit in that episode, squashed.
pub open spec fn integrate_spec<T, O: MatrixOps<T>>(
    ops: O,
    esn: Esn<T>,
    input: Seq<Seq<T>>,
    state: Seq<Seq<T>>,
) -> Seq<Seq<T>> {
    let drive = drive_spec(ops, esn, input, state);
    Seq::new(
        state.len(),
        |ep: int| Seq::new(esn.units(), |j: int| squashed(ops, drive[j][ep])),
    )
}

/// Every entry of `out` is a result of the squashing function.
pub open spec fn is_squashed<T, O: ScalarOps<T>>(ops: O, out: Seq<Seq<T>>) -> bool {
    forall|ep: int, j: int|
        0 <= ep < out.len() && 0 <= j < out[ep].len() ==> is_squash_result(
            ops,
            #[trigger] out[ep][j],
        )
}

/// The state of a reservoir after the first `t` of `inputs`, from a state of
/// `eps` rows of zeros.
pub open spec fn state_after<T, O: MatrixOps<T>>(
    ops: O,
    esn: Esn<T>,
    inputs: Seq<Seq<Seq<T>>>,
    eps: nat,
    t: nat,
) -> Seq<Seq<T>>
    decreases t,
{
    if t == 0 {
        filled_spec(eps, esn.units(), zero_of(ops))
    } else {
        integrate_spec(
            ops,
            esn,
            inputs[t - 1],
            state_after(ops, esn, inputs, eps, (t - 1) as nat),
        )
    }
}

/// The states of a run through `inputs`, sorted by episode: trajectory `ep`
/// has `time` rows, row `t` is row `ep` of the state after input `t`, and
/// the rows after the last input are zeros.
pub open spec fn trajectories<T, O: MatrixOps<T>>(
    ops: O,
    esn: Esn<T>,
    inputs: Seq<Seq<Seq<T>>>,
    eps: nat,
    time: nat,
) -> Seq<Seq<Seq<T>>> {
    Seq::new(
        eps,
        |ep: int|
            Seq::new(
                time,
                |t: int|
                    if t < inputs.len() {
                        state_after(ops, esn, inputs, eps, (t + 1) as nat)[ep]
                    } else {
                        Seq::new(esn.units(), |j: int| zero_of(ops))
                    },
            ),
    )
}

/// A state keeps its shape over the inputs: one row per episode and one
/// entry per unit.
pub proof fn state_after_shape<T, O: MatrixOps<T>>(
    ops: O,
    esn: Esn<T>,
    inputs: Seq<Seq<Seq<T>>>,
    eps: nat,
    t: nat,
)
    ensures
        state_after(ops, esn, inputs, eps, t).len() == eps,
        rectangular(state_after(ops, esn, inputs, eps, t), esn.units()),
    decreases t,
{
    if t > 0 {
        state_after_shape(ops, esn, inputs, eps, (t - 1) as nat);
    }
}

/// A squashed state stays in the range of the squashing function: whatever
/// holds of every result of the squashing function holds of every entry of
/// the state.
pub proof fn squashed_stays_in_range<T, O: ScalarOps<T>>(
    ops: O,
    out: Seq<Seq<T>>,
    within: spec_fn(T) -> bool,
)
    requires
        is_squashed(ops, out),
        forall|x: T, y: T| #[trigger] call_ensures(O::squash, (&ops, x), y) ==> within(y),
    ensures
        forall|ep: int, j: int|
            0 <= ep < out.len() && 0 <= j < out[ep].len() ==> within(#[trigger] out[ep][j]),
{
    assert forall|ep: int, j: int| 0 <= ep < out.len() && 0 <= j < out[ep].len() implies within(
        #[trigger] out[ep][j],
    ) by {
        assert(is_squash_result(ops, out[ep][j]));
    }
}

/// Every input of `inputs` has `eps` rows and `vars` columns.
pub open spec fn inputs_fit<T>(inputs: Seq<Matrix<T>>, eps: nat, vars: nat) -> bool {
    forall|t: int|
        0 <= t < inputs.len() ==> (#[trigger] inputs[t])@.len() == eps && inputs[t].cols() == vars
}

/// An echo-state reservoir.
pub struct Esn<T> {
    n_internal_units: usize,
    input_scaling: T,
    internal_weights: Matrix<T>,
    input_weights: Matrix<T>,
}

impl<T> Esn<T> {
    #[verifier::type_invariant]
    spec fn inv(&self) -> bool {
        &&& self.internal_weights@.len() == self.n_internal_units
        &&& self.internal_weights.cols() == self.n_internal_units
        &&& self.input_weights@.len() == self.n_internal_units
    }

    /// The number of units.
    pub closed spec fn units(&self) -> nat {
        self.n_internal_units as nat
    }

    /// The number of input variables.
    pub closed spec fn vars(&self) -> nat {
        self.input_weights.cols()
    }

    /// The internal weights, `units x units`.
    pub closed spec fn internal(&self) -> Seq<Seq<T>> {
        self.internal_weights@
    }

    /// The input weights, `units x vars`.
    pub closed spec fn input(&self) -> Seq<Seq<T>> {
        self.input_weights@
    }

    /// The magnitude of the input weights.
    pub closed spec fn scaling(&self) -> T {
        self.input_scaling
    }
}

impl<T: Copy> Esn<T> {
    /// A reservoir from its weights.
    pub fn from_weights(
        input_scaling: T,
        internal_weights: Matrix<T>,
        input_weights: Matrix<T>,
    ) -> (esn: Self)
        requires
            internal_weights@.len() == internal_weights.cols(),
            input_weights@.len() == internal_weights.cols(),
        ensures
            esn.units() == internal_weights.cols(),
            esn.vars() == input_weights.cols(),
            esn.internal() == internal_weights@,
            esn.input() == input_weights@,
            esn.scaling() == input_scaling,
    {
        let n_internal_units = internal_weights.ncols();
        Esn { n_internal_units, input_scaling, internal_weights, input_weights }
    }

    /// A new reservoir of `n_internal_units` units for `n_vars` input
    /// variables, with random weights: internal weights of the given
    /// connectivity and spectral radius, and input weights of the magnitude
    /// `input_scaling`.
    pub fn new<O: MatrixOps<T> + Draws<T>>(
        n_internal_units: usize,
        connectivity: T,
        spectral_radius: T,
        input_scaling: T,
        n_vars: usize,
        ops: &O,
    ) -> (esn: Self)
        requires
            connectivity_ok(*ops, connectivity),
            matrix_ops_ok(*ops),
        ensures
            esn.units() == n_internal_units,
            esn.vars() == n_vars,
            is_internal_weights(
                *ops,
                esn.internal(),
                n_internal_units as nat,
                connectivity,
                spectral_radius,
            ),
            esn.input().len() == n_internal_units,
            entries_among(esn.input(), input_scaling, negated(*ops, input_scaling)),
            esn.scaling() == input_scaling,
    {
        let internal_weights = Self::internal_weights(
            n_internal_units,
            connectivity,
            spectral_radius,
            ops,
        );
        let input_weights = Self::input_weights(n_internal_units, n_vars, input_scaling, ops);
        Esn { n_internal_units, input_scaling, internal_weights, input_weights }
    }

    /// Masked draws for `n_internal_units` units: each entry is a draw
    /// between minus a half and a half where a draw of the mask with the
    /// chance `connectivity` keeps it, else it is zero.
    pub fn masked_draws<O: ScalarOps<T> + Draws<T>>(
        n_internal_units: usize,
        connectivity: T,
        ops: &O,
    ) -> (raw: Matrix<T>)
        requires
            scalar_ops_ok(*ops),
        ensures
            raw@.len() == n_internal_units,
            raw.cols() == n_internal_units,
            rectangular(raw@, n_internal_units as nat),
            is_masked_draw(*ops, connectivity, raw@),
    {
        let n = n_internal_units;
        let zero = ops.zero();
        let mut rows: Vec<Vec<T>> = Vec::new();
        let mut i: usize = 0;
        while i < n
            invariant
                i <= n,
                scalar_ops_ok(*ops),
                zero == zero_of(*ops),
                rows@.len() == i,
                rectangular(rows_view(rows@), n as nat),
                is_masked_draw(*ops, connectivity, rows_view(rows@)),
            decreases n - i,
        {
            let mut row: Vec<T> = Vec::new();
            let mut j: usize = 0;
            while j < n
                invariant
                    j <= n,
                    zero == zero_of(*ops),
                    row@.len() == j,
                    forall|k: int|
                        0 <= k < j ==> is_masked_entry(*ops, connectivity, #[trigger] row@[k]),
                decreases n - j,
            {
                let kept = ops.draw_mask(connectivity);
                let entry = if kept {
                    ops.draw_weight()
                } else {
                    zero
                };
                proof {
                    assert(call_ensures(O::draw_mask, (ops, connectivity), kept));
                    assert(is_masked_entry(*ops, connectivity, entry));
                }
                row.push(entry);
                j += 1;
            }
            let ghost before = rows_view(rows@);
            let ghost row_spec = row@;
            rows.push(row);
            proof {
                assert(rows_view(rows@) =~= before.push(row_spec));
                assert forall|a: int, b: int|
                    0 <= a < rows_view(rows@).len() && 0 <= b < rows_view(
                        rows@,
                    )[a].len() implies is_masked_entry(
                    *ops,
                    connectivity,
                    #[trigger] rows_view(rows@)[a][b],
                ) by {
                    if a < i {
                        assert(rows_view(rows@)[a] == before[a]);
                        assert(is_masked_entry(*ops, connectivity, before[a][b]));
                    } else {
                        assert(rows_view(rows@)[a] == row_spec);
                        assert(is_masked_entry(*ops, connectivity, row_spec[b]));
                    }
                }
            }
            i += 1;
        }
        Matrix::from_rows(n, rows)
    }

    /// The square matrix `raw`, scaled to the spectral radius
    /// `spectral_radius`: every entry is divided by the quotient of the
    /// spectral radius of `raw` and the spectral radius asked for.
    pub fn scaled_to_radius<O: MatrixOps<T>>(raw: &Matrix<T>, spectral_radius: T, ops: &O) -> (w:
        Matrix<T>)
        requires
            raw@.len() == raw.cols(),
            matrix_ops_ok(*ops),
        ensures
            w@ == scaled_weights(*ops, raw@, spectral_radius),
            w@.len() == raw@.len(),
            w.cols() == raw.cols(),
    {
        let n = raw.nrows();
        let max_eigenvalue = ops.spectral_radius(raw);
        proof {
            assert(is_spectral_radius(*ops, raw@, max_eigenvalue));
        }
        let scale = ops.divide(max_eigenvalue, spectral_radius);
        let ghost expected = scaled_weights(*ops, raw@, spectral_radius);
        let mut scaled: Vec<Vec<T>> = Vec::new();
        let mut i: usize = 0;
        while i < n
            invariant
                i <= n,
                n == raw@.len(),
                n == raw.cols(),
                rectangular(raw@, raw.cols()),
                matrix_ops_ok(*ops),
                scale == quotient(*ops, spectral_radius_of(*ops, raw@), spectral_radius),
                expected == scaled_weights(*ops, raw@, spectral_radius),
                scaled@.len() == i,
                rectangular(rows_view(scaled@), n as nat),
                forall|k: int| 0 <= k < i ==> (#[trigger] scaled@[k])@ == expected[k],
            decreases n - i,
        {
            let mut row: Vec<T> = Vec::new();
            let mut j: usize = 0;
            while j < n
                invariant
                    j <= n,
                    i < n,
                    n == raw@.len(),
                    n == raw.cols(),
                    matrix_ops_ok(*ops),
                    row@.len() == j,
                    forall|k: int|
                        0 <= k < j ==> row@[k] == quotient(*ops, raw@[i as int][k], scale),
                decreases n - j,
            {
                row.push(ops.divide(raw.get(i, j), scale));
                j += 1;
            }
            let ghost before = rows_view(scaled@);
            let ghost row_spec = row@;
            assert(row_spec =~= expected[i as int]);
            scaled.push(row);
            assert(rows_view(scaled@) =~= before.push(row_spec));
            i += 1;
        }
        assert(rows_view(scaled@) =~= expected);
        Matrix::from_rows(n, scaled)
    }

    /// Random internal weights: each entry is kept with the chance
    /// `connectivity` and is then a draw between minus a half and a half,
    /// else it is zero; all entries are then divided by the quotient of the
    /// spectral radius of the matrix and the spectral radius asked for.
    pub fn internal_weights<O: MatrixOps<T> + Draws<T>>(
        n_internal_units: usize,
        connectivity: T,
        spectral_radius: T,
        ops: &O,
    ) -> (w: Matrix<T>)
        requires
            connectivity_ok(*ops, connectivity),
            matrix_ops_ok(*ops),
        ensures
            w@.len() == n_internal_units,
            w.cols() == n_internal_units,
            is_internal_weights(
                *ops,
                w@,
                n_internal_units as nat,
                connectivity,
                spectral_radius,
            ),
    {
        let raw = Self::masked_draws(n_internal_units, connectivity, ops);
        let w = Self::scaled_to_radius(&raw, spectral_radius, ops);
        proof {
            assert(w@ == scaled_weights(*ops, raw@, spectral_radius));
        }
        w
    }

    /// A matrix of `n_internal_units x variables` input weights, each
    /// `input_scaling` or its opposite, as a fair coin falls.
    pub fn input_weights<O: ScalarOps<T>>(
        n_internal_units: usize,
        variables: usize,
        input_scaling: T,
        ops: &O,
    ) -> (w: Matrix<T>)
        requires
            scalar_ops_ok(*ops),
        ensures
            w@.len() == n_internal_units,
            w.cols() == variables,
            entries_among(w@, input_scaling, negated(*ops, input_scaling)),
    {
        let opposite = ops.negate(input_scaling);
        let mut rng = thread_generator();
        let coin = match bernoulli_from_ratio(1, 2) {
            Ok(coin) => coin,
            Err(_) => {
                // One in two is a ratio that is never refused.
                assert(false);
                return Matrix::filled(n_internal_units, variables, input_scaling);
            },
        };
        let mut rows: Vec<Vec<T>> = Vec::new();
        let mut i: usize = 0;
        while i < n_internal_units
            invariant
                i <= n_internal_units,
                rows@.len() == i,
                rectangular(rows_view(rows@), variables as nat),
                entries_among(rows_view(rows@), input_scaling, opposite),
            decreases n_internal_units - i,
        {
            let mut row: Vec<T> = Vec::new();
            let mut j: usize = 0;
            while j < variables
                invariant
                    j <= variables,
                    row@.len() == j,
                    forall|k: int|
                        0 <= k < j ==> (#[trigger] row@[k]) == input_scaling || row@[k] == opposite,
                decreases variables - j,
            {
                let heads = bernoulli_sample(&coin, &mut rng);
                row.push(signed_scaling(heads, input_scaling, opposite));
                j += 1;
            }
            let ghost before = rows_view(rows@);
            let ghost row_spec = row@;
            rows.push(row);
            proof {
                assert(rows_view(rows@) =~= before.push(row_spec));
                assert forall|a: int, b: int|
                    0 <= a < rows_view(rows@).len() && 0 <= b < rows_view(
                        rows@,
                    )[a].len() implies (#[trigger] rows_view(rows@)[a][b]) == input_scaling
                    || rows_view(rows@)[a][b] == opposite by {
                    if a < i {
                        assert(rows_view(rows@)[a] == before[a]);
                        assert(before[a][b] == input_scaling || before[a][b] == opposite);
                    } else {
                        assert(rows_view(rows@)[a] == row_spec);
                        assert(row_spec[b] == input_scaling || row_spec[b] == opposite);
                    }
                }
            }
            i += 1;
        }
        Matrix::from_rows(variables, rows)
    }

    /// The number of units.
    pub fn n_internal_units(&self) -> (n: usize)
        ensures
            n == self.units(),
    {
        self.n_internal_units
    }

    /// The number of input variables.
    pub fn n_vars(&self) -> (n: usize)
        ensures
            n == self.vars(),
    {
        self.input_weights.ncols()
    }

    /// The magnitude of the input weights.
    pub fn input_scaling(&self) -> (s: T)
        ensures
            s == self.scaling(),
    {
        self.input_scaling
    }

    /// The internal weights.
    pub fn internal_weight_matrix(&self) -> (w: &Matrix<T>)
        ensures
            w@ == self.internal(),
            w@.len() == self.units(),
            w.cols() == self.units(),
    {
        proof {
            use_type_invariant(self);
        }
        &self.internal_weights
    }

    /// The input weights.
    pub fn input_weight_matrix(&self) -> (w: &Matrix<T>)
        ensures
            w@ == self.input(),
            w@.len() == self.units(),
            w.cols() == self.vars(),
    {
        proof {
            use_type_invariant(self);
        }
        &self.input_weights
    }

    /// The next state of the reservoir for the input of a step and the state
    /// before: the internal weights applied to the state plus the input
    /// weights applied to the input, squashed entry by entry. The result is
    /// a function of the reservoir, the input and the state: the same
    /// arguments give the same state. Input and state have one row per
    /// episode; the state has one column per unit, the input one per input
    /// variable.
    pub fn integrate<O: MatrixOps<T>>(
        &self,
        current_input: &Matrix<T>,
        previous_state: &Matrix<T>,
        ops: &O,
    ) -> (next: Matrix<T>)
        requires
            current_input@.len() == previous_state@.len(),
            previous_state.cols() == self.units(),
            current_input.cols() == self.vars(),
            matrix_ops_ok(*ops),
        ensures
            next@ == integrate_spec(*ops, *self, current_input@, previous_state@),
            next@.len() == previous_state@.len(),
            next.cols() == self.units(),
            is_squashed(*ops, next@),
    {
        proof {
            use_type_invariant(self);
        }
        let units = self.n_internal_units;
        let eps = previous_state.nrows();
        let state_t = transposed(previous_state);
        let input_t = transposed(current_input);
        let recurrent = ops.times_matrix(&self.internal_weights, &state_t);
        let driven = ops.times_matrix(&self.input_weights, &input_t);
        proof {
            assert(is_matrix_product(
                *ops,
                self.internal_weights@,
                self.internal_weights.cols(),
                state_t@,
                state_t.cols(),
                recurrent@,
            ));
            assert(is_matrix_product(
                *ops,
                self.input_weights@,
                self.input_weights.cols(),
                input_t@,
                input_t.cols(),
                driven@,
            ));
        }
        let drive = plus_matrix(&recurrent, &driven, ops);
        let ghost expected = integrate_spec(*ops, *self, current_input@, previous_state@);
        let mut rows: Vec<Vec<T>> = Vec::new();
        let mut ep: usize = 0;
        while ep < eps
            invariant
                ep <= eps,
                units == self.units(),
                eps == previous_state@.len(),
                drive@ == drive_spec(*ops, *self, current_input@, previous_state@),
                drive@.len() == units,
                drive.cols() == eps,
                matrix_ops_ok(*ops),
                expected == integrate_spec(*ops, *self, current_input@, previous_state@),
                rows@.len() == ep,
                rectangular(rows_view(rows@), units as nat),
                forall|e: int| 0 <= e < ep ==> (#[trigger] rows@[e])@ == expected[e],
                is_squashed(*ops, rows_view(rows@)),
            decreases eps - ep,
        {
            let mut row: Vec<T> = Vec::new();
            let mut j: usize = 0;
            while j < units
                invariant
                    j <= units,
                    ep < eps,
                    drive@.len() == units,
                    drive.cols() == eps,
                    matrix_ops_ok(*ops),
                    row@.len() == j,
                    forall|k: int| 0 <= k < j ==> row@[k] == squashed(*ops, drive@[k][ep as int]),
                    forall|k: int| 0 <= k < j ==> is_squash_result(*ops, #[trigger] row@[k]),
                decreases units - j,
            {
                let x = drive.get(j, ep);
                let y = ops.squash(x);
                proof {
                    assert(call_ensures(O::squash, (ops, x), y));
                    assert(is_squash_result(*ops, y));
                }
                row.push(y);
                j += 1;
            }
            let ghost before = rows_view(rows@);
            let ghost row_spec = row@;
            assert(row_spec =~= expected[ep as int]);
            rows.push(row);
            proof {
                assert(rows_view(rows@) =~= before.push(row_spec));
                assert forall|e: int, k: int|
                    0 <= e < rows_view(rows@).len() && 0 <= k < rows_view(
                        rows@,
                    )[e].len() implies is_squash_result(
                    *ops,
                    #[trigger] rows_view(rows@)[e][k],
                ) by {
                    if e < ep {
                        assert(rows_view(rows@)[e] == before[e]);
                        assert(is_squash_result(*ops, before[e][k]));
                    } else {
                        assert(rows_view(rows@)[e] == row_spec);
                        assert(is_squash_result(*ops, row_spec[k]));
                    }
                }
            }
            ep += 1;
        }
        assert(rows_view(rows@) =~= expected);
        Matrix::from_rows(units, rows)
    }

    /// Replaces the state by the next one under the input of a step.
    pub fn advance_state<O: MatrixOps<T>>(
        &self,
        current_input: &Matrix<T>,
        previous_state: &mut Matrix<T>,
        ops: &O,
    )
        requires
            current_input@.len() == old(previous_state)@.len(),
            old(previous_state).cols() == self.units(),
            current_input.cols() == self.vars(),
            matrix_ops_ok(*ops),
        ensures
            final(previous_state)@ == integrate_spec(
                *ops,
                *self,
                current_input@,
                old(previous_state)@,
            ),
            final(previous_state)@.len() == old(previous_state)@.len(),
            final(previous_state).cols() == self.units(),
            is_squashed(*ops, final(previous_state)@),
    {
        let next = self.integrate(current_input, previous_state, ops);
        *previous_state = next;
    }

    /// Runs the reservoir from the zero state through `inputs`, one input per
    /// step with one row per episode, and returns the state trajectory of
    /// each episode: `eps` matrices of `time` rows and one column per unit.
    /// Rows beyond the last input stay at zero.
    pub fn compute_state_matricies2<O: MatrixOps<T>>(
        &self,
        eps: usize,
        time: usize,
        inputs: Vec<Matrix<T>>,
        ops: &O,
    ) -> (out: Vec<Matrix<T>>)
        requires
            inputs@.len() <= time,
            inputs_fit(inputs@, eps as nat, self.vars()),
            matrix_ops_ok(*ops),
        ensures
            out@.len() == eps,
            forall|ep: int| 0 <= ep < eps ==> (#[trigger] out@[ep]).cols() == self.units(),
            crate::repr::matrices_view(out@) == trajectories(
                *ops,
                *self,
                crate::repr::matrices_view(inputs@),
                eps as nat,
                time as nat,
            ),
    {
        let units = self.n_internal_units;
        let zero = ops.zero();
        let ghost shown = crate::repr::matrices_view(inputs@);
        let mut states: Vec<Matrix<T>> = Vec::new();
        states.push(Matrix::filled(eps, units, zero));
        let mut t: usize = 0;
        while t < inputs.len()
            invariant
                t <= inputs@.len(),
                units == self.units(),
                inputs_fit(inputs@, eps as nat, self.vars()),
                shown == crate::repr::matrices_view(inputs@),
                matrix_ops_ok(*ops),
                zero == zero_of(*ops),
                states@.len() == t + 1,
                forall|s: int|
                    0 <= s <= t ==> (#[trigger] states@[s])@ == state_after(
                        *ops,
                        *self,
                        shown,
                        eps as nat,
                        s as nat,
                    ) && states@[s].cols() == units,
            decreases inputs@.len() - t,
        {
            proof {
                assert(inputs@[t as int]@.len() == eps);
                state_after_shape(*ops, *self, shown, eps as nat, t as nat);
                assert(shown[t as int] == inputs@[t as int]@);
            }
            let next = self.integrate(&inputs[t], &states[t], ops);
            states.push(next);
            t += 1;
        }
        let steps = inputs.len();
        let ghost expected = trajectories(*ops, *self, shown, eps as nat, time as nat);
        let mut out: Vec<Matrix<T>> = Vec::new();
        let mut ep: usize = 0;
        while ep < eps
            invariant
                ep <= eps,
                steps == inputs@.len(),
                steps == shown.len(),
                steps <= time,
                units == self.units(),
                zero == zero_of(*ops),
                states@.len() == steps + 1,
                forall|s: int|
                    0 <= s <= steps ==> (#[trigger] states@[s])@ == state_after(
                        *ops,
                        *self,
                        shown,
                        eps as nat,
                        s as nat,
                    ) && states@[s].cols() == units,
                expected == trajectories(*ops, *self, shown, eps as nat, time as nat),
                out@.len() == ep,
                forall|e: int|
                    0 <= e < ep ==> (#[trigger] out@[e])@ == expected[e] && out@[e].cols() == units,
            decreases eps - ep,
        {
            let mut rows: Vec<Vec<T>> = Vec::new();
            let mut s: usize = 0;
            while s < time
                invariant
                    s <= time,
                    ep < eps,
                    steps <= time,
                    steps == shown.len(),
                    units == self.units(),
                    zero == zero_of(*ops),
                    states@.len() == steps + 1,
                    forall|q: int|
                        0 <= q <= steps ==> (#[trigger] states@[q])@ == state_after(
                            *ops,
                            *self,
                            shown,
                            eps as nat,
                            q as nat,
                        ) && states@[q].cols() == units,
                    expected == trajectories(*ops, *self, shown, eps as nat, time as nat),
                    rows@.len() == s,
                    rectangular(rows_view(rows@), units as nat),
                    forall|q: int| 0 <= q < s ==> (#[trigger] rows@[q])@ == expected[ep as int][q],
                decreases time - s,
            {
                let ghost before = rows_view(rows@);
                let row = if s < steps {
                    proof {
                        state_after_shape(*ops, *self, shown, eps as nat, (s + 1) as nat);
                        assert(states@[s + 1]@.len() == eps);
                    }
                    copy_row(states[s + 1].row(ep))
                } else {
                    crate::matrix::copy_of(zero, units)
                };
                let ghost row_spec = row@;
                rows.push(row);
                proof {
                    assert(rows_view(rows@) =~= before.push(row_spec));
                }
                s += 1;
            }
            assert(rows_view(rows@) =~= expected[ep as int]);
            out.push(Matrix::from_rows(units, rows));
            ep += 1;
        }
        assert(crate::repr::matrices_view(out@) =~= expected);
        out
    }
}

} // verus!

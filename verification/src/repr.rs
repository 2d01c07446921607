//! Delay-line features: several recent reservoir states side by side.
//!
//! A feature row shows the state of the current step in its first block, the
//! state one step earlier in the second, and so on for `lag + 1` blocks. At
//! the start of a trajectory the history saturates: a block that would reach
//! before the first step shows the first step.
//!
//! The same rows are produced in two ways. Training builds them for a whole
//! trajectory at once; a running controller keeps a window of recent states
//! and emits one row per step. `streaming_matches_batch` shows that the two
//! agree at every step.

use crate::matrix::{copy_row, extend_row, rectangular, rows_view, Matrix};
use std::collections::VecDeque;
use vstd::prelude::*;

verus! {

/// The step whose state fills block `k` of the feature row of step `t`.
pub open spec fn lag_source(t: int, k: int) -> int {
    if k <= t {
        t - k
    } else {
        0
    }
}

/// The `lag + 1` blocks of the feature row of step `t`.
pub open spec fn batch_blocks<T>(traj: Seq<Seq<T>>, lag: nat, t: int) -> Seq<Seq<T>> {
    Seq::new(lag + 1, |k: int| traj[lag_source(t, k)])
}

/// The feature row of step `t` of the trajectory `traj`.
pub open spec fn batch_row<T>(traj: Seq<Seq<T>>, lag: nat, t: int) -> Seq<T> {
    batch_blocks(traj, lag, t).flatten()
}

/// The feature rows of a whole trajectory, one per step.
pub open spec fn batch_features<T>(traj: Seq<Seq<T>>, lag: nat) -> Seq<Seq<T>> {
    Seq::new(traj.len(), |t: int| batch_row(traj, lag, t))
}

/// The feature rows of several trajectories, one trajectory after the other.
pub open spec fn stacked_features<T>(episodes: Seq<Seq<Seq<T>>>, lag: nat) -> Seq<Seq<T>> {
    Seq::new(episodes.len(), |e: int| batch_features(episodes[e], lag)).flatten()
}

/// The window after `row` arrives: a row of another width than the newest
/// one restarts the history, the new row goes to the front, and what lies
/// beyond `lag + 1` rows leaves at the back.
pub open spec fn buffer_push<T>(buf: Seq<Seq<T>>, lag: nat, row: Seq<T>) -> Seq<Seq<T>> {
    let kept = if buf.len() > 0 && buf[0].len() != row.len() {
        Seq::empty()
    } else {
        buf
    };
    let pushed = seq![row] + kept;
    if pushed.len() > lag + 1 {
        pushed.take(lag as int + 1)
    } else {
        pushed
    }
}

/// The `lag + 1` blocks emitted from the window `buf`: the rows from newest
/// to oldest, the oldest repeated where the window is not full yet.
pub open spec fn online_blocks<T>(buf: Seq<Seq<T>>, lag: nat) -> Seq<Seq<T>> {
    Seq::new(
        lag + 1,
        |k: int|
            if k < buf.len() {
                buf[k]
            } else {
                buf.last()
            },
    )
}

/// The feature row emitted from the window `buf`.
pub open spec fn online_row<T>(buf: Seq<Seq<T>>, lag: nat) -> Seq<T> {
    online_blocks(buf, lag).flatten()
}

/// The window after the first `n` rows of `traj` went through an empty one.
pub open spec fn streamed_buffer<T>(traj: Seq<Seq<T>>, lag: nat, n: nat) -> Seq<Seq<T>>
    decreases n,
{
    if n == 0 {
        Seq::empty()
    } else {
        buffer_push(streamed_buffer(traj, lag, (n - 1) as nat), lag, traj[n - 1])
    }
}

/// The window never holds more than `lag + 1` rows, whatever it held before.
pub proof fn window_is_bounded<T>(buf: Seq<Seq<T>>, lag: nat, row: Seq<T>)
    ensures
        1 <= buffer_push(buf, lag, row).len() <= lag + 1,
        buffer_push(buf, lag, row)[0] == row,
{
}

/// All rows of the window have the width of the newest.
pub open spec fn uniform_width<T>(buf: Seq<Seq<T>>) -> bool {
    forall|i: int| 0 <= i < buf.len() ==> (#[trigger] buf[i]).len() == buf[0].len()
}

/// The views of a sequence of matrices.
pub open spec fn matrices_view<T>(ms: Seq<Matrix<T>>) -> Seq<Seq<Seq<T>>> {
    Seq::new(ms.len(), |i: int| ms[i]@)
}

/// Every matrix of `ms` has `ncols` columns.
pub open spec fn same_cols<T>(ms: Seq<Matrix<T>>, ncols: nat) -> bool {
    forall|i: int| 0 <= i < ms.len() ==> (#[trigger] ms[i]).cols() == ncols
}

/// A sequence of `n` blocks of `width` entries each flattens to `n * width`
/// entries.
pub proof fn flatten_len<T>(blocks: Seq<Seq<T>>, width: nat)
    requires
        rectangular(blocks, width),
    ensures
        blocks.flatten().len() == blocks.len() * width,
    decreases blocks.len(),
{
    if blocks.len() == 0 {
    } else {
        let init = blocks.drop_last();
        flatten_len(init, width);
        assert(init.push(blocks.last()) =~= blocks);
        init.lemma_flatten_push(blocks.last());
        assert((init.len() + 1) * width == init.len() * width + width) by (nonlinear_arith);
    }
}

/// After `n >= 1` rows of a trajectory of constant width, the window holds
/// the last `min(n, lag + 1)` of them, newest first.
pub proof fn streamed_buffer_contents<T>(traj: Seq<Seq<T>>, width: nat, lag: nat, n: nat)
    requires
        rectangular(traj, width),
        1 <= n <= traj.len(),
    ensures
        streamed_buffer(traj, lag, n).len() == if n <= lag + 1 {
            n
        } else {
            lag + 1
        },
        forall|k: int|
            0 <= k < streamed_buffer(traj, lag, n).len() ==> #[trigger] streamed_buffer(
                traj,
                lag,
                n,
            )[k] == traj[n - 1 - k],
    decreases n,
{
    let prev = streamed_buffer(traj, lag, (n - 1) as nat);
    if n > 1 {
        streamed_buffer_contents(traj, width, lag, (n - 1) as nat);
        assert(prev[0] == traj[n - 2]);
    }
    let pushed = seq![traj[n - 1]] + prev;
    assert forall|k: int| 0 <= k < pushed.len() implies #[trigger] pushed[k] == traj[n - 1 - k] by {
        if k > 0 {
            assert(pushed[k] == prev[k - 1]);
        }
    }
}

/// Streaming agrees with batch: feed the first `t + 1` states of a trajectory
/// through an empty window, and the row emitted at step `t` is row `t` of the
/// batch features of that trajectory.
pub proof fn streaming_matches_batch<T>(traj: Seq<Seq<T>>, width: nat, lag: nat, t: nat)
    requires
        rectangular(traj, width),
        t < traj.len(),
    ensures
        online_row(streamed_buffer(traj, lag, t + 1), lag) == batch_row(traj, lag, t as int),
        online_row(streamed_buffer(traj, lag, t + 1), lag) == batch_features(traj, lag)[t as int],
{
    let buf = streamed_buffer(traj, lag, t + 1);
    streamed_buffer_contents(traj, width, lag, t + 1);
    assert forall|k: int| 0 <= k < lag + 1 implies online_blocks(buf, lag)[k] == batch_blocks(
        traj,
        lag,
        t as int,
    )[k] by {
        if k < buf.len() {
            assert(buf[k] == traj[t - k]);
        } else {
            assert(buf.last() == buf[buf.len() - 1]);
            assert(buf[buf.len() - 1] == traj[t - (buf.len() - 1)]);
        }
    }
    assert(online_blocks(buf, lag) =~= batch_blocks(traj, lag, t as int));
}

/// Each feature row of a trajectory of width `width` has `width * (lag + 1)`
/// entries.
pub proof fn batch_row_len<T>(traj: Seq<Seq<T>>, width: nat, lag: nat, t: int)
    requires
        rectangular(traj, width),
        0 <= t < traj.len(),
    ensures
        batch_row(traj, lag, t).len() == width * (lag + 1),
{
    let blocks = batch_blocks(traj, lag, t);
    assert forall|k: int| 0 <= k < blocks.len() implies (#[trigger] blocks[k]).len() == width by {
        assert(0 <= lag_source(t, k) < traj.len());
    }
    flatten_len(blocks, width);
    assert((lag + 1) * width == width * (lag + 1)) by (nonlinear_arith);
}

/// The delay-line representation: its lag, and the window of recent states
/// that a running controller keeps.
pub struct BufferedStates<T> {
    lag: usize,
    online_buffer: VecDeque<Vec<T>>,
}

impl<T> BufferedStates<T> {
    #[verifier::type_invariant]
    spec fn inv(&self) -> bool {
        &&& uniform_width(rows_view(self.online_buffer@))
        &&& self.online_buffer@.len() <= self.lag + 1
    }

    /// The number of earlier states shown beside the current one.
    pub closed spec fn lag_spec(&self) -> nat {
        self.lag as nat
    }

    /// The window of recent states, newest first.
    pub closed spec fn buffer(&self) -> Seq<Seq<T>> {
        rows_view(self.online_buffer@)
    }

    /// A representation with the given lag and an empty window.
    pub fn new(lag: usize) -> (r: Self)
        ensures
            r.lag_spec() == lag,
            r.buffer() == Seq::<Seq<T>>::empty(),
    {
        let online_buffer: VecDeque<Vec<T>> = VecDeque::new();
        assert(rows_view(online_buffer@) =~= Seq::<Seq<T>>::empty());
        BufferedStates { lag, online_buffer }
    }

    /// The number of earlier states shown beside the current one.
    pub fn lag(&self) -> (lag: usize)
        ensures
            lag == self.lag_spec(),
    {
        self.lag
    }

    /// The number of states in the window.
    pub fn buffered(&self) -> (n: usize)
        ensures
            n == self.buffer().len(),
            n <= self.lag_spec() + 1,
            uniform_width(self.buffer()),
    {
        proof {
            use_type_invariant(self);
        }
        self.online_buffer.len()
    }

    /// Empties the window; the lag stays.
    pub fn reset_online(&mut self)
        ensures
            final(self).lag_spec() == old(self).lag_spec(),
            final(self).buffer() == Seq::<Seq<T>>::empty(),
    {
        let window: VecDeque<Vec<T>> = VecDeque::new();
        assert(rows_view(window@) =~= Seq::<Seq<T>>::empty());
        self.online_buffer = window;
    }
}

impl<T: Copy> BufferedStates<T> {
    /// The feature rows of one trajectory, one row per step.
    pub fn lag_features(&self, states: &Matrix<T>) -> (out: Matrix<T>)
        requires
            states.cols() * (self.lag_spec() + 1) <= usize::MAX,
        ensures
            out@ == batch_features(states@, self.lag_spec()),
            out.cols() == states.cols() * (self.lag_spec() + 1),
    {
        let lag = self.lag;
        let time = states.nrows();
        let units = states.ncols();
        let width = feature_width(units, lag);
        let mut rows: Vec<Vec<T>> = Vec::new();
        let mut t: usize = 0;
        while t < time
            invariant
                t <= time,
                time == states@.len(),
                units == states.cols(),
                rectangular(states@, states.cols()),
                width == units * (lag + 1),
                rows@.len() == t,
                forall|s: int|
                    0 <= s < t ==> (#[trigger] rows@[s])@ == batch_row(states@, lag as nat, s),
            decreases time - t,
        {
            let ghost blocks = batch_blocks(states@, lag as nat, t as int);
            let mut row = copy_row(states.row(t));
            proof {
                assert(blocks.take(1) =~= seq![states@[t as int]]);
                blocks.take(1).lemma_flatten_singleton();
            }
            let mut k: usize = 0;
            while k < lag
                invariant
                    k <= lag,
                    t < time,
                    time == states@.len(),
                    blocks == batch_blocks(states@, lag as nat, t as int),
                    row@ == blocks.take(k + 1).flatten(),
                decreases lag - k,
            {
                k += 1;
                let src = if k <= t {
                    t - k
                } else {
                    0
                };
                extend_row(&mut row, states.row(src));
                proof {
                    assert(blocks.take(k + 1) =~= blocks.take(k as int).push(blocks[k as int]));
                    blocks.take(k as int).lemma_flatten_push(blocks[k as int]);
                }
            }
            proof {
                assert(blocks.take(lag + 1) =~= blocks);
                batch_row_len(states@, states.cols(), lag as nat, t as int);
            }
            rows.push(row);
            t += 1;
        }
        proof {
            assert(rows_view(rows@) =~= batch_features(states@, lag as nat));
            assert forall|s: int| 0 <= s < rows@.len() implies (#[trigger] rows_view(
                rows@,
            )[s]).len() == width by {
                batch_row_len(states@, states.cols(), lag as nat, s);
            }
        }
        Matrix::from_rows(width, rows)
    }

    /// The feature rows of several trajectories of one width, stacked: all
    /// rows of the first trajectory, then all rows of the second, and so on.
    /// Without trajectories the result has neither rows nor columns.
    pub fn repr2(&self, res_states: &Vec<Matrix<T>>) -> (out: Matrix<T>)
        requires
            res_states@.len() > 0 ==> same_cols(res_states@, res_states@[0].cols()),
            res_states@.len() > 0 ==> res_states@[0].cols() * (self.lag_spec() + 1) <= usize::MAX,
        ensures
            out@ == stacked_features(matrices_view(res_states@), self.lag_spec()),
            out.cols() == if res_states@.len() == 0 {
                0
            } else {
                res_states@[0].cols() * (self.lag_spec() + 1)
            },
    {
        let ghost eps = matrices_view(res_states@);
        let ghost lag = self.lag as nat;
        let ghost per_episode = Seq::new(eps.len(), |e: int| batch_features(eps[e], lag));
        if res_states.len() == 0 {
            assert(per_episode =~= Seq::<Seq<Seq<T>>>::empty());
            return Matrix::empty(0);
        }
        let units = res_states[0].ncols();
        let width = feature_width(units, self.lag);
        let mut rows: Vec<Vec<T>> = Vec::new();
        let mut e: usize = 0;
        assert(per_episode.take(0) =~= Seq::<Seq<Seq<T>>>::empty());
        while e < res_states.len()
            invariant
                e <= res_states@.len(),
                lag == self.lag_spec(),
                eps == matrices_view(res_states@),
                per_episode == Seq::new(eps.len(), |e: int| batch_features(eps[e], lag)),
                same_cols(res_states@, units as nat),
                units * (lag + 1) <= usize::MAX,
                width == units * (lag + 1),
                rows_view(rows@) == per_episode.take(e as int).flatten(),
                rectangular(rows_view(rows@), width as nat),
            decreases res_states@.len() - e,
        {
            let features = self.lag_features(&res_states[e]);
            let ghost before = rows_view(rows@);
            let n = features.nrows();
            let mut i: usize = 0;
            while i < n
                invariant
                    i <= n,
                    n == features@.len(),
                    features.cols() == width,
                    rectangular(before, width as nat),
                    rows_view(rows@) == before + features@.take(i as int),
                decreases n - i,
            {
                let row = copy_row(features.row(i));
                let ghost prev = rows_view(rows@);
                rows.push(row);
                proof {
                    assert(rows_view(rows@) =~= prev.push(features@[i as int]));
                    assert(features@.take(i + 1) =~= features@.take(i as int).push(
                        features@[i as int],
                    ));
                    assert(rows_view(rows@) =~= before + features@.take(i + 1));
                }
                i += 1;
            }
            proof {
                assert(features@.take(n as int) =~= features@);
                assert(features@ == per_episode[e as int]);
                assert(per_episode.take(e + 1) =~= per_episode.take(e as int).push(
                    per_episode[e as int],
                ));
                per_episode.take(e as int).lemma_flatten_push(per_episode[e as int]);
                assert forall|s: int| 0 <= s < rows@.len() implies (#[trigger] rows_view(
                    rows@,
                )[s]).len() == width by {
                    if s >= before.len() {
                        assert(rows_view(rows@)[s] == features@[s - before.len()]);
                    } else {
                        assert(rows_view(rows@)[s] == before[s]);
                    }
                }
            }
            e += 1;
        }
        assert(per_episode.take(res_states@.len() as int) =~= per_episode);
        Matrix::from_rows(width, rows)
    }

    /// Takes the first row of `current_res_state` into the window and emits
    /// the feature row of this step as a matrix of one row.
    pub fn repr_online_step(&mut self, current_res_state: &Matrix<T>) -> (out: Matrix<T>)
        requires
            current_res_state@.len() >= 1,
            current_res_state.cols() * (old(self).lag_spec() + 1) <= usize::MAX,
        ensures
            final(self).lag_spec() == old(self).lag_spec(),
            final(self).buffer() == buffer_push(
                old(self).buffer(),
                old(self).lag_spec(),
                current_res_state@[0],
            ),
            out@ == seq![online_row(final(self).buffer(), old(self).lag_spec())],
            out.cols() == current_res_state.cols() * (old(self).lag_spec() + 1),
            online_row(final(self).buffer(), old(self).lag_spec()).len() == out.cols(),
    {
        proof {
            use_type_invariant(&*self);
        }
        let lag = self.lag;
        let n_units = current_res_state.ncols();
        let current_row = copy_row(current_res_state.row(0));
        let mut window: VecDeque<Vec<T>> = VecDeque::new();
        assert(rows_view(window@) =~= Seq::<Seq<T>>::empty());
        std::mem::swap(&mut self.online_buffer, &mut window);
        assert(rows_view(window@) == old(self).buffer());
        if window.len() > 0 {
            if window[0].len() != n_units {
                window.clear();
            }
        }
        let ghost kept = rows_view(window@);
        window.push_front(current_row);
        let ghost pushed = rows_view(window@);
        proof {
            assert(kept =~= if old(self).buffer().len() > 0 && old(self).buffer()[0].len()
                != n_units {
                Seq::<Seq<T>>::empty()
            } else {
                old(self).buffer()
            });
            assert(pushed =~= seq![current_res_state@[0]] + kept);
            assert(uniform_width(pushed)) by {
                assert forall|i: int| 0 <= i < pushed.len() implies (#[trigger] pushed[i]).len()
                    == pushed[0].len() by {
                    if i > 0 {
                        assert(pushed[i] == kept[i - 1]);
                        assert(kept[0].len() == n_units);
                    }
                }
            }
        }
        while window.len() - 1 > lag
            invariant
                window@.len() >= 1,
                window@.len() <= pushed.len(),
                window@.len() == pushed.len() || window@.len() >= lag + 1,
                rows_view(window@) == pushed.take(window@.len() as int),
            decreases window@.len(),
        {
            window.pop_back();
            assert(rows_view(window@) =~= pushed.take(window@.len() as int));
        }
        let ghost buf = rows_view(window@);
        proof {
            assert(pushed.take(pushed.len() as int) =~= pushed);
            assert(buf == buffer_push(old(self).buffer(), lag as nat, current_res_state@[0]));
            assert(uniform_width(buf)) by {
                assert forall|i: int| 0 <= i < buf.len() implies (#[trigger] buf[i]).len()
                    == buf[0].len() by {
                    assert(buf[i] == pushed[i]);
                    assert(buf[0] == pushed[0]);
                }
            }
        }
        let len = window.len();
        let ghost blocks = online_blocks(buf, lag as nat);
        let mut row = copy_row(&window[0]);
        proof {
            assert(blocks.take(1) =~= seq![buf[0]]);
            blocks.take(1).lemma_flatten_singleton();
        }
        let mut k: usize = 0;
        while k < lag
            invariant
                k <= lag,
                len == buf.len(),
                len >= 1,
                buf == rows_view(window@),
                blocks == online_blocks(buf, lag as nat),
                row@ == blocks.take(k + 1).flatten(),
            decreases lag - k,
        {
            k += 1;
            let idx = if k < len {
                k
            } else {
                len - 1
            };
            extend_row(&mut row, &window[idx]);
            proof {
                assert(blocks.take(k + 1) =~= blocks.take(k as int).push(blocks[k as int]));
                blocks.take(k as int).lemma_flatten_push(blocks[k as int]);
            }
        }
        proof {
            assert(blocks.take(lag + 1) =~= blocks);
            assert forall|j: int| 0 <= j < blocks.len() implies (#[trigger] blocks[j]).len()
                == n_units by {
                assert(buf[0].len() == n_units);
            }
            flatten_len(blocks, n_units as nat);
            assert((lag + 1) * n_units == n_units * (lag + 1)) by (nonlinear_arith);
        }
        self.online_buffer = window;
        Matrix::from_row(row)
    }
}

impl<T> Clone for BufferedStates<T> {
    /// A copy starts with an empty window: the window belongs to one running
    /// controller.
    fn clone(&self) -> (r: Self)
        ensures
            r.lag_spec() == self.lag_spec(),
            r.buffer() == Seq::<Seq<T>>::empty(),
    {
        BufferedStates::new(self.lag)
    }
}

/// The number of columns of a feature row: `units * (lag + 1)`.
pub fn feature_width(units: usize, lag: usize) -> (width: usize)
    requires
        units * (lag + 1) <= usize::MAX,
    ensures
        width == units * (lag + 1),
{
    if units == 0 {
        assert(0 * (lag + 1) == 0) by (nonlinear_arith);
        0
    } else {
        assert(lag + 1 <= units * (lag + 1)) by (nonlinear_arith)
            requires
                units >= 1,
        ;
        units * (lag + 1)
    }
}

} // verus!

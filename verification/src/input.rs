//! Reservoir inputs that come as ready vectors, one list of vectors per
//! episode.

use crate::matrix::{rectangular, rows_view, Matrix};
use crate::repr::matrices_view;
use vstd::prelude::*;

verus! {

/// The inputs of a batch of episodes, one matrix per episode with one row
/// per instant.
#[derive(Debug)]
pub struct FlightInput<T> {
    pub episodes: usize,
    /// The number of instants of the longest episode.
    pub time: usize,
    /// The number of variables of an instant.
    pub vars: usize,
    pub reservoir_input: Vec<Matrix<T>>,
}

/// Every episode has an instant, and all instants of an episode have as
/// many variables as its first.
pub open spec fn episodes_ok<T>(flight_logs: Seq<Vec<Vec<T>>>) -> bool {
    forall|e: int|
        0 <= e < flight_logs.len() ==> (#[trigger] flight_logs[e])@.len() > 0 && rectangular(
            rows_view(flight_logs[e]@),
            flight_logs[e]@[0]@.len(),
        )
}

/// `time` is the length of the longest episode, and zero without episodes.
pub open spec fn is_longest<T>(flight_logs: Seq<Vec<Vec<T>>>, time: nat) -> bool {
    &&& forall|e: int| 0 <= e < flight_logs.len() ==> (#[trigger] flight_logs[e])@.len() <= time
    &&& if flight_logs.len() == 0 {
        time == 0
    } else {
        exists|e: int| 0 <= e < flight_logs.len() && (#[trigger] flight_logs[e])@.len() == time
    }
}

impl<T: Copy> FlightInput<T> {
    /// The inputs of the episodes `flight_logs`, each a list of vectors.
    pub fn new_from_rc_input(flight_logs: Vec<Vec<Vec<T>>>) -> (input: Self)
        requires
            episodes_ok(flight_logs@),
        ensures
            input.episodes == flight_logs@.len(),
            is_longest(flight_logs@, input.time as nat),
            input.vars == if flight_logs@.len() == 0 {
                0
            } else {
                flight_logs@[0]@[0]@.len()
            },
            matrices_view(input.reservoir_input@) == Seq::new(
                flight_logs@.len(),
                |e: int| rows_view(flight_logs@[e]@),
            ),
            forall|e: int|
                0 <= e < flight_logs@.len() ==> (#[trigger] input.reservoir_input@[e]).cols()
                    == flight_logs@[e]@[0]@.len(),
    {
        let episodes = flight_logs.len();
        let vars = if episodes == 0 {
            0
        } else {
            flight_logs[0][0].len()
        };
        let mut time: usize = 0;
        let mut data: Vec<Matrix<T>> = Vec::new();
        let mut e: usize = 0;
        while e < episodes
            invariant
                e <= episodes,
                episodes == flight_logs@.len(),
                episodes_ok(flight_logs@),
                is_longest(flight_logs@.take(e as int), time as nat),
                data@.len() == e,
                forall|k: int|
                    0 <= k < e ==> (#[trigger] data@[k])@ == rows_view(flight_logs@[k]@)
                        && data@[k].cols() == flight_logs@[k]@[0]@.len(),
            decreases episodes - e,
        {
            let fl = &flight_logs[e];
            let ghost seen = flight_logs@.take(e as int);
            let ghost more = flight_logs@.take(e + 1);
            if fl.len() > time {
                time = fl.len();
            }
            proof {
                assert(more[e as int] == flight_logs@[e as int]);
                assert forall|k: int| 0 <= k < more.len() implies (#[trigger] more[k])@.len()
                    <= time by {
                    if k < e {
                        assert(more[k] == seen[k]);
                    }
                }
                if fl@.len() != time {
                    let w = choose|w: int| 0 <= w < seen.len() && (#[trigger] seen[w])@.len() == time;
                    assert(more[w] == seen[w]);
                }
            }
            let width = fl[0].len();
            let mut rows: Vec<Vec<T>> = Vec::new();
            let mut t: usize = 0;
            while t < fl.len()
                invariant
                    t <= fl@.len(),
                    rectangular(rows_view(fl@), width as nat),
                    rows@.len() == t,
                    forall|k: int| 0 <= k < t ==> (#[trigger] rows@[k])@ == fl@[k]@,
                decreases fl@.len() - t,
            {
                assert(rows_view(fl@)[t as int].len() == width);
                rows.push(crate::matrix::copy_row(&fl[t]));
                t += 1;
            }
            assert(rows_view(rows@) =~= rows_view(fl@));
            data.push(Matrix::from_rows(width, rows));
            e += 1;
        }
        proof {
            assert(flight_logs@.take(episodes as int) =~= flight_logs@);
            assert(matrices_view(data@) =~= Seq::new(
                flight_logs@.len(),
                |e: int| rows_view(flight_logs@[e]@),
            ));
        }
        FlightInput { episodes, time, vars, reservoir_input: data }
    }
}

} // verus!

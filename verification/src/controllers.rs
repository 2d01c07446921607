//! What the two kinds of controller have in common: the way from the
//! features of a tick to a motor command.

use crate::flight::MotorInput;
use crate::linalg::{matrix_ops_ok, MatrixOps};
use crate::matrix::Matrix;
use crate::ridge::{predict_spec, RidgeError, RidgeRegression};
use crate::scalar::{is_limit_result, limited, one_of, scalar_ops_ok, zero_of, ScalarOps};
use vstd::prelude::*;

verus! {

/// The four motor commands for a prediction row: each of its first four
/// entries, kept between zero and one.
pub open spec fn clamped_command<T, O: ScalarOps<T>>(ops: O, row: Seq<T>) -> Seq<T> {
    Seq::new(4, |i: int| limited(ops, row[i], zero_of(ops), one_of(ops)))
}

/// `cmd` holds four commands, each a result of keeping a scalar between zero
/// and one.
pub open spec fn is_clamped<T, O: ScalarOps<T>>(ops: O, cmd: Seq<T>) -> bool {
    &&& cmd.len() == 4
    &&& forall|i: int|
        0 <= i < 4 ==> is_limit_result(ops, zero_of(ops), one_of(ops), #[trigger] cmd[i])
}

/// The motor command for a prediction: the first four entries of its first
/// row, each kept between zero and one.
pub fn motor_command<T: Copy, O: ScalarOps<T>>(pr: &Matrix<T>, ops: &O) -> (cmd: MotorInput<T>)
    requires
        pr@.len() >= 1,
        pr.cols() >= 4,
        scalar_ops_ok(*ops),
    ensures
        cmd.input@ == clamped_command(*ops, pr@[0]),
        is_clamped(*ops, cmd.input@),
{
    let row = pr.row(0);
    let zero = ops.zero();
    let one = ops.one();
    let motor_input_1 = ops.limit(row[0], zero, one);
    let motor_input_2 = ops.limit(row[1], zero, one);
    let motor_input_3 = ops.limit(row[2], zero, one);
    let motor_input_4 = ops.limit(row[3], zero, one);
    let input = [motor_input_1, motor_input_2, motor_input_3, motor_input_4];
    proof {
        assert(input@ =~= clamped_command(*ops, pr@[0]));
        assert(call_ensures(O::limit, (ops, row@[0], zero, one), motor_input_1));
        assert(call_ensures(O::limit, (ops, row@[1], zero, one), motor_input_2));
        assert(call_ensures(O::limit, (ops, row@[2], zero, one), motor_input_3));
        assert(call_ensures(O::limit, (ops, row@[3], zero, one), motor_input_4));
        assert forall|i: int| 0 <= i < 4 implies is_limit_result(
            *ops,
            zero_of(*ops),
            one_of(*ops),
            #[trigger] input@[i],
        ) by {
            if i == 0 {
                assert(input@[0] == motor_input_1);
            } else if i == 1 {
                assert(input@[1] == motor_input_2);
            } else if i == 2 {
                assert(input@[2] == motor_input_3);
            } else {
                assert(input@[3] == motor_input_4);
            }
        }
    }
    MotorInput { input }
}

/// What a readout commands for the feature row `features[0]`: the error of
/// an unfitted readout, else the first row of its prediction, entry by entry
/// kept between zero and one.
pub open spec fn command_spec<T, O: MatrixOps<T>>(
    ops: O,
    readout: RidgeRegression<T>,
    features: Seq<Seq<T>>,
) -> Result<Seq<T>, RidgeError> {
    match readout.sol {
        None => Err(RidgeError::UnfittedModel),
        Some(sol) => Ok(
            clamped_command(
                ops,
                predict_spec(ops, sol.coeff_rows(), sol.intercepts(), features)[0],
            ),
        ),
    }
}

/// The four scalars of a command, or the error in its place.
pub open spec fn command_view<T>(r: Result<MotorInput<T>, RidgeError>) -> Result<
    Seq<T>,
    RidgeError,
> {
    match r {
        Ok(cmd) => Ok(cmd.input@),
        Err(e) => Err(e),
    }
}

/// The command of a readout for the features of a tick.
pub fn readout_command<T: Copy, O: MatrixOps<T>>(
    readout: &RidgeRegression<T>,
    features: &Matrix<T>,
    ops: &O,
) -> (r: Result<MotorInput<T>, RidgeError>)
    requires
        features@.len() >= 1,
        readout.sol matches Some(sol) ==> features.cols() == sol.features()
            && sol.intercepts().len() >= 4,
        matrix_ops_ok(*ops),
    ensures
        command_view(r) == command_spec(*ops, *readout, features@),
        r is Ok <==> readout.sol is Some,
        r matches Ok(cmd) ==> is_clamped(*ops, cmd.input@),
{
    match readout.predict(features, ops) {
        Ok(pr) => Ok(motor_command(&pr, ops)),
        Err(e) => Err(e),
    }
}

/// The output of a controller stays in the range of its clamp: whatever
/// holds of every result of keeping a scalar between zero and one holds of
/// each of the four commands, however large or small the prediction of the
/// readout was.
pub proof fn command_stays_in_clamp_range<T, O: ScalarOps<T>>(
    ops: O,
    cmd: Seq<T>,
    within: spec_fn(T) -> bool,
)
    requires
        is_clamped(ops, cmd),
        forall|x: T, y: T| #[trigger]
            call_ensures(O::limit, (&ops, x, zero_of(ops), one_of(ops)), y) ==> within(y),
    ensures
        forall|i: int| 0 <= i < 4 ==> within(#[trigger] cmd[i]),
{
    assert forall|i: int| 0 <= i < 4 implies within(#[trigger] cmd[i]) by {
        assert(is_limit_result(ops, zero_of(ops), one_of(ops), cmd[i]));
    }
}

} // verus!

//! The two kinds of controller behind one interface.

use crate::controllers::is_clamped;
use crate::esn_controller::NonAdaptingDroneRc;
use crate::flight::{FlightControllerUpdate, MotorInput};
use crate::izhikevich_controller::IzhikevichController;
use crate::linalg::{matrix_ops_ok, MatrixOps};
use crate::matrix::filled_spec;
use crate::ridge::RidgeError;
use crate::scalar::zero_of;
use vstd::prelude::*;

verus! {

/// A controller on an echo-state reservoir or on a spiking reservoir.
pub enum Controller<T> {
    Esn(NonAdaptingDroneRc<T>),
    Spiking(IzhikevichController<T>),
}

/// A tick that shows `update` takes the controller `before` to `after` with
/// the outcome `r`.
pub open spec fn is_tick<T, O: MatrixOps<T>>(
    ops: O,
    before: Controller<T>,
    update: FlightControllerUpdate<T>,
    after: Controller<T>,
    r: Result<MotorInput<T>, RidgeError>,
) -> bool {
    match before {
        Controller::Esn(b) => after matches Controller::Esn(a) && b.ticks_to(ops, update, &a, r),
        Controller::Spiking(b) => after matches Controller::Spiking(a) && b.ticks_to(
            ops,
            update,
            &a,
            r,
        ),
    }
}

/// Whether the readout of a controller was fitted.
pub open spec fn is_fitted<T>(c: Controller<T>) -> bool {
    match c {
        Controller::Esn(c) => c.readout_spec().sol is Some,
        Controller::Spiking(c) => c.readout_spec().sol is Some,
    }
}

/// `after` is `before` at the start of a flight: a controller on an
/// echo-state reservoir with an empty window and its reservoir at zero, a
/// controller on a spiking reservoir as it was.
pub open spec fn is_reset<T, O: MatrixOps<T>>(ops: O, before: Controller<T>, after: Controller<T>)
    -> bool {
    match before {
        Controller::Esn(b) => after matches Controller::Esn(a) && a.same_training(&b)
            && a.window() == Seq::<Seq<T>>::empty() && a.state() == filled_spec(
            1,
            b.esn_model().units(),
            zero_of(ops),
        ),
        Controller::Spiking(b) => after == before,
    }
}

impl<T: Copy> Controller<T> {
    /// Gets the controller ready for a flight.
    pub fn init<O: MatrixOps<T>>(&mut self, ops: &O)
        requires
            matrix_ops_ok(*ops),
        ensures
            is_reset(*ops, *old(self), *final(self)),
    {
        match self {
            Controller::Esn(c) => {
                c.init(ops);
            },
            Controller::Spiking(c) => {
                c.init();
            },
        }
    }

    /// One tick: shows the controller `update` and returns the motor
    /// command, or the error of an unfitted readout.
    pub fn update<O: MatrixOps<T>>(&mut self, update: FlightControllerUpdate<T>, ops: &O) -> (r:
        Result<MotorInput<T>, RidgeError>)
        requires
            matrix_ops_ok(*ops),
        ensures
            is_tick(*ops, *old(self), update, *final(self), r),
            r is Ok <==> is_fitted(*old(self)),
            is_fitted(*final(self)) == is_fitted(*old(self)),
            r matches Ok(cmd) ==> is_clamped(*ops, cmd.input@),
    {
        match self {
            Controller::Esn(c) => c.update(update, ops),
            Controller::Spiking(c) => c.update(update, ops),
        }
    }

    /// The tick interval of the controller in nanoseconds.
    pub fn scheduler_delta(&self) -> (nanos: u128)
        ensures
            nanos == match self {
                Controller::Esn(_) => 10_000_000,
                Controller::Spiking(c) => c.scheduler_nanos(),
            },
    {
        match self {
            Controller::Esn(c) => c.scheduler_delta(),
            Controller::Spiking(c) => c.scheduler_delta(),
        }
    }
}

} // verus!

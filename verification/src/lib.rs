//! Reservoir-computing flight controllers: an echo-state reservoir and a
//! spiking reservoir, the features that are read from their states, a
//! principal-component reducer, a ridge regression as readout, and the
//! controllers and their training built from these.
//!
//! The crate is generic in its scalars. The arithmetic on them comes in
//! through the traits of `scalar` and `linalg`; everything else, from the
//! integration rule of a neuron to the order of the rows of a training
//! matrix, is fixed here.

pub mod bf_rates;
pub mod coin;
pub mod controllers;
pub mod dimensionality_reducer;
pub mod esn;
pub mod esn_controller;
pub mod flight;
pub mod flight_controller;
pub mod input;
pub mod input_gen;
pub mod input_mapping;
pub mod izhikevich;
pub mod izhikevich_controller;
pub mod linalg;
pub mod loaders;
pub mod loggers;
pub mod matrix;
pub mod repr;
pub mod ridge;
pub mod rls;
pub mod scalar;
pub mod setpoints;
pub mod stabilization;
pub mod stats;
pub mod text;
pub mod time;
pub mod training;
pub mod utils;

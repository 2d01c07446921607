use res_controller::input::FlightInput;
use res_controller::text::{decimal, joined, starts_with};
use res_controller::time::nanos;
use res_controller::utils::results_path;
use std::path::Path;
use std::time::Duration;

#[test]
fn decimal_notation() {
    assert_eq!(decimal(0), "0");
    assert_eq!(decimal(7), "7");
    assert_eq!(decimal(10), "10");
    assert_eq!(decimal(49), "49");
    assert_eq!(decimal(1234567890), "1234567890");
    assert_eq!(decimal(usize::MAX), usize::MAX.to_string());
}

#[test]
fn prefixes() {
    assert!(starts_with("training_3", "training_"));
    assert!(starts_with("training_", "training_"));
    assert!(!starts_with("trainin", "training_"));
    assert!(!starts_with("testing_3", "training_"));
    assert!(starts_with("anything", ""));
    assert!(starts_with("", ""));
    assert!(!starts_with("", "x"));
    assert_eq!(joined("replays/", "5_len"), "replays/5_len");
}

#[test]
fn durations_in_nanoseconds() {
    assert_eq!(nanos(Duration::from_millis(10)), 10_000_000);
    assert_eq!(nanos(Duration::ZERO), 0);
    assert_eq!(nanos(Duration::new(3, 7)), 3_000_000_007);
}

#[test]
fn flight_input_from_vectors() {
    let input = FlightInput::new_from_rc_input(vec![
        vec![vec![1.0, 2.0], vec![3.0, 4.0]],
        vec![vec![5.0, 6.0], vec![7.0, 8.0], vec![9.0, 10.0]],
    ]);
    assert_eq!(input.episodes, 2);
    assert_eq!(input.time, 3);
    assert_eq!(input.vars, 2);
    assert_eq!(input.reservoir_input.len(), 2);
    assert_eq!(input.reservoir_input[0].nrows(), 2);
    assert_eq!(input.reservoir_input[1].nrows(), 3);
    assert_eq!(input.reservoir_input[1].row(2), &vec![9.0, 10.0]);
    let none: FlightInput<f64> = FlightInput::new_from_rc_input(Vec::new());
    assert_eq!(none.episodes, 0);
    assert_eq!(none.time, 0);
    assert_eq!(none.vars, 0);
}

#[test]
fn results_lie_below_their_directory() {
    assert_eq!(results_path("/work/crate", "combined5.csv"), "/work/crate/combined5.csv");
    assert_eq!(results_path("/work/crate/", "combined5.csv"), "/work/crate/combined5.csv");
    assert_eq!(results_path("", "combined5.csv"), "combined5.csv");
    assert_eq!(results_path("/work", "/tmp/out.csv"), "/tmp/out.csv");
    assert_eq!(results_path(".", "a/b.csv"), "./a/b.csv");
    for (base, name) in [("/work/crate", "x.csv"), ("/work/", "x"), ("", "x"), ("a", "/x"), ("a", "")] {
        assert_eq!(Path::new(&results_path(base, name)), Path::new(base).join(name).as_path());
    }
}

use res_controller::flight::{downsample_steps, Channels, FlightLog, SnapShot};
use res_controller::loaders::{DefaultLoader, FlDataSet, Loader, LoaderType};
use res_controller::loggers::{FileLogger, LoggerType};
use res_controller::loaders::ControllerType;
use std::time::Duration;

fn snap(ms: u128, yaw: f64) -> SnapShot<f64> {
    SnapShot {
        time_nanos: ms * 1_000_000,
        battery: 16.0,
        angular_velocity: [0.0, yaw, 0.0],
        channels: Channels { throttle: 0.0, roll: 0.0, pitch: 0.0, yaw: 0.0 },
        motor_input: [0.0; 4],
    }
}

fn times(steps: &Vec<SnapShot<f64>>) -> Vec<u128> {
    steps.iter().map(|s| s.time_nanos / 1_000_000).collect()
}

fn log(id: &str, ms: &[u128]) -> FlightLog<f64> {
    FlightLog { simulation_id: id.to_string(), steps: ms.iter().map(|t| snap(*t, 0.0)).collect() }
}

#[test]
fn downsampling_keeps_one_snapshot_per_interval() {
    let steps: Vec<SnapShot<f64>> = (0..35).map(|t| snap(t, 0.0)).collect();
    let out = downsample_steps(&steps, 10_000_000);
    assert_eq!(times(&out), vec![0, 10, 20, 30]);
}

#[test]
fn downsampling_counts_from_the_last_kept_snapshot() {
    let steps: Vec<SnapShot<f64>> = [3, 4, 12, 13, 14, 22, 40, 41].iter().map(|t| snap(*t, 0.0)).collect();
    let out = downsample_steps(&steps, 10_000_000);
    assert_eq!(times(&out), vec![3, 13, 40]);
}

#[test]
fn downsampling_edge_cases() {
    let none: Vec<SnapShot<f64>> = Vec::new();
    assert_eq!(downsample_steps(&none, 10).len(), 0);
    let steps: Vec<SnapShot<f64>> = (0..5).map(|t| snap(t, 0.0)).collect();
    // An interval of zero keeps everything.
    assert_eq!(downsample_steps(&steps, 0).len(), 5);
    // An interval beyond every time stamp keeps the first snapshot only.
    assert_eq!(times(&downsample_steps(&steps, u128::MAX)), vec![0]);
}

#[test]
fn a_log_is_downsampled_by_a_duration() {
    let mut l = log("flight", &[0, 1, 2, 3, 4, 5, 6, 7, 8, 9, 10, 11]);
    l.downsample(Duration::from_millis(5));
    assert_eq!(l.simulation_id, "flight");
    assert_eq!(times(&l.steps), vec![0, 5, 10]);
    let copy = l.duplicate();
    assert_eq!(copy.simulation_id, "flight");
    assert_eq!(times(&copy.steps), vec![0, 5, 10]);
}

#[test]
fn a_data_set_is_downsampled_log_by_log() {
    let mut set = FlDataSet {
        dataset_id: "set".to_string(),
        train_data: vec![log("training_0", &[0, 5, 10, 15, 20]), log("training_1", &[0, 9, 10])],
        test_data: vec![log("testing_0", &[1, 2, 3, 11])],
    };
    set.downsample(Duration::from_millis(10));
    assert_eq!(set.dataset_id, "set");
    assert_eq!(set.train_data.len(), 2);
    assert_eq!(set.train_data[0].simulation_id, "training_0");
    assert_eq!(times(&set.train_data[0].steps), vec![0, 10, 20]);
    assert_eq!(times(&set.train_data[1].steps), vec![0, 10]);
    assert_eq!(set.test_data[0].simulation_id, "testing_0");
    assert_eq!(times(&set.test_data[0].steps), vec![1, 11]);
}

#[test]
fn the_default_data_set_is_empty() {
    let set: FlDataSet<f64> = FlDataSet::default();
    assert_eq!(set.dataset_id, "");
    assert!(set.train_data.is_empty());
    assert!(set.test_data.is_empty());
    let loader = DefaultLoader::default();
    let set: FlDataSet<f64> = loader.load_data_set("anything");
    assert!(set.train_data.is_empty());
    assert!(loader.get_replay_ids().is_empty());
    assert!(loader.get_reservoir_controller_ids().is_empty());
    assert!(loader.get_izhikevich_controller_ids().is_empty());
}

#[test]
fn file_logger_writes_nothing_without_snapshots() {
    let mut logger: FileLogger<f64> = FileLogger::new("5_len/training_0".to_string());
    assert!(logger.flush().is_none());
    logger.log_time_stamp(snap(0, 0.0));
    logger.log_time_stamp(snap(1, 0.0));
    let written = logger.flush().unwrap();
    assert_eq!(written.simulation_id, "5_len/training_0");
    assert_eq!(times(&written.steps), vec![0, 1]);
    // Flushing keeps the snapshots.
    assert_eq!(logger.flush().unwrap().steps.len(), 2);
    assert_eq!(logger.log_path(), "replays/5_len/training_0");
}

#[test]
fn defaults_of_the_kinds() {
    assert_eq!(LoggerType::default(), LoggerType::Empty);
    assert_eq!(ControllerType::default(), ControllerType::Betafligt);
    assert!(LoaderType::default() == LoaderType::DefaultLoader);
    assert!(matches!(Loader::default(), Loader::FileLoader(_)));
    assert_eq!(Loader::default().load_drone("7in_4s_drone"), Some("drones/7in_4s_drone.json".to_string()));
    assert_eq!(Loader::DefaultLoader(DefaultLoader::default()).load_drone("7in_4s_drone"), None);
    assert_eq!(Loader::default().load_res_controller("rc"), "reservoirs/rc");
}

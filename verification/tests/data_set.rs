use res_controller::loaders::{build_data_set, FileLoader, Loader, Partition};
use std::time::Duration;

#[test]
fn build_50() {
    let plan = build_data_set("5_len".into(), Duration::from_secs(5), 5, 5);
    assert_eq!(plan.training.len(), 5);
    assert_eq!(plan.testing.len(), 5);
    let plan = build_data_set("10_len".into(), Duration::from_secs(5), 10, 10);
    assert_eq!(plan.training.len(), 10);
    assert_eq!(plan.testing.len(), 10);
    let plan = build_data_set("25_len".into(), Duration::from_secs(5), 25, 25);
    assert_eq!(plan.training.len(), 25);
    assert_eq!(plan.testing.len(), 25);
    let plan = build_data_set("50_len".into(), Duration::from_secs(5), 50, 50);
    assert_eq!(plan.training.len(), 50);
    assert_eq!(plan.testing.len(), 50);
    assert_eq!(plan.training[0].simulation_id, "50_len/training_0");
    assert_eq!(plan.training[49].simulation_id, "50_len/training_49");
    assert_eq!(plan.testing[10].simulation_id, "50_len/testing_10");
    assert_eq!(plan.training[7].steps, 5000);
    assert_eq!(plan.testing[7].partition, Partition::Test);
}

#[test]
fn planned_files_are_found_again_by_name() {
    let loader = FileLoader::default();
    assert_eq!(loader.classify("training_12"), Some(Partition::Train));
    assert_eq!(loader.classify("testing_0"), Some(Partition::Test));
    assert_eq!(loader.classify("notes.txt"), None);
    assert_eq!(loader.classify("train"), None);
}

#[test]
fn file_loader_paths() {
    let loader = FileLoader::default();
    assert_eq!(loader.drone_path("7in_4s_drone"), "drones/7in_4s_drone.json");
    assert_eq!(loader.flight_log_path("manual_flight"), "replays/manual_flight");
    assert_eq!(loader.data_set_dir("5_len"), "replays/5_len/");
    let loader = Loader::default();
    assert_eq!(loader.load_replay("manual_flight"), "replays/manual_flight");
}

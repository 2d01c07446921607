//! Loaders: where drones, replays, data sets and trained controllers are
//! kept. The library decides names and places; reading and writing the files
//! is left to the program around it.

use crate::flight::{downsample_steps, downsampled_logs, logs_ids, FlightLog};
use crate::text::{decimal, decimal_digits, has_prefix, joined, starts_with};
use crate::time::{as_nanos, duration_nanos};
use std::time::Duration;
use vstd::prelude::*;
use vstd::string::*;

verus! {

/// The two parts of a data set.
#[derive(Clone, Copy, Debug, PartialEq, Eq, Structural)]
pub enum Partition {
    Train,
    Test,
}

/// The text with which the file names of a partition's episodes begin.
pub open spec fn partition_prefix(partition: Partition) -> Seq<char> {
    match partition {
        Partition::Train => "training_"@,
        Partition::Test => "testing_"@,
    }
}

/// The file name of episode number `ep` of a partition.
pub open spec fn episode_file_name(partition: Partition, ep: nat) -> Seq<char> {
    partition_prefix(partition) + decimal_digits(ep)
}

/// The identifier of episode number `ep` of a partition of a data set.
pub open spec fn episode_id(data_set_id: Seq<char>, partition: Partition, ep: nat) -> Seq<char> {
    data_set_id + "/"@ + episode_file_name(partition, ep)
}

/// The partition that a file of a data set directory belongs to, by its name.
pub open spec fn classify_spec(file_name: Seq<char>) -> Option<Partition> {
    if has_prefix(file_name, partition_prefix(Partition::Train)) {
        Some(Partition::Train)
    } else if has_prefix(file_name, partition_prefix(Partition::Test)) {
        Some(Partition::Test)
    } else {
        None
    }
}

/// A named collection of training and test flights.
#[derive(Debug)]
pub struct FlDataSet<T> {
    pub dataset_id: String,
    pub train_data: Vec<FlightLog<T>>,
    pub test_data: Vec<FlightLog<T>>,
}

impl<T> Default for FlDataSet<T> {
    fn default() -> (r: Self)
        ensures
            r.dataset_id@ == Seq::<char>::empty(),
            r.train_data@.len() == 0,
            r.test_data@.len() == 0,
    {
        FlDataSet { dataset_id: String::new(), train_data: Vec::new(), test_data: Vec::new() }
    }
}

/// Every log of `logs`, thinned out to one snapshot per `interval`
/// nanoseconds.
pub fn downsample_logs<T: Copy>(logs: &Vec<FlightLog<T>>, interval: u128) -> (out: Vec<
    FlightLog<T>,
>)
    ensures
        out@.len() == logs@.len(),
        logs_ids(out@) == logs_ids(logs@),
        crate::flight::logs_steps(out@) == downsampled_logs(logs@, interval as nat),
{
    let mut out: Vec<FlightLog<T>> = Vec::new();
    let mut i: usize = 0;
    while i < logs.len()
        invariant
            i <= logs@.len(),
            out@.len() == i,
            forall|k: int|
                0 <= k < i ==> (#[trigger] out@[k]).simulation_id@ == logs@[k].simulation_id@,
            forall|k: int|
                0 <= k < i ==> (#[trigger] out@[k]).steps@ == crate::flight::downsampled(
                    logs@[k].steps@,
                    interval as nat,
                ),
        decreases logs@.len() - i,
    {
        let log = FlightLog {
            simulation_id: logs[i].simulation_id.clone(),
            steps: downsample_steps(&logs[i].steps, interval),
        };
        out.push(log);
        i += 1;
    }
    assert(logs_ids(out@) =~= logs_ids(logs@));
    assert(crate::flight::logs_steps(out@) =~= downsampled_logs(logs@, interval as nat));
    out
}

impl<T: Copy> FlDataSet<T> {
    /// Thins out every flight of the set, training and test, to one snapshot
    /// per `duration`. Names and order stay.
    pub fn downsample(&mut self, duration: Duration)
        ensures
            final(self).dataset_id == old(self).dataset_id,
            logs_ids(final(self).train_data@) == logs_ids(old(self).train_data@),
            logs_ids(final(self).test_data@) == logs_ids(old(self).test_data@),
            crate::flight::logs_steps(final(self).train_data@) == downsampled_logs(
                old(self).train_data@,
                duration_nanos(duration) as nat,
            ),
            crate::flight::logs_steps(final(self).test_data@) == downsampled_logs(
                old(self).test_data@,
                duration_nanos(duration) as nat,
            ),
    {
        let interval = as_nanos(duration);
        self.train_data = downsample_logs(&self.train_data, interval);
        self.test_data = downsample_logs(&self.test_data, interval);
    }
}

/// The loader that knows the built-in drone only and holds nothing else.
#[derive(Debug)]
pub struct DefaultLoader {}

impl Default for DefaultLoader {
    fn default() -> (r: Self) {
        DefaultLoader {  }
    }
}

impl DefaultLoader {
    /// No replays.
    pub fn get_replay_ids(&self) -> (ids: Vec<String>)
        ensures
            ids@.len() == 0,
    {
        Vec::new()
    }

    /// No reservoir controllers.
    pub fn get_reservoir_controller_ids(&self) -> (ids: Vec<String>)
        ensures
            ids@.len() == 0,
    {
        Vec::new()
    }

    /// No spiking controllers.
    pub fn get_izhikevich_controller_ids(&self) -> (ids: Vec<String>)
        ensures
            ids@.len() == 0,
    {
        Vec::new()
    }

    /// Every data set is empty and has no name.
    pub fn load_data_set<T>(&self, dataset_id: &str) -> (set: FlDataSet<T>)
        ensures
            set.dataset_id@ == Seq::<char>::empty(),
            set.train_data@.len() == 0,
            set.test_data@.len() == 0,
    {
        FlDataSet::default()
    }
}

/// The loader that keeps everything in files below one data directory. All
/// paths are relative to that directory.
#[derive(Debug)]
pub struct FileLoader {}

impl Default for FileLoader {
    fn default() -> (r: Self) {
        FileLoader {  }
    }
}

impl FileLoader {
    /// The file of a drone configuration.
    pub fn drone_path(&self, config_id: &str) -> (path: String)
        ensures
            path@ == "drones/"@ + config_id@ + ".json"@,
    {
        joined("drones/", config_id).concat(".json")
    }

    /// The file of a replay.
    pub fn flight_log_path(&self, sim_id: &str) -> (path: String)
        ensures
            path@ == "replays/"@ + sim_id@,
    {
        joined("replays/", sim_id)
    }

    /// The file of a trained reservoir controller.
    pub fn res_controller_path(&self, controller_id: &str) -> (path: String)
        ensures
            path@ == "reservoirs/"@ + controller_id@,
    {
        joined("reservoirs/", controller_id)
    }

    /// The file of a trained spiking controller.
    pub fn izhikevich_controller_path(&self, controller_id: &str) -> (path: String)
        ensures
            path@ == "izhikevich_controllers/"@ + controller_id@,
    {
        joined("izhikevich_controllers/", controller_id)
    }

    /// The directory of a data set.
    pub fn data_set_dir(&self, dataset_id: &str) -> (path: String)
        ensures
            path@ == "replays/"@ + dataset_id@ + "/"@,
    {
        joined("replays/", dataset_id).concat("/")
    }

    /// The file of one flight of a data set.
    pub fn data_set_entry_path(&self, dataset_id: &str, simulation_id: &str) -> (path: String)
        ensures
            path@ == "replays/"@ + dataset_id@ + "/"@ + simulation_id@,
    {
        self.data_set_dir(dataset_id).concat(simulation_id)
    }

    /// The partition that a file of a data set directory belongs to: its name
    /// begins with `training_` or with `testing_`, or it belongs to neither.
    pub fn classify(&self, file_name: &str) -> (partition: Option<Partition>)
        ensures
            partition == classify_spec(file_name@),
    {
        if starts_with(file_name, "training_") {
            Some(Partition::Train)
        } else if starts_with(file_name, "testing_") {
            Some(Partition::Test)
        } else {
            None
        }
    }
}

/// Which kind of loader a simulation context uses.
#[derive(Clone, PartialEq)]
pub enum LoaderType {
    File,
    DefaultLoader,
}

impl Default for LoaderType {
    fn default() -> (r: Self)
        ensures
            r == LoaderType::DefaultLoader,
    {
        LoaderType::DefaultLoader
    }
}

/// Which controller flies the drone, with the identifier of a trained one.
#[derive(Clone, Debug, PartialEq, Eq, Hash)]
pub enum ControllerType {
    Betafligt,
    Reservoir(String),
    Izhikevich(String),
    NullController,
}

impl Default for ControllerType {
    fn default() -> (r: Self)
        ensures
            r == ControllerType::Betafligt,
    {
        ControllerType::Betafligt
    }
}

/// One of the two loaders.
#[derive(Debug)]
pub enum Loader {
    FileLoader(FileLoader),
    DefaultLoader(DefaultLoader),
}

impl Default for Loader {
    fn default() -> (r: Self)
        ensures
            r is FileLoader,
    {
        Loader::FileLoader(FileLoader::default())
    }
}

impl Loader {
    /// The file from which the replay `replay_id` is read. The default loader
    /// holds no replays.
    pub fn load_replay(&self, replay_id: &str) -> (path: String)
        requires
            self is FileLoader,
        ensures
            path@ == "replays/"@ + replay_id@,
    {
        match self {
            Loader::FileLoader(loader) => loader.flight_log_path(replay_id),
            Loader::DefaultLoader(_) => {
                assert(false);
                String::new()
            },
        }
    }

    /// The file from which the reservoir controller `controller_id` is read.
    /// The default loader holds no controllers.
    pub fn load_res_controller(&self, controller_id: &str) -> (path: String)
        requires
            self is FileLoader,
        ensures
            path@ == "reservoirs/"@ + controller_id@,
    {
        match self {
            Loader::FileLoader(loader) => loader.res_controller_path(controller_id),
            Loader::DefaultLoader(_) => {
                assert(false);
                String::new()
            },
        }
    }

    /// The file from which the drone `config_id` is read, or `None` for the
    /// built-in drone of the default loader.
    pub fn load_drone(&self, config_id: &str) -> (path: Option<String>)
        ensures
            self is DefaultLoader <==> path is None,
            path matches Some(p) ==> p@ == "drones/"@ + config_id@ + ".json"@,
    {
        match self {
            Loader::FileLoader(loader) => Some(loader.drone_path(config_id)),
            Loader::DefaultLoader(_) => None,
        }
    }
}

/// One episode to simulate for a new data set.
#[derive(Debug)]
pub struct EpisodePlan {
    /// The identifier under which the episode is logged.
    pub simulation_id: String,
    pub partition: Partition,
    /// The number of control inputs to generate, one per millisecond.
    pub steps: u128,
}

/// `plans` holds episode `0`, `1`, ... of `partition`, each `steps`
/// milliseconds long and named after the data set.
pub open spec fn plans_for(
    plans: Seq<EpisodePlan>,
    data_set_id: Seq<char>,
    partition: Partition,
    count: nat,
    steps: nat,
) -> bool {
    &&& plans.len() == count
    &&& forall|ep: int|
        0 <= ep < count ==> {
            &&& (#[trigger] plans[ep]).simulation_id@ == episode_id(
                data_set_id,
                partition,
                ep as nat,
            )
            &&& plans[ep].partition == partition
            &&& plans[ep].steps == steps
        }
}

/// The episodes to simulate for a new data set, by partition.
#[derive(Debug)]
pub struct DataSetPlan {
    pub training: Vec<EpisodePlan>,
    pub testing: Vec<EpisodePlan>,
}

/// The name of the log of episode `ep` of a partition.
pub fn episode_name(data_set_id: &str, partition: Partition, ep: usize) -> (id: String)
    ensures
        id@ == episode_id(data_set_id@, partition, ep as nat),
{
    let prefix = match partition {
        Partition::Train => "training_",
        Partition::Test => "testing_",
    };
    let number = decimal(ep);
    let id = joined(data_set_id, "/").concat(prefix).concat(number.as_str());
    assert(id@ =~= episode_id(data_set_id@, partition, ep as nat));
    id
}

fn plan_partition(data_set_id: &str, partition: Partition, count: usize, steps: u128) -> (plans:
    Vec<EpisodePlan>)
    ensures
        plans_for(plans@, data_set_id@, partition, count as nat, steps as nat),
{
    let mut plans: Vec<EpisodePlan> = Vec::new();
    let mut ep: usize = 0;
    while ep < count
        invariant
            ep <= count,
            plans_for(plans@, data_set_id@, partition, ep as nat, steps as nat),
        decreases count - ep,
    {
        let simulation_id = episode_name(data_set_id, partition, ep);
        plans.push(EpisodePlan { simulation_id, partition, steps });
        ep += 1;
    }
    plans
}

/// Plans a new data set: `training_size` training episodes and `test_size`
/// test episodes, each of `training_duration` in steps of one millisecond.
/// Episode `ep` of the training part is logged as
/// `<data_set_id>/training_<ep>`, that of the test part as
/// `<data_set_id>/testing_<ep>`.
pub fn build_data_set(
    data_set_id: String,
    training_duration: Duration,
    training_size: usize,
    test_size: usize,
) -> (plan: DataSetPlan)
    ensures
        plans_for(
            plan.training@,
            data_set_id@,
            Partition::Train,
            training_size as nat,
            (duration_nanos(training_duration) / 1_000_000) as nat,
        ),
        plans_for(
            plan.testing@,
            data_set_id@,
            Partition::Test,
            test_size as nat,
            (duration_nanos(training_duration) / 1_000_000) as nat,
        ),
{
    let steps = as_nanos(training_duration) / 1_000_000;
    let training = plan_partition(data_set_id.as_str(), Partition::Train, training_size, steps);
    let testing = plan_partition(data_set_id.as_str(), Partition::Test, test_size, steps);
    DataSetPlan { training, testing }
}

/// The files that a planned data set is made of are found again by their
/// names: the file name of a training episode is classified as training,
/// that of a test episode as test.
pub proof fn planned_episodes_are_classified(partition: Partition, ep: nat)
    ensures
        classify_spec(episode_file_name(partition, ep)) == Some(partition),
{
    reveal_strlit("training_");
    reveal_strlit("testing_");
    let name = episode_file_name(partition, ep);
    let prefix = partition_prefix(partition);
    assert(name.take(prefix.len() as int) =~= prefix);
    if partition == Partition::Test {
        let other = partition_prefix(Partition::Train);
        assert(name[1] == 'e');
        assert(other[1] == 'r');
        if has_prefix(name, other) {
            assert(name.take(other.len() as int)[1] == other[1]);
        }
    }
}

} // verus!

//! The service plan: what a node starts, from its configuration and its
//! command line, and how the started tasks are supervised.
//!
//! Nothing here opens a database, a socket or a thread. The plan says which
//! parts are built, with which parameters and in which order; the supervisor
//! says what the exit of a task means for the others.
use crate::cache::FeeHistoryCache;
use crate::cache::FilterPool;
use crate::import::Stage;
use vstd::prelude::*;

verus! {

/// The part a node plays.
#[derive(Clone, Copy, Debug, PartialEq, Eq)]
pub enum Role {
    Full,
    Light,
    Authority,
}

impl Role {
    /// Whether the role is that of an authority.
    pub open spec fn spec_is_authority(self) -> bool {
        self is Authority
    }

    /// Whether the node takes part in consensus.
    pub fn is_authority(&self) -> (yes: bool)
        ensures
            yes == self.spec_is_authority(),
    {
        match self {
            Role::Authority => true,
            _ => false,
        }
    }
}

/// What the plan reads of a node's configuration.
#[derive(Debug)]
pub struct Configuration {
    pub role: Role,
    /// The directory of the chain's configuration, component by component.
    pub config_dir: Vec<String>,
    /// How many telemetry endpoints are configured, if telemetry is on.
    pub telemetry_endpoints: Option<usize>,
    pub offchain_worker_enabled: bool,
    pub force_authoring: bool,
    pub disable_grandpa: bool,
    pub allow_non_globals_in_dht: bool,
}

/// The options of the `run` command.
#[derive(Clone, Copy, Debug, PartialEq, Eq)]
pub struct RunCmd {
    pub enable_dev_signer: bool,
    /// Maximum number of logs in a query.
    pub max_past_logs: u32,
    /// Maximum fee history cache size.
    pub fee_history_limit: u64,
    /// The target gas price that a block author sets.
    pub target_gas_price: u64,
}

impl Default for RunCmd {
    fn default() -> (run: RunCmd)
        ensures
            run == (RunCmd {
                enable_dev_signer: false,
                max_past_logs: 10000,
                fee_history_limit: 2048,
                target_gas_price: 1,
            }),
    {
        RunCmd {
            enable_dev_signer: false,
            max_past_logs: 10000,
            fee_history_limit: 2048,
            target_gas_price: 1,
        }
    }
}

/// The command line, as far as the service reads it.
#[derive(Clone, Copy, Debug, PartialEq, Eq)]
pub struct Cli {
    pub run: RunCmd,
}

/// A background worker of the node.
#[derive(Clone, Copy, Debug, PartialEq, Eq)]
pub enum Worker {
    Telemetry,
    MappingSync,
    FilterPool,
    FeeHistory,
    SchemaCache,
    BabeProposer,
    AuthorityDiscovery,
    GrandpaVoter,
}

impl Worker {
    /// The name of each worker.
    pub open spec fn spec_name(self) -> Seq<char> {
        match self {
            Worker::Telemetry => "telemetry"@,
            Worker::MappingSync => "frontier-mapping-sync-worker"@,
            Worker::FilterPool => "frontier-filter-pool"@,
            Worker::FeeHistory => "frontier-fee-history"@,
            Worker::SchemaCache => "frontier-schema-cache-task"@,
            Worker::BabeProposer => "babe-proposer"@,
            Worker::AuthorityDiscovery => "authority-discovery-worker"@,
            Worker::GrandpaVoter => "grandpa-voter"@,
        }
    }

    /// The group of each worker; telemetry and the finality voter have none.
    pub open spec fn spec_group(self) -> Option<Seq<char>> {
        match self {
            Worker::Telemetry => None,
            Worker::MappingSync => Some("frontier-mapping-sync"@),
            Worker::FilterPool => Some("frontier-filter-pool"@),
            Worker::FeeHistory => Some("frontier-fee-history"@),
            Worker::SchemaCache => Some("frontier-schema-cache"@),
            Worker::BabeProposer => Some("block-authoring"@),
            Worker::AuthorityDiscovery => Some("networking"@),
            Worker::GrandpaVoter => None,
        }
    }

    /// The cache workers, block authoring and finality voting are essential;
    /// telemetry, address indexing and authority discovery are best-effort.
    pub open spec fn spec_essential(self) -> bool {
        match self {
            Worker::Telemetry => false,
            Worker::MappingSync => false,
            Worker::AuthorityDiscovery => false,
            _ => true,
        }
    }

    /// Block authoring and finality voting run on threads of their own.
    pub open spec fn spec_blocking(self) -> bool {
        self is BabeProposer || self is GrandpaVoter
    }

    /// The name under which the worker is spawned.
    pub fn name(&self) -> (name: &'static str)
        ensures
            name@ == self.spec_name(),
    {
        match self {
            Worker::Telemetry => "telemetry",
            Worker::MappingSync => "frontier-mapping-sync-worker",
            Worker::FilterPool => "frontier-filter-pool",
            Worker::FeeHistory => "frontier-fee-history",
            Worker::SchemaCache => "frontier-schema-cache-task",
            Worker::BabeProposer => "babe-proposer",
            Worker::AuthorityDiscovery => "authority-discovery-worker",
            Worker::GrandpaVoter => "grandpa-voter",
        }
    }

    /// The group under which the worker is counted, if it has one.
    pub fn group(&self) -> (group: Option<&'static str>)
        ensures
            match group {
                Some(g) => self.spec_group() == Some(g@),
                None => self.spec_group() is None,
            },
    {
        match self {
            Worker::Telemetry => None,
            Worker::MappingSync => Some("frontier-mapping-sync"),
            Worker::FilterPool => Some("frontier-filter-pool"),
            Worker::FeeHistory => Some("frontier-fee-history"),
            Worker::SchemaCache => Some("frontier-schema-cache"),
            Worker::BabeProposer => Some("block-authoring"),
            Worker::AuthorityDiscovery => Some("networking"),
            Worker::GrandpaVoter => None,
        }
    }

    /// Whether the node goes down with this worker.
    pub fn essential(&self) -> (yes: bool)
        ensures
            yes == self.spec_essential(),
    {
        match self {
            Worker::Telemetry => false,
            Worker::MappingSync => false,
            Worker::AuthorityDiscovery => false,
            _ => true,
        }
    }

    /// Whether the worker gets a thread of its own.
    pub fn blocking(&self) -> (yes: bool)
        ensures
            yes == self.spec_blocking(),
    {
        match self {
            Worker::BabeProposer => true,
            Worker::GrandpaVoter => true,
            _ => false,
        }
    }
}

/// How a supervised task stands.
#[derive(Clone, Copy, Debug, PartialEq, Eq)]
pub enum TaskState {
    Running,
    /// Ended of itself without a failure.
    Finished,
    /// Ended with a failure; it is not started again.
    Failed,
    /// Told to stop because the node shuts down.
    Cancelled,
}

/// A worker under supervision.
#[derive(Clone, Copy, Debug, PartialEq, Eq)]
pub struct Task {
    pub worker: Worker,
    pub essential: bool,
    pub blocking: bool,
    pub state: TaskState,
}

/// What the supervisor asks for when a task has ended.
#[derive(Clone, Copy, Debug, PartialEq, Eq)]
pub enum SupervisorAction {
    /// Nothing: the task had ended before, or ended without a failure.
    Nothing,
    /// Log the failure of a best-effort task.
    LogFailure,
    /// Shut the node down: every other task is told to stop.
    Shutdown,
}

/// A running task of this worker, with the worker's own flags.
pub open spec fn started(worker: Worker) -> Task {
    Task {
        worker,
        essential: worker.spec_essential(),
        blocking: worker.spec_blocking(),
        state: TaskState::Running,
    }
}

/// How a task stands once the node shuts down.
pub open spec fn stopped(task: Task) -> Task {
    if task.state is Running {
        Task { state: TaskState::Cancelled, ..task }
    } else {
        task
    }
}

/// Whether the end of the task at place `at` takes the node down.
pub open spec fn is_fatal(tasks: Seq<Task>, at: int, failed: bool) -> bool {
    0 <= at < tasks.len() && tasks[at].state is Running && failed && tasks[at].essential
}

/// What the end of the task at place `at` asks for.
pub open spec fn exit_action(tasks: Seq<Task>, at: int, failed: bool) -> SupervisorAction {
    if !(0 <= at < tasks.len() && tasks[at].state is Running) || !failed {
        SupervisorAction::Nothing
    } else if tasks[at].essential {
        SupervisorAction::Shutdown
    } else {
        SupervisorAction::LogFailure
    }
}

/// The tasks after the task at place `at` has ended. The task itself is
/// `Failed` or `Finished`; where its failure is fatal, every other running task
/// is `Cancelled`.
pub open spec fn after_exit(tasks: Seq<Task>, at: int, failed: bool) -> Seq<Task> {
    if 0 <= at < tasks.len() && tasks[at].state is Running {
        Seq::new(
            tasks.len(),
            |i: int|
                if i == at {
                    Task {
                        state: if failed {
                            TaskState::Failed
                        } else {
                            TaskState::Finished
                        },
                        ..tasks[i]
                    }
                } else if is_fatal(tasks, at, failed) {
                    stopped(tasks[i])
                } else {
                    tasks[i]
                },
        )
    } else {
        tasks
    }
}

/// The supervisor of the node's background tasks.
#[derive(Debug)]
pub struct TaskManager {
    tasks: Vec<Task>,
    shutting_down: bool,
}

impl TaskManager {
    /// The supervised tasks in the order in which they were spawned.
    pub closed spec fn tasks(&self) -> Seq<Task> {
        self.tasks@
    }

    /// Whether the node shuts down.
    pub closed spec fn shutting_down(&self) -> bool {
        self.shutting_down
    }

    /// A supervisor without tasks.
    pub fn new() -> (manager: TaskManager)
        ensures
            manager.tasks() == Seq::<Task>::empty(),
            !manager.shutting_down(),
    {
        TaskManager { tasks: Vec::new(), shutting_down: false }
    }

    /// Takes a worker under supervision. On a node that shuts down the task is
    /// cancelled at once.
    pub fn spawn(&mut self, worker: Worker)
        ensures
            final(self).shutting_down() == old(self).shutting_down(),
            final(self).tasks() == old(self).tasks().push(
                if old(self).shutting_down() {
                    stopped(started(worker))
                } else {
                    started(worker)
                },
            ),
    {
        let state = if self.shutting_down {
            TaskState::Cancelled
        } else {
            TaskState::Running
        };
        self.tasks.push(
            Task { worker, essential: worker.essential(), blocking: worker.blocking(), state },
        );
    }

    /// How many tasks are supervised.
    pub fn len(&self) -> (n: usize)
        ensures
            n == self.tasks().len(),
    {
        self.tasks.len()
    }

    /// The task at place `at`.
    pub fn task(&self, at: usize) -> (task: Task)
        requires
            at < self.tasks().len(),
        ensures
            task == self.tasks()[at as int],
    {
        self.tasks[at]
    }

    /// Whether the node shuts down.
    pub fn is_shutting_down(&self) -> (yes: bool)
        ensures
            yes == self.shutting_down(),
    {
        self.shutting_down
    }

    /// Tells every running task to stop.
    pub fn shutdown(&mut self)
        ensures
            final(self).shutting_down(),
            final(self).tasks() == old(self).tasks().map_values(|t: Task| stopped(t)),
    {
        let mut i: usize = 0;
        while i < self.tasks.len()
            invariant
                i <= self.tasks@.len(),
                self.tasks@.len() == old(self).tasks@.len(),
                forall|j: int| 0 <= j < i ==> self.tasks@[j] == stopped(old(self).tasks@[j]),
                forall|j: int| i <= j < self.tasks@.len() ==> self.tasks@[j] == old(self).tasks@[j],
            decreases self.tasks@.len() - i,
        {
            let task = self.tasks[i];
            match task.state {
                TaskState::Running => {
                    self.tasks.set(i, Task { state: TaskState::Cancelled, ..task });
                },
                _ => {},
            }
            i += 1;
        }
        self.shutting_down = true;
        assert(self.tasks@ =~= old(self).tasks@.map_values(|t: Task| stopped(t)));
    }

    /// Records that the task at place `at` has ended, with a failure or
    /// without, and says what follows. The failure of an essential task shuts
    /// the node down; the failure of another is logged, and the task is not
    /// started again. A place that holds no running task changes nothing.
    pub fn on_exit(&mut self, at: usize, failed: bool) -> (action: SupervisorAction)
        ensures
            action == exit_action(old(self).tasks(), at as int, failed),
            final(self).tasks() == after_exit(old(self).tasks(), at as int, failed),
            final(self).shutting_down() == (old(self).shutting_down() || is_fatal(
                old(self).tasks(),
                at as int,
                failed,
            )),
    {
        if at >= self.tasks.len() {
            return SupervisorAction::Nothing;
        }
        let task = self.tasks[at];
        match task.state {
            TaskState::Running => {},
            _ => {
                return SupervisorAction::Nothing;
            },
        }
        if !failed {
            self.tasks.set(at, Task { state: TaskState::Finished, ..task });
            assert(self.tasks@ =~= after_exit(old(self).tasks@, at as int, failed));
            return SupervisorAction::Nothing;
        }
        if !task.essential {
            self.tasks.set(at, Task { state: TaskState::Failed, ..task });
            assert(self.tasks@ =~= after_exit(old(self).tasks@, at as int, failed));
            return SupervisorAction::LogFailure;
        }
        self.shutdown();
        self.tasks.set(at, Task { state: TaskState::Failed, ..task });
        assert(self.tasks@ =~= after_exit(old(self).tasks@, at as int, failed));
        SupervisorAction::Shutdown
    }
}

/// A path as the sequence of its components.
pub open spec fn path_view(path: Vec<String>) -> Seq<Seq<char>> {
    Seq::new(path@.len(), |i: int| path@[i]@)
}

/// Where a database lives and how it is opened.
#[derive(Debug)]
pub enum DatabaseSettingsSrc {
    RocksDb { path: Vec<String>, cache_size: usize },
}

/// The settings of the address-mapping database.
#[derive(Debug)]
pub struct DatabaseSettings {
    pub source: DatabaseSettingsSrc,
}

/// The telemetry worker that is started.
#[derive(Clone, Copy, Debug, PartialEq, Eq)]
pub struct TelemetryPlan {
    pub endpoints: usize,
    /// How many messages the worker buffers.
    pub buffer: usize,
}

/// How blocks are authored.
#[derive(Clone, Copy, Debug, PartialEq, Eq)]
pub struct AuthoringPlan {
    pub force_authoring: bool,
    /// The most bytes a proposed block may hold.
    pub block_size_limit: usize,
    pub target_gas_price: u64,
    /// Authoring pauses while finality lags behind.
    pub backoff_on_finality_lag: bool,
    /// The share of a slot that a proposal may take, in hundredths.
    pub proposal_slot_percent: u8,
}

/// How the finality voter runs.
#[derive(Clone, Copy, Debug, PartialEq, Eq)]
pub struct GrandpaPlan {
    pub gossip_duration_millis: u64,
    pub justification_period: u32,
    pub observer_enabled: bool,
    /// Whether the voter signs with the node's keys.
    pub with_keystore: bool,
}

/// What the RPC layer is handed.
#[derive(Clone, Copy, Debug, PartialEq, Eq)]
pub struct RpcPlan {
    pub is_authority: bool,
    pub enable_dev_signer: bool,
    pub max_past_logs: u32,
    pub fee_history_limit: u64,
}

/// The parameters of a full node.
#[derive(Clone, Copy, Debug, PartialEq, Eq)]
pub struct FullPlan {
    pub offchain_workers: bool,
    /// How often the address-mapping index looks for new blocks, in seconds.
    pub mapping_sync_interval_secs: u64,
    /// For how many blocks a filter stays in the pool.
    pub filter_retain_threshold: u64,
    pub fee_history_limit: u64,
    pub block_data_cache_blocks: usize,
    pub block_data_cache_statuses: usize,
    pub authoring: Option<AuthoringPlan>,
    /// Whether authority discovery runs, and then whether it publishes
    /// addresses that are not global.
    pub authority_discovery: Option<bool>,
    pub grandpa: Option<GrandpaPlan>,
    pub rpc: RpcPlan,
}

/// The parts that every kind of node is built from.
#[derive(Debug)]
pub struct PartialComponents {
    pub task_manager: TaskManager,
    /// The import pipeline, the outermost stage first.
    pub import_stages: Vec<Stage>,
    pub filter_pool: Option<FilterPool>,
    pub fee_history_cache: FeeHistoryCache,
    pub frontier_backend: DatabaseSettings,
    pub telemetry: Option<TelemetryPlan>,
    /// Whether the transaction pool serves a block author.
    pub pool_is_validator: bool,
    pub target_gas_price: u64,
}

/// A planned full node.
#[derive(Debug)]
pub struct NewFullBase {
    /// The supervisor with every task of the node.
    pub task_manager: TaskManager,
    pub import_stages: Vec<Stage>,
    pub filter_pool: Option<FilterPool>,
    pub fee_history_cache: FeeHistoryCache,
    pub frontier_backend: DatabaseSettings,
    pub telemetry: Option<TelemetryPlan>,
    pub plan: FullPlan,
}

/// The telemetry worker of a configuration: one where endpoints are configured
/// and there is at least one.
pub open spec fn telemetry_plan(endpoints: Option<usize>) -> Option<TelemetryPlan> {
    match endpoints {
        Some(n) => if n > 0 {
            Some(TelemetryPlan { endpoints: n, buffer: 16 })
        } else {
            None
        },
        None => None,
    }
}

/// `tasks`, and `worker` after them where `on` holds.
pub open spec fn and_if(tasks: Seq<Task>, on: bool, worker: Worker) -> Seq<Task> {
    if on {
        tasks.push(started(worker))
    } else {
        tasks
    }
}

/// The tasks that the common parts start.
pub open spec fn partial_tasks(config: Configuration) -> Seq<Task> {
    and_if(Seq::empty(), telemetry_plan(config.telemetry_endpoints) is Some, Worker::Telemetry)
}

/// The tasks of a full node, in the order in which they are spawned.
pub open spec fn full_tasks(config: Configuration) -> Seq<Task> {
    let authority = config.role.spec_is_authority();
    let t = partial_tasks(config);
    let t = t.push(started(Worker::MappingSync));
    let t = t.push(started(Worker::FilterPool));
    let t = t.push(started(Worker::FeeHistory));
    let t = t.push(started(Worker::SchemaCache));
    let t = and_if(t, authority, Worker::BabeProposer);
    let t = and_if(t, authority, Worker::AuthorityDiscovery);
    and_if(t, !config.disable_grandpa, Worker::GrandpaVoter)
}

/// The parameters of a full node under a configuration and a command line.
pub open spec fn full_plan(config: Configuration, cli: Cli) -> FullPlan {
    let authority = config.role.spec_is_authority();
    FullPlan {
        offchain_workers: config.offchain_worker_enabled,
        mapping_sync_interval_secs: 6,
        filter_retain_threshold: 100,
        fee_history_limit: cli.run.fee_history_limit,
        block_data_cache_blocks: 50,
        block_data_cache_statuses: 50,
        authoring: if authority {
            Some(
                AuthoringPlan {
                    force_authoring: config.force_authoring,
                    block_size_limit: 10485760,
                    target_gas_price: cli.run.target_gas_price,
                    backoff_on_finality_lag: true,
                    proposal_slot_percent: 50,
                },
            )
        } else {
            None
        },
        authority_discovery: if authority {
            Some(config.allow_non_globals_in_dht)
        } else {
            None
        },
        grandpa: if config.disable_grandpa {
            None
        } else {
            Some(
                GrandpaPlan {
                    gossip_duration_millis: 333,
                    justification_period: 512,
                    observer_enabled: false,
                    with_keystore: authority,
                },
            )
        },
        rpc: RpcPlan {
            is_authority: authority,
            enable_dev_signer: cli.run.enable_dev_signer,
            max_past_logs: cli.run.max_past_logs,
            fee_history_limit: cli.run.fee_history_limit,
        },
    }
}

/// The import pipeline of a node, the outermost stage first.
pub open spec fn pipeline() -> Seq<Stage> {
    seq![Stage::Mapping, Stage::Finality, Stage::SlotVerification]
}

/// The fee-history limit as a number of entries: the limit itself, or the most
/// that the machine can count.
pub open spec fn cache_limit(fee_history_limit: u64) -> int {
    if fee_history_limit > usize::MAX {
        usize::MAX as int
    } else {
        fee_history_limit as int
    }
}

/// The directory of the address-mapping database: `frontier/db` under the
/// chain's configuration directory.
pub fn frontier_database_dir(config: &Configuration) -> (dir: Vec<String>)
    ensures
        path_view(dir) == path_view(config.config_dir).push("frontier"@).push("db"@),
{
    let mut dir: Vec<String> = Vec::new();
    let mut i: usize = 0;
    while i < config.config_dir.len()
        invariant
            i <= config.config_dir@.len(),
            dir@.len() == i,
            forall|j: int| 0 <= j < i ==> dir@[j]@ == config.config_dir@[j]@,
        decreases config.config_dir@.len() - i,
    {
        dir.push(config.config_dir[i].clone());
        i += 1;
    }
    dir.push("frontier".to_owned());
    dir.push("db".to_owned());
    assert(path_view(dir) =~= path_view(config.config_dir).push("frontier"@).push("db"@));
    dir
}

/// The settings with which the address-mapping database is opened: RocksDB in
/// the directory of `frontier_database_dir`, without a cache.
pub fn open_frontier_backend(config: &Configuration) -> (settings: DatabaseSettings)
    ensures
        settings.source matches DatabaseSettingsSrc::RocksDb { path, cache_size } && cache_size == 0
            && path_view(path) == path_view(config.config_dir).push("frontier"@).push("db"@),
{
    DatabaseSettings {
        source: DatabaseSettingsSrc::RocksDb { path: frontier_database_dir(config), cache_size: 0 },
    }
}

fn entries_limit(fee_history_limit: u64) -> (limit: usize)
    ensures
        limit == cache_limit(fee_history_limit),
{
    if fee_history_limit > usize::MAX as u64 {
        usize::MAX
    } else {
        fee_history_limit as usize
    }
}

/// Plans the parts that every kind of node is built from: telemetry where
/// endpoints are configured, the import pipeline, the empty caches and the
/// address-mapping database.
pub fn new_partial(config: &Configuration, cli: &Cli) -> (parts: PartialComponents)
    ensures
        parts.telemetry == telemetry_plan(config.telemetry_endpoints),
        parts.task_manager.tasks() == partial_tasks(*config),
        !parts.task_manager.shutting_down(),
        parts.import_stages@ == pipeline(),
        parts.filter_pool is Some,
        parts.filter_pool->Some_0.entries().len() == 0,
        parts.fee_history_cache.wf(),
        parts.fee_history_cache.entries().len() == 0,
        parts.fee_history_cache.limit() == cache_limit(cli.run.fee_history_limit),
        parts.frontier_backend.source matches DatabaseSettingsSrc::RocksDb { path, cache_size }
            && cache_size == 0 && path_view(path) == path_view(config.config_dir).push(
            "frontier"@,
        ).push("db"@),
        parts.pool_is_validator == config.role.spec_is_authority(),
        parts.target_gas_price == cli.run.target_gas_price,
{
    let telemetry = match config.telemetry_endpoints {
        Some(n) => if n > 0 {
            Some(TelemetryPlan { endpoints: n, buffer: 16 })
        } else {
            None
        },
        None => None,
    };
    let mut task_manager = TaskManager::new();
    if telemetry.is_some() {
        task_manager.spawn(Worker::Telemetry);
    }
    let mut import_stages: Vec<Stage> = Vec::new();
    import_stages.push(Stage::Mapping);
    import_stages.push(Stage::Finality);
    import_stages.push(Stage::SlotVerification);
    assert(import_stages@ =~= pipeline());
    assert(task_manager.tasks() =~= partial_tasks(*config));
    PartialComponents {
        task_manager,
        import_stages,
        filter_pool: Some(FilterPool::new()),
        fee_history_cache: FeeHistoryCache::new(entries_limit(cli.run.fee_history_limit)),
        frontier_backend: open_frontier_backend(config),
        telemetry,
        pool_is_validator: config.role.is_authority(),
        target_gas_price: cli.run.target_gas_price,
    }
}

/// Plans a full node: the common parts, then the workers in the order in which
/// they start, each with the parameters it runs with.
pub fn new_full_base(config: Configuration, cli: &Cli) -> (base: NewFullBase)
    ensures
        base.task_manager.tasks() == full_tasks(config),
        !base.task_manager.shutting_down(),
        base.plan == full_plan(config, *cli),
        base.telemetry == telemetry_plan(config.telemetry_endpoints),
        base.import_stages@ == pipeline(),
        base.filter_pool is Some,
        base.filter_pool->Some_0.entries().len() == 0,
        base.fee_history_cache.wf(),
        base.fee_history_cache.entries().len() == 0,
        base.fee_history_cache.limit() == cache_limit(cli.run.fee_history_limit),
        base.frontier_backend.source matches DatabaseSettingsSrc::RocksDb { path, cache_size }
            && cache_size == 0 && path_view(path) == path_view(config.config_dir).push(
            "frontier"@,
        ).push("db"@),
{
    let parts = new_partial(&config, cli);
    let mut task_manager = parts.task_manager;
    let authority = config.role.is_authority();
    let enable_grandpa = !config.disable_grandpa;

    task_manager.spawn(Worker::MappingSync);
    if parts.filter_pool.is_some() {
        task_manager.spawn(Worker::FilterPool);
    }
    task_manager.spawn(Worker::FeeHistory);
    task_manager.spawn(Worker::SchemaCache);

    let authoring = if authority {
        task_manager.spawn(Worker::BabeProposer);
        Some(
            AuthoringPlan {
                force_authoring: config.force_authoring,
                block_size_limit: 10 * 1024 * 1024,
                target_gas_price: cli.run.target_gas_price,
                backoff_on_finality_lag: true,
                proposal_slot_percent: 50,
            },
        )
    } else {
        None
    };
    let authority_discovery = if authority {
        task_manager.spawn(Worker::AuthorityDiscovery);
        Some(config.allow_non_globals_in_dht)
    } else {
        None
    };
    let grandpa = if enable_grandpa {
        task_manager.spawn(Worker::GrandpaVoter);
        Some(
            GrandpaPlan {
                gossip_duration_millis: 333,
                justification_period: 512,
                observer_enabled: false,
                with_keystore: authority,
            },
        )
    } else {
        None
    };
    NewFullBase {
        task_manager,
        import_stages: parts.import_stages,
        filter_pool: parts.filter_pool,
        fee_history_cache: parts.fee_history_cache,
        frontier_backend: parts.frontier_backend,
        telemetry: parts.telemetry,
        plan: FullPlan {
            offchain_workers: config.offchain_worker_enabled,
            mapping_sync_interval_secs: 6,
            filter_retain_threshold: 100,
            fee_history_limit: cli.run.fee_history_limit,
            block_data_cache_blocks: 50,
            block_data_cache_statuses: 50,
            authoring,
            authority_discovery,
            grandpa,
            rpc: RpcPlan {
                is_authority: authority,
                enable_dev_signer: cli.run.enable_dev_signer,
                max_past_logs: cli.run.max_past_logs,
                fee_history_limit: cli.run.fee_history_limit,
            },
        },
    }
}

/// Plans a full node and hands out its supervisor.
pub fn new_full(config: Configuration, cli: &Cli) -> (task_manager: TaskManager)
    ensures
        task_manager.tasks() == full_tasks(config),
        !task_manager.shutting_down(),
{
    new_full_base(config, cli).task_manager
}

} // verus!

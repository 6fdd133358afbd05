use deeper_node::cache::FeeHistoryItem;
use deeper_node::import::Stage;
use deeper_node::service::{
    frontier_database_dir, new_full, new_full_base, new_partial, open_frontier_backend,
    AuthoringPlan, Cli, Configuration, DatabaseSettingsSrc, GrandpaPlan, Role, RpcPlan, RunCmd,
    SupervisorAction, TaskManager, TaskState, TelemetryPlan, Worker,
};

fn config(role: Role) -> Configuration {
    Configuration {
        role,
        config_dir: vec!["data".to_string(), "chains".to_string(), "dev".to_string()],
        telemetry_endpoints: Some(2),
        offchain_worker_enabled: true,
        force_authoring: false,
        disable_grandpa: false,
        allow_non_globals_in_dht: true,
    }
}

fn cli() -> Cli {
    Cli { run: RunCmd::default() }
}

fn names(manager: &TaskManager) -> Vec<&'static str> {
    (0..manager.len()).map(|i| manager.task(i).worker.name()).collect()
}

#[test]
fn run_options_have_their_defaults() {
    let run = RunCmd::default();
    assert!(!run.enable_dev_signer);
    assert_eq!(run.max_past_logs, 10000);
    assert_eq!(run.fee_history_limit, 2048);
    assert_eq!(run.target_gas_price, 1);
}

#[test]
fn database_lives_under_the_chain_directory() {
    let config = config(Role::Full);
    assert_eq!(frontier_database_dir(&config), vec!["data", "chains", "dev", "frontier", "db"]);
    let DatabaseSettingsSrc::RocksDb { path, cache_size } = open_frontier_backend(&config).source;
    assert_eq!(path, vec!["data", "chains", "dev", "frontier", "db"]);
    assert_eq!(cache_size, 0);
    let mut bare = config;
    bare.config_dir = vec![];
    assert_eq!(frontier_database_dir(&bare), vec!["frontier", "db"]);
}

#[test]
fn partial_components_are_planned() {
    let mut cli = cli();
    cli.run.fee_history_limit = 2;
    cli.run.target_gas_price = 9;
    let mut parts = new_partial(&config(Role::Authority), &cli);
    assert_eq!(parts.telemetry, Some(TelemetryPlan { endpoints: 2, buffer: 16 }));
    assert_eq!(names(&parts.task_manager), vec!["telemetry"]);
    assert_eq!(
        parts.import_stages,
        vec![Stage::Mapping, Stage::Finality, Stage::SlotVerification]
    );
    assert_eq!(parts.filter_pool.as_ref().map(|p| p.len()), Some(0));
    assert!(parts.pool_is_validator);
    assert_eq!(parts.target_gas_price, 9);
    let item = FeeHistoryItem { base_fee: 1, gas_used: 1, gas_limit: 2 };
    for number in 0..3 {
        parts.fee_history_cache.insert(number, item);
    }
    assert_eq!(parts.fee_history_cache.len(), 2);
    assert!(!new_partial(&config(Role::Full), &cli).pool_is_validator);
}

#[test]
fn telemetry_needs_an_endpoint() {
    let mut quiet = config(Role::Full);
    quiet.telemetry_endpoints = Some(0);
    let parts = new_partial(&quiet, &cli());
    assert_eq!(parts.telemetry, None);
    assert_eq!(parts.task_manager.len(), 0);
    quiet.telemetry_endpoints = None;
    let parts = new_partial(&quiet, &cli());
    assert_eq!(parts.telemetry, None);
    assert_eq!(parts.task_manager.len(), 0);
}

#[test]
fn authority_starts_every_worker() {
    let base = new_full_base(config(Role::Authority), &cli());
    assert_eq!(
        names(&base.task_manager),
        vec![
            "telemetry",
            "frontier-mapping-sync-worker",
            "frontier-filter-pool",
            "frontier-fee-history",
            "frontier-schema-cache-task",
            "babe-proposer",
            "authority-discovery-worker",
            "grandpa-voter",
        ]
    );
    let plan = base.plan;
    assert!(plan.offchain_workers);
    assert_eq!(plan.mapping_sync_interval_secs, 6);
    assert_eq!(plan.filter_retain_threshold, 100);
    assert_eq!(plan.fee_history_limit, 2048);
    assert_eq!(plan.block_data_cache_blocks, 50);
    assert_eq!(plan.block_data_cache_statuses, 50);
    assert_eq!(
        plan.authoring,
        Some(AuthoringPlan {
            force_authoring: false,
            block_size_limit: 10 * 1024 * 1024,
            target_gas_price: 1,
            backoff_on_finality_lag: true,
            proposal_slot_percent: 50,
        })
    );
    assert_eq!(plan.authority_discovery, Some(true));
    assert_eq!(
        plan.grandpa,
        Some(GrandpaPlan {
            gossip_duration_millis: 333,
            justification_period: 512,
            observer_enabled: false,
            with_keystore: true,
        })
    );
    assert_eq!(
        plan.rpc,
        RpcPlan {
            is_authority: true,
            enable_dev_signer: false,
            max_past_logs: 10000,
            fee_history_limit: 2048,
        }
    );
    for i in 0..base.task_manager.len() {
        assert_eq!(base.task_manager.task(i).state, TaskState::Running);
    }
}

#[test]
fn full_node_neither_authors_nor_discovers() {
    let mut config = config(Role::Full);
    config.telemetry_endpoints = None;
    config.disable_grandpa = true;
    config.offchain_worker_enabled = false;
    let base = new_full_base(config, &cli());
    assert_eq!(
        names(&base.task_manager),
        vec![
            "frontier-mapping-sync-worker",
            "frontier-filter-pool",
            "frontier-fee-history",
            "frontier-schema-cache-task",
        ]
    );
    assert_eq!(base.plan.authoring, None);
    assert_eq!(base.plan.authority_discovery, None);
    assert_eq!(base.plan.grandpa, None);
    assert!(!base.plan.offchain_workers);
    assert!(!base.plan.rpc.is_authority);
    assert_eq!(base.telemetry, None);
}

#[test]
fn full_node_votes_without_keys() {
    let base = new_full_base(config(Role::Light), &cli());
    assert_eq!(base.plan.grandpa.map(|g| g.with_keystore), Some(false));
    let manager = new_full(config(Role::Light), &cli());
    assert_eq!(names(&manager).last(), Some(&"grandpa-voter"));
    assert_eq!(manager.len(), 6);
}

#[test]
fn workers_have_their_names_groups_and_flags() {
    let all = [
        (Worker::Telemetry, "telemetry", None, false, false),
        (Worker::MappingSync, "frontier-mapping-sync-worker", Some("frontier-mapping-sync"), false, false),
        (Worker::FilterPool, "frontier-filter-pool", Some("frontier-filter-pool"), true, false),
        (Worker::FeeHistory, "frontier-fee-history", Some("frontier-fee-history"), true, false),
        (Worker::SchemaCache, "frontier-schema-cache-task", Some("frontier-schema-cache"), true, false),
        (Worker::BabeProposer, "babe-proposer", Some("block-authoring"), true, true),
        (Worker::AuthorityDiscovery, "authority-discovery-worker", Some("networking"), false, false),
        (Worker::GrandpaVoter, "grandpa-voter", None, true, true),
    ];
    for (worker, name, group, essential, blocking) in all {
        assert_eq!(worker.name(), name);
        assert_eq!(worker.group(), group);
        assert_eq!(worker.essential(), essential);
        assert_eq!(worker.blocking(), blocking);
    }
}

#[test]
fn failure_of_an_essential_task_shuts_down() {
    let mut manager = new_full(config(Role::Authority), &cli());
    // the finality voter fails
    assert_eq!(manager.on_exit(7, true), SupervisorAction::Shutdown);
    assert!(manager.is_shutting_down());
    assert_eq!(manager.task(7).state, TaskState::Failed);
    for i in 0..7 {
        assert_eq!(manager.task(i).state, TaskState::Cancelled);
    }
    // a task that has ended says nothing more
    assert_eq!(manager.on_exit(7, true), SupervisorAction::Nothing);
    assert_eq!(manager.on_exit(0, true), SupervisorAction::Nothing);
    assert_eq!(manager.task(0).state, TaskState::Cancelled);
    manager.spawn(Worker::Telemetry);
    assert_eq!(manager.task(8).state, TaskState::Cancelled);
}

#[test]
fn failure_of_a_best_effort_task_is_logged() {
    let mut manager = new_full(config(Role::Authority), &cli());
    // address indexing fails
    assert_eq!(manager.on_exit(1, true), SupervisorAction::LogFailure);
    assert!(!manager.is_shutting_down());
    assert_eq!(manager.task(1).state, TaskState::Failed);
    for i in [0usize, 2, 3, 4, 5, 6, 7] {
        assert_eq!(manager.task(i).state, TaskState::Running);
    }
    // it is not started again
    assert_eq!(manager.on_exit(1, false), SupervisorAction::Nothing);
    assert_eq!(manager.task(1).state, TaskState::Failed);
    assert_eq!(manager.len(), 8);
}

#[test]
fn task_that_ends_without_failure_is_finished() {
    let mut manager = TaskManager::new();
    manager.spawn(Worker::GrandpaVoter);
    manager.spawn(Worker::Telemetry);
    assert_eq!(manager.on_exit(0, false), SupervisorAction::Nothing);
    assert_eq!(manager.task(0).state, TaskState::Finished);
    assert_eq!(manager.task(1).state, TaskState::Running);
    assert!(!manager.is_shutting_down());
    assert_eq!(manager.on_exit(5, true), SupervisorAction::Nothing);
    manager.shutdown();
    assert!(manager.is_shutting_down());
    assert_eq!(manager.task(0).state, TaskState::Finished);
    assert_eq!(manager.task(1).state, TaskState::Cancelled);
}

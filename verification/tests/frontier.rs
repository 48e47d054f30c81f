use std::str::FromStr;
use storage_chain::frontier_service::{
    db_config_dir, spawn_frontier_tasks, BasePath, EthArgs, FrontierTask, RpcRequesters,
    SyncStrategy, TracingApi,
};
use storage_chain::rpc::{create_full, DenyUnsafe, FullDeps, RpcModule, TracingConfig};

fn args(tracing_api: Vec<TracingApi>) -> EthArgs {
    EthArgs {
        tracing_api,
        tracing_max_permits: 10,
        tracing_max_count: 500,
        tracing_cache_duration: 300,
        tracing_raw_max_memory_usage: 20000000,
        eth_log_block_cache: 300000000,
        eth_statuses_cache: 300000001,
        max_past_logs: 10000,
        fee_history_limit: 2048,
    }
}

#[test]
fn tracing_api_is_read_by_name() {
    assert_eq!(TracingApi::from_str("debug"), Ok(TracingApi::Debug));
    assert_eq!(TracingApi::from_str("trace"), Ok(TracingApi::Trace));
}

#[test]
fn unknown_tracing_api_is_complained_of() {
    for name in ["", "Debug", "debug ", "txpool"] {
        assert_eq!(
            TracingApi::from_str(name),
            Err(format!("`{}` is not recognized as a supported Ethereum Api", name))
        );
    }
}

#[test]
fn every_option_reaches_the_configuration() {
    let config = args(vec![TracingApi::Trace, TracingApi::Trace]).build_eth_rpc_config();
    assert_eq!(config.tracing_api, vec![TracingApi::Trace, TracingApi::Trace]);
    assert_eq!(config.tracing_max_permits, 10);
    assert_eq!(config.tracing_max_count, 500);
    assert_eq!(config.tracing_cache_duration, 300);
    assert_eq!(config.tracing_raw_max_memory_usage, 20000000);
    assert_eq!(config.eth_log_block_cache, 300000000);
    assert_eq!(config.eth_statuses_cache, 300000001);
    assert_eq!(config.max_past_logs, 10000);
    assert_eq!(config.fee_history_limit, 2048);
}

#[test]
fn tasks_with_everything() {
    let config = args(vec![TracingApi::Debug, TracingApi::Trace]).build_eth_rpc_config();
    let plan = spawn_frontier_tasks(true, 2048, &config);
    assert_eq!(
        plan.tasks,
        vec![
            FrontierTask::MappingSync {
                interval_secs: 6,
                retry_times: 3,
                sync_from: 0,
                strategy: SyncStrategy::Parachain,
                essential: true,
            },
            FrontierTask::FilterPool { retain_threshold: 100, essential: true },
            FrontierTask::FeeHistory { cache_limit: 2048, essential: true },
            FrontierTask::TraceFilterCache { cache_duration_secs: 300, essential: true },
            FrontierTask::DebugHandler { raw_max_memory_usage: 20000000, essential: true },
        ]
    );
    assert_eq!(plan.permit_pool, Some(10));
    assert_eq!(plan.requesters.trace, Some(3));
    assert_eq!(plan.requesters.debug, Some(4));
    let names: Vec<&str> = plan.tasks.iter().map(|task| task.name()).collect();
    assert_eq!(
        names,
        vec![
            "frontier-mapping-sync-worker",
            "frontier-filter-pool",
            "frontier-fee-history",
            "trace-filter-cache",
            "tracing_api-debug",
        ]
    );
    let groups: Vec<&str> = plan.tasks.iter().map(|task| task.group()).collect();
    assert!(plan.tasks.iter().all(|task| task.essential()));
    assert_eq!(groups, vec!["frontier", "frontier", "frontier", "eth-tracing", "eth-tracing"]);
}

#[test]
fn tasks_without_filters_and_tracing() {
    let plan = spawn_frontier_tasks(false, 7, &args(vec![]).build_eth_rpc_config());
    assert_eq!(
        plan.tasks,
        vec![
            FrontierTask::MappingSync {
                interval_secs: 6,
                retry_times: 3,
                sync_from: 0,
                strategy: SyncStrategy::Parachain,
                essential: true,
            },
            FrontierTask::FeeHistory { cache_limit: 7, essential: true },
        ]
    );
    assert_eq!(plan.permit_pool, None);
    assert_eq!(plan.requesters.trace, None);
    assert_eq!(plan.requesters.debug, None);
}

#[test]
fn tasks_with_one_api_listed_twice() {
    let config = args(vec![TracingApi::Debug, TracingApi::Debug]).build_eth_rpc_config();
    let plan = spawn_frontier_tasks(false, 7, &config);
    assert_eq!(plan.tasks.len(), 3);
    assert_eq!(
        plan.tasks[2],
        FrontierTask::DebugHandler { raw_max_memory_usage: 20000000, essential: true }
    );
    assert_eq!(plan.permit_pool, Some(10));
    assert_eq!(plan.requesters.trace, None);
    assert_eq!(plan.requesters.debug, Some(2));
}

#[test]
fn database_directory_prefers_the_configured_base() {
    let configured = db_config_dir(Some("/data"), "dev".to_string());
    assert!(matches!(configured.base, BasePath::Configured("/data")));
    assert_eq!(configured.chain_id, "dev");
    let default = db_config_dir::<&str>(None, "local_testnet".to_string());
    assert!(matches!(default.base, BasePath::Application("storage-chain")));
    assert_eq!(default.chain_id, "local_testnet");
}

fn deps(filter_pool: bool) -> FullDeps {
    FullDeps {
        deny_unsafe: DenyUnsafe::Yes,
        is_authority: true,
        filter_pool,
        max_past_logs: 9,
        fee_history_cache_limit: 8,
    }
}

#[test]
fn modules_with_everything() {
    let modules = create_full(
        deps(true),
        Some(TracingConfig {
            tracing_requesters: RpcRequesters { debug: Some('d'), trace: Some("t") },
            trace_filter_max_count: 500,
        }),
    );
    assert_eq!(modules.len(), 9);
    assert!(matches!(modules[0], RpcModule::System { deny_unsafe: DenyUnsafe::Yes }));
    assert!(matches!(modules[1], RpcModule::TransactionPayment));
    assert!(matches!(modules[2], RpcModule::Net { peer_count_as_hex: true }));
    assert!(matches!(
        modules[3],
        RpcModule::Eth {
            transaction_converter: false,
            signers: 0,
            is_authority: true,
            fee_history_cache_limit: 8,
            execute_gas_limit_multiplier: 10
        }
    ));
    assert!(matches!(
        modules[4],
        RpcModule::EthFilter { max_stored_filters: 500, max_past_logs: 9 }
    ));
    assert!(matches!(modules[5], RpcModule::EthPubSub));
    assert!(matches!(modules[6], RpcModule::Web3));
    assert!(matches!(modules[7], RpcModule::Trace { requester: "t", max_count: 500 }));
    assert!(matches!(modules[8], RpcModule::Debug { requester: 'd' }));
}

#[test]
fn modules_without_filters_and_requesters() {
    let modules = create_full::<char, char>(
        deps(false),
        Some(TracingConfig {
            tracing_requesters: RpcRequesters { debug: None, trace: None },
            trace_filter_max_count: 500,
        }),
    );
    assert_eq!(modules.len(), 6);
    assert!(matches!(modules[4], RpcModule::EthPubSub));
    assert!(matches!(modules[5], RpcModule::Web3));
    assert_eq!(create_full::<char, char>(deps(false), None).len(), 6);
}

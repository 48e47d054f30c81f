use storage_chain::frontier_service::{
    BasePath, ConfigDir, EthArgs, EthRpcConfig, RpcRequesters, TracingApi,
};
use storage_chain::rpc::{DenyUnsafe, RpcModule};
use storage_chain::service::{
    build_consensus, hook_up_remote_keystore, new_partial, parachain_build_import_queue,
    rpc_extensions, start_node_impl, start_parachain_node, HardwareReport, NodeConfig, NodeStep,
    PartialStep, ServiceError, SlotProportion,
};

fn config() -> NodeConfig {
    NodeConfig {
        base_path: Some("/data".to_string()),
        chain_id: "dev".to_string(),
        keystore_remote: None,
        telemetry_endpoints: Some(vec![("wss://telemetry".to_string(), 0)]),
        is_authority: true,
        offchain_worker: true,
        force_authoring: true,
    }
}

fn eth_config(tracing_api: Vec<TracingApi>) -> EthRpcConfig {
    EthArgs {
        tracing_api,
        tracing_max_permits: 10,
        tracing_max_count: 500,
        tracing_cache_duration: 300,
        tracing_raw_max_memory_usage: 20000000,
        eth_log_block_cache: 11,
        eth_statuses_cache: 13,
        max_past_logs: 7,
        fee_history_limit: 9,
    }
    .build_eth_rpc_config()
}

#[test]
fn remote_keystore_is_refused() {
    let refused = NodeConfig { keystore_remote: Some("http://keys".to_string()), ..config() };
    let ServiceError::Other(reason) = new_partial(&refused).unwrap_err();
    assert_eq!(reason, "Remote Keystores are not supported.");
    let ServiceError::Other(reason) =
        start_parachain_node(&refused, 2000, None, &eth_config(vec![])).unwrap_err();
    assert_eq!(reason, "Remote Keystores are not supported.");
}

#[test]
fn remote_keystore_cannot_be_hooked_up() {
    let ServiceError::Other(reason) =
        hook_up_remote_keystore(&Some("http://keys".to_string())).unwrap_err();
    assert_eq!(
        reason,
        "Error hooking up remote keystore for http://keys: Remote Keystore not supported."
    );
    assert!(hook_up_remote_keystore(&None).is_ok());
}

#[test]
fn components_with_telemetry() {
    assert_eq!(
        new_partial(&config()).unwrap(),
        vec![
            PartialStep::CreateTelemetry { buffer: 16 },
            PartialStep::CreateExecutor,
            PartialStep::BuildFullParts { telemetry: true },
            PartialStep::SpawnTelemetry { group: None, essential: false },
            PartialStep::CreateTransactionPool { is_authority: true },
            PartialStep::CreateBlockImport,
            PartialStep::BuildImportQueue { telemetry: true },
            PartialStep::OpenFrontierBackend {
                dir: ConfigDir {
                    base: BasePath::Configured("/data".to_string()),
                    chain_id: "dev".to_string(),
                }
            },
            PartialStep::CreateFilterPool,
            PartialStep::CreateFeeHistoryCache { limit: 2048 },
            PartialStep::SelectLongestChain,
        ]
    );
}

#[test]
fn empty_list_of_endpoints_is_no_telemetry() {
    let expected = vec![
        PartialStep::CreateExecutor,
        PartialStep::BuildFullParts { telemetry: false },
        PartialStep::CreateTransactionPool { is_authority: true },
        PartialStep::CreateBlockImport,
        PartialStep::BuildImportQueue { telemetry: false },
        PartialStep::OpenFrontierBackend {
            dir: ConfigDir {
                base: BasePath::Application("storage-chain"),
                chain_id: "local_testnet".to_string(),
            },
        },
        PartialStep::CreateFilterPool,
        PartialStep::CreateFeeHistoryCache { limit: 2048 },
        PartialStep::SelectLongestChain,
    ];
    let none = NodeConfig {
        base_path: None,
        chain_id: "local_testnet".to_string(),
        telemetry_endpoints: None,
        ..config()
    };
    let empty = NodeConfig { telemetry_endpoints: Some(vec![]), ..none.clone() };
    assert_eq!(new_partial(&empty).unwrap(), expected);
    assert_eq!(new_partial(&none).unwrap(), expected);
}

#[test]
fn collator_with_weak_hardware() {
    let report = Some(HardwareReport { meets_requirements: false });
    let plan = start_parachain_node(&config(), 2000, report, &eth_config(vec![])).unwrap();
    assert_eq!(plan.partial, new_partial(&config()).unwrap());
    assert_eq!(
        plan.steps,
        vec![
            NodeStep::PrepareConfig,
            NodeStep::BuildRelayChainInterface,
            NodeStep::CreateBlockAnnounceValidator { para_id: 2000 },
            NodeStep::HookUpRemoteKeystore,
            NodeStep::BuildNetwork { warp_sync: false },
            NodeStep::BuildOffchainWorkers,
            NodeStep::CreateBlockDataCache { blocks: 11, statuses: 13 },
            NodeStep::UseEthereumSubscriptionIds,
            NodeStep::SpawnFrontierTasks { fee_history_cache_limit: 9 },
            NodeStep::SpawnTasks { is_authority: true },
            NodeStep::PrintHardwareReport,
            NodeStep::WarnAboutHardware,
            NodeStep::SpawnHardwareTelemetry { group: None, essential: false },
            NodeStep::BuildConsensus { force_authoring: true, para_id: 2000 },
            NodeStep::StartCollator { para_id: 2000, relay_chain_slot_secs: 6 },
            NodeStep::StartNetwork,
        ]
    );
}

#[test]
fn full_node_is_not_warned() {
    let node = NodeConfig {
        is_authority: false,
        offchain_worker: false,
        telemetry_endpoints: None,
        ..config()
    };
    let report = Some(HardwareReport { meets_requirements: false });
    let steps = start_parachain_node(&node, 7, report, &eth_config(vec![])).unwrap().steps;
    assert_eq!(
        steps[5..],
        [
            NodeStep::CreateBlockDataCache { blocks: 11, statuses: 13 },
            NodeStep::UseEthereumSubscriptionIds,
            NodeStep::SpawnFrontierTasks { fee_history_cache_limit: 9 },
            NodeStep::SpawnTasks { is_authority: false },
            NodeStep::PrintHardwareReport,
            NodeStep::StartFullNode { para_id: 7, relay_chain_slot_secs: 6 },
            NodeStep::StartNetwork,
        ]
    );
}

#[test]
fn import_queue_counts_slots() {
    let queue = parachain_build_import_queue(12_000);
    assert_eq!(queue.inherents(0), (0, 0));
    assert_eq!(queue.inherents(11_999), (0, 11_999));
    assert_eq!(queue.inherents(1_700_000_000_000), (141_666_666, 1_700_000_000_000));
}

#[test]
fn consensus_settings() {
    let consensus = build_consensus(12_000, true, 2000);
    assert_eq!(consensus.para_id, 2000);
    assert!(consensus.force_authoring);
    assert!(!consensus.backoff_authoring_blocks);
    let usual = consensus.block_proposal_slot_portion;
    let most = consensus.max_block_proposal_slot_portion.unwrap();
    assert_eq!(usual, SlotProportion { numerator: 1, denominator: 24 });
    assert_eq!(12_000 * usual.numerator / usual.denominator, 500);
    assert_eq!(12_000 * most.numerator / most.denominator, 750);
}

#[test]
fn authoring_needs_the_parachain_inherent() {
    let consensus = build_consensus(6_000, false, 2000);
    assert_eq!(consensus.inherents(60_001, Some('i')), Ok((10, 60_001, 'i')));
    assert_eq!(
        consensus.inherents::<char>(60_001, None),
        Err("Failed to create parachain inherent".to_string())
    );
}

#[test]
fn rpc_extensions_follow_the_tracing_apis() {
    let config = eth_config(vec![TracingApi::Trace]);
    let requesters = RpcRequesters::<char, char> { debug: None, trace: Some('t') };
    let modules = rpc_extensions(true, DenyUnsafe::No, &config, requesters);
    assert_eq!(modules.len(), 8);
    assert!(matches!(modules[0], RpcModule::System { deny_unsafe: DenyUnsafe::No }));
    assert!(matches!(
        modules[4],
        RpcModule::EthFilter { max_stored_filters: 500, max_past_logs: 7 }
    ));
    assert!(matches!(modules[7], RpcModule::Trace { requester: 't', max_count: 500 }));
}

#[test]
fn requesters_are_ignored_without_tracing_apis() {
    let requesters = RpcRequesters { debug: Some('d'), trace: Some('t') };
    let modules = rpc_extensions(false, DenyUnsafe::Yes, &eth_config(vec![]), requesters);
    assert_eq!(modules.len(), 7);
    assert!(matches!(modules[6], RpcModule::Web3));
}

#[test]
fn fee_history_limit_is_the_configured_one() {
    let config = eth_config(vec![]);
    let requesters = RpcRequesters::<char, char> { debug: None, trace: None };
    let modules = rpc_extensions(false, DenyUnsafe::Yes, &config, requesters);
    assert!(matches!(modules[3], RpcModule::Eth { fee_history_cache_limit: 9, .. }));
}

#[test]
fn builder_of_rpc_methods_makes_no_difference() {
    let eth = eth_config(vec![TracingApi::Debug]);
    let expected = start_parachain_node(&config(), 2000, None, &eth).unwrap();
    let never_called = || -> u8 { panic!("the builder is not called") };
    for plan in [
        start_node_impl(&config(), 2000, (), None, &eth).unwrap(),
        start_node_impl(&config(), 2000, never_called, None, &eth).unwrap(),
    ] {
        assert_eq!(plan.partial, expected.partial);
        assert_eq!(plan.steps, expected.steps);
    }
    let refused = NodeConfig { keystore_remote: Some("http://keys".to_string()), ..config() };
    let ServiceError::Other(reason) =
        start_node_impl(&refused, 2000, never_called, None, &eth).unwrap_err();
    assert_eq!(reason, "Remote Keystores are not supported.");
}

#[test]
fn telemetry_tasks_have_names() {
    let report = Some(HardwareReport { meets_requirements: true });
    let plan = start_parachain_node(&config(), 2000, report, &eth_config(vec![])).unwrap();
    let partial: Vec<&str> = plan.partial.iter().filter_map(|step| step.task_name()).collect();
    let steps: Vec<&str> = plan.steps.iter().filter_map(|step| step.task_name()).collect();
    assert_eq!(partial, vec!["telemetry"]);
    assert_eq!(steps, vec!["telemetry_hwbench"]);
}

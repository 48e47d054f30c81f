//! How a node comes up: the plans for its components and for its start.
use crate::frontier_service::{
    config_dir_of, db_config_dir, BasePath, ConfigDir, EthRpcConfig, RpcRequesters, TracingApi,
};
use crate::rpc::{create_full, rpc_modules, DenyUnsafe, FullDeps, RpcModule, TracingConfig};
use vstd::prelude::*;

verus! {

/// The configuration of a node, as far as its plans read it.
#[derive(Clone, Debug)]
pub struct NodeConfig {
    /// The directory in which the node keeps its data.
    pub base_path: Option<String>,
    /// The id of the chain.
    pub chain_id: String,
    /// The address of a remote keystore.
    pub keystore_remote: Option<String>,
    /// The telemetry servers, each with the verbosity that it is sent.
    pub telemetry_endpoints: Option<Vec<(String, u8)>>,
    /// Whether the node is an authority.
    pub is_authority: bool,
    /// Whether offchain workers run.
    pub offchain_worker: bool,
    /// Whether to author blocks even when offline.
    pub force_authoring: bool,
}

/// Why a node does not come up.
#[derive(Clone, Debug)]
pub enum ServiceError {
    /// For a reason that is told in words.
    Other(String),
}

impl NodeConfig {
    /// Whether the node reports to at least one telemetry server.
    pub open spec fn reports_telemetry(&self) -> bool {
        self.telemetry_endpoints matches Some(endpoints) && endpoints@.len() > 0
    }

    /// Whether the node reports to at least one telemetry server.
    pub fn has_telemetry(&self) -> (r: bool)
        ensures
            r == self.reports_telemetry(),
    {
        match &self.telemetry_endpoints {
            Some(endpoints) => endpoints.len() > 0,
            None => false,
        }
    }
}

/// The number of telemetry messages that wait to be sent before new ones are dropped.
pub const TELEMETRY_BUFFER: usize = 16;

/// The size of the fee history cache that the components of a node are built for. A node that
/// starts hands on the size that is configured.
pub const FEE_HISTORY_LIMIT: u64 = 2048;

/// A step in building the components of a node. A step that fails ends the building with its
/// error.
#[derive(Clone, Debug, PartialEq, Eq)]
pub enum PartialStep {
    /// Create the telemetry worker and register the configured endpoints with it.
    CreateTelemetry { buffer: usize },
    /// Create the executor of the runtime.
    CreateExecutor,
    /// Build the client, the backend, the keystore and the task manager.
    BuildFullParts { telemetry: bool },
    /// Spawn the telemetry worker, in a group of tasks or in none. If an essential task ends, so
    /// does the node.
    SpawnTelemetry { group: Option<&'static str>, essential: bool },
    /// Create the transaction pool.
    CreateTransactionPool { is_authority: bool },
    /// Create the block import of a parachain.
    CreateBlockImport,
    /// Build the import queue.
    BuildImportQueue { telemetry: bool },
    /// Open the database of the Ethereum compatibility layer.
    OpenFrontierBackend { dir: ConfigDir<String> },
    /// Create an empty pool of filters.
    CreateFilterPool,
    /// Create an empty fee history cache.
    CreateFeeHistoryCache { limit: u64 },
    /// Choose the longest chain as the best one.
    SelectLongestChain,
}

impl PartialStep {
    /// The name under which the task of this step is spawned, if the step spawns one by name.
    pub open spec fn task_name_of(self) -> Option<Seq<char>> {
        match self {
            PartialStep::SpawnTelemetry { .. } => Some("telemetry"@),
            _ => None,
        }
    }

    /// The name under which the task of this step is spawned, if the step spawns one by name.
    pub fn task_name(&self) -> (r: Option<&'static str>)
        ensures
            match self.task_name_of() {
                Some(name) => r matches Some(given) && given@ == name,
                None => r is None,
            },
    {
        match self {
            PartialStep::SpawnTelemetry { .. } => Some("telemetry"),
            _ => None,
        }
    }
}

/// One step, if a condition holds.
pub open spec fn step_if<S>(condition: bool, step: S) -> Seq<S> {
    if condition {
        seq![step]
    } else {
        seq![]
    }
}

/// The steps by which the components of a node are built.
pub open spec fn partial_steps(config: &NodeConfig) -> Seq<PartialStep> {
    let telemetry = config.reports_telemetry();
    step_if(telemetry, PartialStep::CreateTelemetry { buffer: TELEMETRY_BUFFER }) + seq![
        PartialStep::CreateExecutor,
        PartialStep::BuildFullParts { telemetry },
    ] + step_if(telemetry, PartialStep::SpawnTelemetry { group: None, essential: false }) + seq![
        PartialStep::CreateTransactionPool { is_authority: config.is_authority },
        PartialStep::CreateBlockImport,
        PartialStep::BuildImportQueue { telemetry },
        PartialStep::OpenFrontierBackend {
            dir: config_dir_of(config.base_path, config.chain_id),
        },
        PartialStep::CreateFilterPool,
        PartialStep::CreateFeeHistoryCache { limit: FEE_HISTORY_LIMIT },
        PartialStep::SelectLongestChain,
    ]
}

/// What a node with a remote keystore is answered.
pub open spec fn remote_keystore_refusal() -> Seq<char> {
    "Remote Keystores are not supported."@
}

/// The steps by which the components of a node are built. A configuration with a remote
/// keystore is refused before any of them.
pub fn new_partial(config: &NodeConfig) -> (r: Result<Vec<PartialStep>, ServiceError>)
    ensures
        match config.keystore_remote {
            Some(_) => r matches Err(ServiceError::Other(reason)) && reason@
                == remote_keystore_refusal(),
            None => r matches Ok(steps) && steps@ == partial_steps(config),
        },
{
    if config.keystore_remote.is_some() {
        return Err(ServiceError::Other("Remote Keystores are not supported.".to_owned()));
    }
    let telemetry = config.has_telemetry();
    let mut steps: Vec<PartialStep> = Vec::new();
    if telemetry {
        steps.push(PartialStep::CreateTelemetry { buffer: TELEMETRY_BUFFER });
    }
    steps.push(PartialStep::CreateExecutor);
    steps.push(PartialStep::BuildFullParts { telemetry });
    if telemetry {
        steps.push(PartialStep::SpawnTelemetry { group: None, essential: false });
    }
    steps.push(PartialStep::CreateTransactionPool { is_authority: config.is_authority });
    steps.push(PartialStep::CreateBlockImport);
    steps.push(PartialStep::BuildImportQueue { telemetry });
    let base_path = match &config.base_path {
        Some(path) => Some(path.clone()),
        None => None,
    };
    steps.push(
        PartialStep::OpenFrontierBackend { dir: db_config_dir(base_path, config.chain_id.clone()) },
    );
    steps.push(PartialStep::CreateFilterPool);
    steps.push(PartialStep::CreateFeeHistoryCache { limit: FEE_HISTORY_LIMIT });
    steps.push(PartialStep::SelectLongestChain);
    assert(steps@ =~= partial_steps(config));
    Ok(steps)
}

/// What is known of a remote keystore: that there is no support for it.
fn remote_keystore(_url: &String) -> (r: Result<(), &'static str>)
    ensures
        r matches Err(reason) && reason@ == "Remote Keystore not supported."@,
{
    Err("Remote Keystore not supported.")
}

/// What is said when the remote keystore at an address cannot be used.
pub open spec fn keystore_complaint(url: Seq<char>) -> Seq<char> {
    "Error hooking up remote keystore for "@ + url + ": "@ + "Remote Keystore not supported."@
}

/// Hooks up the configured remote keystore, if any. This fails for every address.
pub fn hook_up_remote_keystore(keystore_remote: &Option<String>) -> (r: Result<(), ServiceError>)
    ensures
        match *keystore_remote {
            Some(url) => r matches Err(ServiceError::Other(reason)) && reason@
                == keystore_complaint(url@),
            None => r is Ok,
        },
{
    match keystore_remote {
        Some(url) => match remote_keystore(url) {
            Ok(()) => Ok(()),
            Err(reason) => {
                let mut complaint = "Error hooking up remote keystore for ".to_owned();
                complaint.append(url.as_str());
                complaint.append(": ");
                complaint.append(reason);
                Err(ServiceError::Other(complaint))
            },
        },
        None => Ok(()),
    }
}

/// `sp_consensus_aura::inherents::InherentDataProvider::from_timestamp_and_slot_duration`: the
/// number of whole slots that fit into the time since the epoch.
#[verifier::external_body]
fn aura_slot(timestamp: u64, slot_duration: u64) -> (r: u64)
    requires
        slot_duration > 0,
    ensures
        r == timestamp / slot_duration,
{
    **sp_consensus_aura::inherents::InherentDataProvider::from_timestamp_and_slot_duration(
        timestamp.into(),
        sp_consensus_aura::SlotDuration::from_millis(slot_duration),
    )
}

/// The import queue of a parachain, for slots of a given number of milliseconds.
#[derive(Clone, Copy, Debug, PartialEq, Eq)]
pub struct ImportQueue {
    pub slot_duration: u64,
}

/// The import queue for the slot duration of the chain, in milliseconds.
pub fn parachain_build_import_queue(slot_duration: u64) -> (r: ImportQueue)
    ensures
        r == (ImportQueue { slot_duration }),
{
    ImportQueue { slot_duration }
}

impl ImportQueue {
    /// The inherent data against which a block is checked that is imported at a time given in
    /// milliseconds since the epoch: the slot, and the time itself.
    pub fn inherents(&self, timestamp: u64) -> (r: (u64, u64))
        requires
            self.slot_duration > 0,
        ensures
            r == ((timestamp / self.slot_duration) as u64, timestamp),
    {
        (aura_slot(timestamp, self.slot_duration), timestamp)
    }
}

/// A fraction of a slot.
#[derive(Clone, Copy, Debug, PartialEq, Eq)]
pub struct SlotProportion {
    pub numerator: u32,
    pub denominator: u32,
}

impl SlotProportion {
    /// The whole part of this fraction of a duration.
    pub open spec fn of(self, duration: int) -> int {
        duration * self.numerator / self.denominator as int
    }
}

/// How a collator takes part in consensus.
#[derive(Clone, Copy, Debug, PartialEq, Eq)]
pub struct Consensus {
    /// The parachain.
    pub para_id: u32,
    /// The duration of a slot in milliseconds.
    pub slot_duration: u64,
    /// Whether to author blocks even when offline.
    pub force_authoring: bool,
    /// Whether to author less when finality lags.
    pub backoff_authoring_blocks: bool,
    /// The part of a slot in which to propose a block.
    pub block_proposal_slot_portion: SlotProportion,
    /// The part of a slot in which to propose a block after slots were skipped.
    pub max_block_proposal_slot_portion: Option<SlotProportion>,
}

/// What is said when there is no parachain inherent.
pub open spec fn missing_inherent_complaint() -> Seq<char> {
    "Failed to create parachain inherent"@
}

/// The settings with which a collator takes part in consensus.
pub open spec fn consensus_of(slot_duration: u64, force_authoring: bool, para_id: u32) -> Consensus {
    Consensus {
        para_id,
        slot_duration,
        force_authoring,
        backoff_authoring_blocks: false,
        block_proposal_slot_portion: SlotProportion { numerator: 1, denominator: 24 },
        max_block_proposal_slot_portion: Some(SlotProportion { numerator: 1, denominator: 16 }),
    }
}

/// The consensus of a collator: around a twenty-fourth of a slot for proposing, and at most a
/// sixteenth if slots were skipped.
pub fn build_consensus(slot_duration: u64, force_authoring: bool, para_id: u32) -> (r: Consensus)
    ensures
        r == consensus_of(slot_duration, force_authoring, para_id),
{
    Consensus {
        para_id,
        slot_duration,
        force_authoring,
        backoff_authoring_blocks: false,
        block_proposal_slot_portion: SlotProportion { numerator: 1, denominator: 24 },
        max_block_proposal_slot_portion: Some(SlotProportion { numerator: 1, denominator: 16 }),
    }
}

impl Consensus {
    /// The inherent data of a block that is authored at a time given in milliseconds since the
    /// epoch: the slot, the time, and the inherent of the parachain, without which no block can
    /// be authored.
    pub fn inherents<I>(&self, timestamp: u64, parachain_inherent: Option<I>) -> (r: Result<
        (u64, u64, I),
        String,
    >)
        requires
            self.slot_duration > 0,
        ensures
            match parachain_inherent {
                Some(inherent) => r == Ok::<(u64, u64, I), String>(
                    ((timestamp / self.slot_duration) as u64, timestamp, inherent),
                ),
                None => r matches Err(reason) && reason@ == missing_inherent_complaint(),
            },
    {
        let slot = aura_slot(timestamp, self.slot_duration);
        match parachain_inherent {
            Some(inherent) => Ok((slot, timestamp, inherent)),
            None => Err("Failed to create parachain inherent".to_owned()),
        }
    }
}

/// The duration of a slot of the relay chain, in seconds.
pub const RELAY_CHAIN_SLOT_SECS: u64 = 6;

/// The configuration of the tracing modules: none, unless a tracing API is offered.
pub open spec fn tracing_config_for<D, T>(
    eth_rpc_config: &EthRpcConfig,
    requesters: RpcRequesters<D, T>,
) -> Option<TracingConfig<D, T>> {
    if eth_rpc_config.offers_tracing() {
        Some(
            TracingConfig {
                tracing_requesters: requesters,
                trace_filter_max_count: eth_rpc_config.tracing_max_count,
            },
        )
    } else {
        None
    }
}

/// The settings of the RPC modules of a node.
pub open spec fn rpc_deps(
    is_authority: bool,
    deny_unsafe: DenyUnsafe,
    eth_rpc_config: &EthRpcConfig,
) -> FullDeps {
    FullDeps {
        deny_unsafe,
        is_authority,
        filter_pool: true,
        max_past_logs: eth_rpc_config.max_past_logs,
        fee_history_cache_limit: eth_rpc_config.fee_history_limit,
    }
}

/// The RPC modules that a node serves to one kind of caller.
pub fn rpc_extensions<D, T>(
    is_authority: bool,
    deny_unsafe: DenyUnsafe,
    eth_rpc_config: &EthRpcConfig,
    tracing_requesters: RpcRequesters<D, T>,
) -> (r: Vec<RpcModule<D, T>>)
    ensures
        r@ == rpc_modules(
            rpc_deps(is_authority, deny_unsafe, eth_rpc_config),
            tracing_config_for(eth_rpc_config, tracing_requesters),
        ),
{
    let deps = FullDeps {
        deny_unsafe,
        is_authority,
        filter_pool: true,
        max_past_logs: eth_rpc_config.max_past_logs,
        fee_history_cache_limit: eth_rpc_config.fee_history_limit,
    };
    if eth_rpc_config.has_tracing() {
        create_full(
            deps,
            Some(
                TracingConfig {
                    tracing_requesters,
                    trace_filter_max_count: eth_rpc_config.tracing_max_count,
                },
            ),
        )
    } else {
        create_full(deps, None)
    }
}

/// What a benchmark of the hardware showed.
#[derive(Clone, Copy, Debug, PartialEq, Eq)]
pub struct HardwareReport {
    /// Whether the hardware meets the requirements for authorities.
    pub meets_requirements: bool,
}

/// A step in starting a node whose components are built. A step that fails ends the start with
/// its error.
#[derive(Clone, Copy, Debug, PartialEq, Eq)]
pub enum NodeStep {
    /// Adapt the configuration to that of a parachain.
    PrepareConfig,
    /// Connect to the relay chain.
    BuildRelayChainInterface,
    /// Create the validator of block announcements.
    CreateBlockAnnounceValidator { para_id: u32 },
    /// Hook up the remote keystore, if one is configured.
    HookUpRemoteKeystore,
    /// Build the network, with or without warp sync.
    BuildNetwork { warp_sync: bool },
    /// Build the offchain workers.
    BuildOffchainWorkers,
    /// Create the cache of Ethereum block data.
    CreateBlockDataCache { blocks: usize, statuses: usize },
    /// Number RPC subscriptions as Ethereum clients expect it.
    UseEthereumSubscriptionIds,
    /// Spawn the tasks of the Ethereum compatibility layer.
    SpawnFrontierTasks { fee_history_cache_limit: u64 },
    /// Spawn the RPC server and the other tasks of a node.
    SpawnTasks { is_authority: bool },
    /// Print the result of the hardware benchmark.
    PrintHardwareReport,
    /// Warn that the hardware does not meet the requirements for authorities.
    WarnAboutHardware,
    /// Spawn the task that reports the hardware benchmark to telemetry, in a group of tasks or
    /// in none. If an essential task ends, so does the node.
    SpawnHardwareTelemetry { group: Option<&'static str>, essential: bool },
    /// Build the consensus of a collator.
    BuildConsensus { force_authoring: bool, para_id: u32 },
    /// Start as a collator.
    StartCollator { para_id: u32, relay_chain_slot_secs: u64 },
    /// Start as a full node.
    StartFullNode { para_id: u32, relay_chain_slot_secs: u64 },
    /// Start the network.
    StartNetwork,
}

impl NodeStep {
    /// The name under which the task of this step is spawned, if the step spawns one by name.
    pub open spec fn task_name_of(self) -> Option<Seq<char>> {
        match self {
            NodeStep::SpawnHardwareTelemetry { .. } => Some("telemetry_hwbench"@),
            _ => None,
        }
    }

    /// The name under which the task of this step is spawned, if the step spawns one by name.
    pub fn task_name(&self) -> (r: Option<&'static str>)
        ensures
            match self.task_name_of() {
                Some(name) => r matches Some(given) && given@ == name,
                None => r is None,
            },
    {
        match self {
            NodeStep::SpawnHardwareTelemetry { .. } => Some("telemetry_hwbench"),
            _ => None,
        }
    }
}

/// The steps that deal with a hardware benchmark.
pub open spec fn hardware_steps(config: &NodeConfig, hwbench: Option<HardwareReport>) -> Seq<
    NodeStep,
> {
    match hwbench {
        Some(report) => seq![NodeStep::PrintHardwareReport] + step_if(
            !report.meets_requirements && config.is_authority,
            NodeStep::WarnAboutHardware,
        ) + step_if(
            config.reports_telemetry(),
            NodeStep::SpawnHardwareTelemetry { group: None, essential: false },
        ),
        None => seq![],
    }
}

/// The steps that make a node take up its role.
pub open spec fn role_steps(config: &NodeConfig, para_id: u32) -> Seq<NodeStep> {
    if config.is_authority {
        seq![
            NodeStep::BuildConsensus { force_authoring: config.force_authoring, para_id },
            NodeStep::StartCollator { para_id, relay_chain_slot_secs: RELAY_CHAIN_SLOT_SECS },
        ]
    } else {
        seq![NodeStep::StartFullNode { para_id, relay_chain_slot_secs: RELAY_CHAIN_SLOT_SECS }]
    }
}

/// The steps by which a node starts once its components are built.
pub open spec fn node_steps(
    config: &NodeConfig,
    para_id: u32,
    hwbench: Option<HardwareReport>,
    eth_rpc_config: &EthRpcConfig,
) -> Seq<NodeStep> {
    seq![
        NodeStep::PrepareConfig,
        NodeStep::BuildRelayChainInterface,
        NodeStep::CreateBlockAnnounceValidator { para_id },
        NodeStep::HookUpRemoteKeystore,
        NodeStep::BuildNetwork { warp_sync: false },
    ] + step_if(config.offchain_worker, NodeStep::BuildOffchainWorkers) + seq![
        NodeStep::CreateBlockDataCache {
            blocks: eth_rpc_config.eth_log_block_cache,
            statuses: eth_rpc_config.eth_statuses_cache,
        },
        NodeStep::UseEthereumSubscriptionIds,
        NodeStep::SpawnFrontierTasks {
            fee_history_cache_limit: eth_rpc_config.fee_history_limit,
        },
        NodeStep::SpawnTasks { is_authority: config.is_authority },
    ] + hardware_steps(config, hwbench) + role_steps(config, para_id) + seq![
        NodeStep::StartNetwork,
    ]
}

/// The plan for the start of a node.
#[derive(Clone, Debug)]
pub struct NodePlan {
    /// First, build the components.
    pub partial: Vec<PartialStep>,
    /// Then, start the node.
    pub steps: Vec<NodeStep>,
}

/// What comes of starting a node: a plan, unless a remote keystore is configured.
pub open spec fn is_node_start(
    config: &NodeConfig,
    para_id: u32,
    hwbench: Option<HardwareReport>,
    eth_rpc_config: &EthRpcConfig,
    r: Result<NodePlan, ServiceError>,
) -> bool {
    match config.keystore_remote {
        Some(_) => r matches Err(ServiceError::Other(reason)) && reason@
            == remote_keystore_refusal(),
        None => r matches Ok(plan) && plan.partial@ == partial_steps(config) && plan.steps@
            == node_steps(config, para_id, hwbench, eth_rpc_config),
    }
}

/// The plan for the start of a node. A configuration with a remote keystore is refused. The
/// builder of further RPC methods is not used.
pub fn start_node_impl<RB>(
    config: &NodeConfig,
    para_id: u32,
    _rpc_ext_builder: RB,
    hwbench: Option<HardwareReport>,
    eth_rpc_config: &EthRpcConfig,
) -> (r: Result<NodePlan, ServiceError>)
    ensures
        is_node_start(config, para_id, hwbench, eth_rpc_config, r),
{
    let partial = match new_partial(config) {
        Ok(partial) => partial,
        Err(e) => return Err(e),
    };
    let mut steps: Vec<NodeStep> = Vec::new();
    steps.push(NodeStep::PrepareConfig);
    steps.push(NodeStep::BuildRelayChainInterface);
    steps.push(NodeStep::CreateBlockAnnounceValidator { para_id });
    steps.push(NodeStep::HookUpRemoteKeystore);
    steps.push(NodeStep::BuildNetwork { warp_sync: false });
    if config.offchain_worker {
        steps.push(NodeStep::BuildOffchainWorkers);
    }
    steps.push(
        NodeStep::CreateBlockDataCache {
            blocks: eth_rpc_config.eth_log_block_cache,
            statuses: eth_rpc_config.eth_statuses_cache,
        },
    );
    steps.push(NodeStep::UseEthereumSubscriptionIds);
    steps.push(
        NodeStep::SpawnFrontierTasks { fee_history_cache_limit: eth_rpc_config.fee_history_limit },
    );
    steps.push(NodeStep::SpawnTasks { is_authority: config.is_authority });
    if let Some(report) = hwbench {
        steps.push(NodeStep::PrintHardwareReport);
        if !report.meets_requirements && config.is_authority {
            steps.push(NodeStep::WarnAboutHardware);
        }
        if config.has_telemetry() {
            steps.push(NodeStep::SpawnHardwareTelemetry { group: None, essential: false });
        }
    }
    if config.is_authority {
        steps.push(
            NodeStep::BuildConsensus { force_authoring: config.force_authoring, para_id },
        );
        steps.push(
            NodeStep::StartCollator { para_id, relay_chain_slot_secs: RELAY_CHAIN_SLOT_SECS },
        );
    } else {
        steps.push(
            NodeStep::StartFullNode { para_id, relay_chain_slot_secs: RELAY_CHAIN_SLOT_SECS },
        );
    }
    steps.push(NodeStep::StartNetwork);
    assert(steps@ =~= node_steps(config, para_id, hwbench, eth_rpc_config));
    Ok(NodePlan { partial, steps })
}

/// The plan for the start of a parachain node. A configuration with a remote keystore is
/// refused.
pub fn start_parachain_node(
    config: &NodeConfig,
    para_id: u32,
    hwbench: Option<HardwareReport>,
    eth_rpc_config: &EthRpcConfig,
) -> (r: Result<NodePlan, ServiceError>)
    ensures
        is_node_start(config, para_id, hwbench, eth_rpc_config, r),
{
    start_node_impl(config, para_id, (), hwbench, eth_rpc_config)
}

/// Whether two starts come to the same: the same steps, or a refusal in the same words.
pub open spec fn is_same_start(
    a: Result<NodePlan, ServiceError>,
    b: Result<NodePlan, ServiceError>,
) -> bool {
    match (a, b) {
        (Ok(p), Ok(q)) => p.partial@ == q.partial@ && p.steps@ == q.steps@,
        (Err(ServiceError::Other(p)), Err(ServiceError::Other(q))) => p@ == q@,
        _ => false,
    }
}

/// Starting a parachain node comes to the same as starting a node with any builder of further RPC
/// methods: the same plan or the same refusal, whatever the builder.
pub proof fn parachain_start_is_node_start_with_any_builder<RB>(
    config: &NodeConfig,
    para_id: u32,
    rpc_ext_builder: RB,
    hwbench: Option<HardwareReport>,
    eth_rpc_config: &EthRpcConfig,
    parachain: Result<NodePlan, ServiceError>,
    node: Result<NodePlan, ServiceError>,
)
    requires
        call_ensures(
            start_parachain_node,
            (config, para_id, hwbench, eth_rpc_config),
            parachain,
        ),
        call_ensures(
            start_node_impl::<RB>,
            (config, para_id, rpc_ext_builder, hwbench, eth_rpc_config),
            node,
        ),
    ensures
        is_same_start(parachain, node),
        parachain is Ok <==> node is Ok,
        parachain matches Ok(p) ==> node matches Ok(q) && p.partial@ == q.partial@ && p.steps@
            == q.steps@,
        parachain matches Err(ServiceError::Other(p)) ==> node matches Err(ServiceError::Other(q))
            && p@ == q@,
{
}

/// A tracing module is served exactly if its API is offered, provided that the requesters are
/// those of the tasks that run: one for each API that is offered.
pub proof fn tracing_modules_are_served_iff_offered<D, T>(
    is_authority: bool,
    deny_unsafe: DenyUnsafe,
    eth_rpc_config: &EthRpcConfig,
    requesters: RpcRequesters<D, T>,
)
    requires
        requesters.trace is Some <==> eth_rpc_config.offers(TracingApi::Trace),
        requesters.debug is Some <==> eth_rpc_config.offers(TracingApi::Debug),
    ensures
        ({
            let modules = rpc_modules(
                rpc_deps(is_authority, deny_unsafe, eth_rpc_config),
                tracing_config_for(eth_rpc_config, requesters),
            );
            &&& eth_rpc_config.offers(TracingApi::Trace) <==> exists|i: int|
                0 <= i < modules.len() && #[trigger] modules[i] is Trace
            &&& eth_rpc_config.offers(TracingApi::Debug) <==> exists|i: int|
                0 <= i < modules.len() && #[trigger] modules[i] is Debug
        }),
{
    let config = tracing_config_for(eth_rpc_config, requesters);
    let modules = rpc_modules(rpc_deps(is_authority, deny_unsafe, eth_rpc_config), config);
    if eth_rpc_config.offers(TracingApi::Trace) {
        assert(modules[7] is Trace);
    }
    if eth_rpc_config.offers(TracingApi::Debug) {
        assert(modules[modules.len() - 1] is Debug);
    }
}

/// After skipped slots a collator has no less time for a proposal than otherwise, and never more
/// than a slot.
pub proof fn skipped_slots_give_no_less_time(
    slot_duration: u64,
    force_authoring: bool,
    para_id: u32,
)
    ensures
        ({
            let consensus = consensus_of(slot_duration, force_authoring, para_id);
            let usual = consensus.block_proposal_slot_portion.of(slot_duration as int);
            &&& consensus.max_block_proposal_slot_portion matches Some(most)
            &&& usual <= most.of(slot_duration as int) <= slot_duration
        }),
{
}

/// The network is started once, as the last step of a start, and just before that the node takes
/// up exactly one role: an authority becomes a collator, and any other node a full node.
pub proof fn node_takes_up_one_role(
    config: &NodeConfig,
    para_id: u32,
    hwbench: Option<HardwareReport>,
    eth_rpc_config: &EthRpcConfig,
)
    ensures
        ({
            let steps = node_steps(config, para_id, hwbench, eth_rpc_config);
            &&& steps.last() is StartNetwork
            &&& forall|i: int|
                0 <= i < steps.len() && #[trigger] steps[i] is StartNetwork ==> i == steps.len() - 1
            &&& forall|i: int|
                0 <= i < steps.len() && #[trigger] steps[i] is StartCollator ==> i == steps.len()
                    - 2 && config.is_authority
            &&& forall|i: int|
                0 <= i < steps.len() && #[trigger] steps[i] is StartFullNode ==> i == steps.len()
                    - 2 && !config.is_authority
            &&& steps[steps.len() - 2] is StartCollator <==> config.is_authority
            &&& steps[steps.len() - 2] is StartFullNode <==> !config.is_authority
        }),
{
}

/// A list without telemetry servers is the same as no list: no telemetry worker is created or
/// spawned.
pub proof fn empty_telemetry_is_no_telemetry(with_list: &NodeConfig, without: &NodeConfig)
    requires
        with_list.telemetry_endpoints matches Some(endpoints) && endpoints@.len() == 0,
        without.telemetry_endpoints is None,
        with_list.is_authority == without.is_authority,
        with_list.base_path == without.base_path,
        with_list.chain_id == without.chain_id,
    ensures
        partial_steps(with_list) == partial_steps(without),
        forall|i: int|
            0 <= i < partial_steps(without).len() ==> !(#[trigger] partial_steps(
                without,
            )[i] is CreateTelemetry) && !(partial_steps(without)[i] is SpawnTelemetry),
{
}

/// The RPC modules and the tasks of the Ethereum compatibility layer get the same fee history
/// limit: the one that is configured.
pub proof fn fee_history_limit_is_shared<D, T>(
    config: &NodeConfig,
    para_id: u32,
    hwbench: Option<HardwareReport>,
    eth_rpc_config: &EthRpcConfig,
    deny_unsafe: DenyUnsafe,
    requesters: RpcRequesters<D, T>,
    i: int,
    j: int,
)
    requires
        0 <= i < node_steps(config, para_id, hwbench, eth_rpc_config).len(),
        0 <= j < rpc_modules(
            rpc_deps(config.is_authority, deny_unsafe, eth_rpc_config),
            tracing_config_for(eth_rpc_config, requesters),
        ).len(),
    ensures
        node_steps(
            config,
            para_id,
            hwbench,
            eth_rpc_config,
        )[i] matches NodeStep::SpawnFrontierTasks { fee_history_cache_limit }
            ==> fee_history_cache_limit == eth_rpc_config.fee_history_limit,
        rpc_modules(
            rpc_deps(config.is_authority, deny_unsafe, eth_rpc_config),
            tracing_config_for(eth_rpc_config, requesters),
        )[j] matches RpcModule::Eth { fee_history_cache_limit, .. } ==> fee_history_cache_limit
            == eth_rpc_config.fee_history_limit,
{
}

/// A node reports telemetry exactly if at least one server is configured.
pub proof fn telemetry_needs_a_server(config: NodeConfig, r: bool)
    requires
        call_ensures(NodeConfig::has_telemetry, (&config,), r),
    ensures
        config.telemetry_endpoints is None ==> !r,
        config.telemetry_endpoints matches Some(endpoints) ==> (r <==> endpoints@.len() > 0),
{
}

/// No components are built for a node with a remote keystore, and it is told so; any other node
/// gets them.
pub proof fn remote_keystores_are_refused(
    config: &NodeConfig,
    r: Result<Vec<PartialStep>, ServiceError>,
)
    requires
        call_ensures(new_partial, (config,), r),
    ensures
        r is Err <==> config.keystore_remote is Some,
        r matches Err(ServiceError::Other(reason)) ==> reason@
            == "Remote Keystores are not supported."@,
{
}

/// The components of a node, in the order in which they are built. Telemetry, with room for
/// sixteen messages, comes first and is spawned by name, outside any group and not essential, as
/// soon as there is a task manager; it is there exactly if a server is configured. The transaction
/// pool knows whether the node is an authority, and the database lies under the configured base
/// path or that of the application, by the id of the chain.
pub proof fn components_follow_the_configuration(
    config: &NodeConfig,
    r: Result<Vec<PartialStep>, ServiceError>,
)
    requires
        config.keystore_remote is None,
        call_ensures(new_partial, (config,), r),
    ensures
        r matches Ok(plan) && {
            let steps = plan@;
            let telemetry = config.telemetry_endpoints is Some
                && config.telemetry_endpoints->0@.len() > 0;
            let created: int = if telemetry {
                1
            } else {
                0
            };
            let spawned = 2 * created;
            &&& steps.len() == 9 + spawned
            &&& telemetry ==> steps[0] == (PartialStep::CreateTelemetry { buffer: 16 })
            &&& steps[created] is CreateExecutor
            &&& steps[1 + created] == (PartialStep::BuildFullParts { telemetry })
            &&& telemetry ==> steps[3] == (PartialStep::SpawnTelemetry {
                group: None,
                essential: false,
            })
            &&& steps[2 + spawned] == (PartialStep::CreateTransactionPool {
                is_authority: config.is_authority,
            })
            &&& steps[3 + spawned] is CreateBlockImport
            &&& steps[4 + spawned] == (PartialStep::BuildImportQueue { telemetry })
            &&& steps[5 + spawned] is OpenFrontierBackend
            &&& steps[5 + spawned]->dir.chain_id == config.chain_id
            &&& config.base_path matches Some(path) ==> steps[5 + spawned]->dir.base
                == BasePath::Configured(path)
            &&& config.base_path is None ==> (steps[5
                + spawned]->dir.base matches BasePath::Application(name) && name@
                == "storage-chain"@)
            &&& steps[6 + spawned] is CreateFilterPool
            &&& steps[7 + spawned] == (PartialStep::CreateFeeHistoryCache { limit: 2048 })
            &&& steps[8 + spawned] is SelectLongestChain
        },
{
}

/// Steps that spawn a telemetry task name it, and no other step names one.
pub proof fn telemetry_tasks_are_named(
    partial: PartialStep,
    node: NodeStep,
    r: Option<&'static str>,
    s: Option<&'static str>,
)
    requires
        call_ensures(PartialStep::task_name, (&partial,), r),
        call_ensures(NodeStep::task_name, (&node,), s),
    ensures
        r is Some <==> partial is SpawnTelemetry,
        r matches Some(name) ==> name@ == "telemetry"@,
        s is Some <==> node is SpawnHardwareTelemetry,
        s matches Some(name) ==> name@ == "telemetry_hwbench"@,
{
}

/// A remote keystore is never hooked up: its address is named in the refusal. Without one there is
/// nothing to do.
pub proof fn remote_keystores_are_never_hooked_up(
    keystore_remote: Option<String>,
    r: Result<(), ServiceError>,
)
    requires
        call_ensures(hook_up_remote_keystore, (&keystore_remote,), r),
    ensures
        r is Ok <==> keystore_remote is None,
        keystore_remote matches Some(url) ==> (r matches Err(ServiceError::Other(reason)) && reason@
            == "Error hooking up remote keystore for "@ + url@ + ": "@
            + "Remote Keystore not supported."@),
{
}

/// The slot against which a block is checked is the one that the time lies in: it has begun, and
/// it has not ended.
pub proof fn import_queue_finds_the_slot_of_the_time(
    slot_duration: u64,
    timestamp: u64,
    queue: ImportQueue,
    r: (u64, u64),
)
    requires
        slot_duration > 0,
        call_ensures(parachain_build_import_queue, (slot_duration,), queue),
        call_ensures(ImportQueue::inherents, (&queue, timestamp), r),
    ensures
        call_requires(ImportQueue::inherents, (&queue, timestamp)),
        queue.slot_duration == slot_duration,
        r.0 * slot_duration <= timestamp,
        timestamp < (r.0 + 1) * slot_duration,
        r.1 == timestamp,
{
    let t = timestamp as int;
    let d = slot_duration as int;
    assert((t / d) * d <= t < (t / d + 1) * d) by (nonlinear_arith)
        requires
            t >= 0,
            d > 0,
    ;
    assert(0 <= t / d <= t) by (nonlinear_arith)
        requires
            t >= 0,
            d > 0,
    ;
}

/// A collator authors for the parachain, in the slots and with the determination that it is told
/// to; it does not back off, and proposes for a twenty-fourth of a slot, or a sixteenth after
/// skipped ones.
pub proof fn consensus_follows_the_configuration(
    slot_duration: u64,
    force_authoring: bool,
    para_id: u32,
    r: Consensus,
    duration: int,
)
    requires
        call_ensures(build_consensus, (slot_duration, force_authoring, para_id), r),
    ensures
        r.slot_duration == slot_duration,
        r.force_authoring == force_authoring,
        r.para_id == para_id,
        !r.backoff_authoring_blocks,
        r.block_proposal_slot_portion == (SlotProportion { numerator: 1, denominator: 24 }),
        r.max_block_proposal_slot_portion == Some(
            SlotProportion { numerator: 1, denominator: 16 },
        ),
        r.block_proposal_slot_portion.of(duration) == duration / 24,
        r.max_block_proposal_slot_portion->0.of(duration) == duration / 16,
{
}

/// A block is authored in the slot that the time lies in, with the inherent of the parachain as it
/// came; without the inherent none is authored.
pub proof fn authoring_needs_the_inherent<I>(
    consensus: Consensus,
    timestamp: u64,
    parachain_inherent: Option<I>,
    r: Result<(u64, u64, I), String>,
)
    requires
        consensus.slot_duration > 0,
        call_ensures(
            Consensus::inherents::<I>,
            (&consensus, timestamp, parachain_inherent),
            r,
        ),
    ensures
        call_requires(Consensus::inherents::<I>, (&consensus, timestamp, parachain_inherent)),
        r is Ok <==> parachain_inherent is Some,
        r matches Ok(data) ==> {
            &&& data.0 * consensus.slot_duration <= timestamp
            &&& timestamp < (data.0 + 1) * consensus.slot_duration
            &&& data.1 == timestamp
            &&& parachain_inherent == Some(data.2)
        },
        r matches Err(reason) ==> reason@ == "Failed to create parachain inherent"@,
{
    let t = timestamp as int;
    let d = consensus.slot_duration as int;
    assert((t / d) * d <= t < (t / d + 1) * d) by (nonlinear_arith)
        requires
            t >= 0,
            d > 0,
    ;
    assert(0 <= t / d <= t) by (nonlinear_arith)
        requires
            t >= 0,
            d > 0,
    ;
}

/// The RPC server of a node keeps filters, has the configured limits, and serves a tracing module
/// for each requester, unless no tracing API is listed: then it serves none.
pub proof fn rpc_server_follows_the_configuration<D, T>(
    is_authority: bool,
    deny_unsafe: DenyUnsafe,
    eth_rpc_config: &EthRpcConfig,
    requesters: RpcRequesters<D, T>,
    r: Vec<RpcModule<D, T>>,
)
    requires
        call_ensures(
            rpc_extensions::<D, T>,
            (is_authority, deny_unsafe, eth_rpc_config, requesters),
            r,
        ),
    ensures
        ({
            let modules = r@;
            let tracing = eth_rpc_config.tracing_api@.len() > 0;
            let trace: int = if tracing && requesters.trace is Some {
                1
            } else {
                0
            };
            let debug: int = if tracing && requesters.debug is Some {
                1
            } else {
                0
            };
            &&& modules.len() == 7 + trace + debug
            &&& modules[0] == (RpcModule::<D, T>::System { deny_unsafe })
            &&& modules[1] is TransactionPayment
            &&& modules[2] == (RpcModule::<D, T>::Net { peer_count_as_hex: true })
            &&& modules[3] == (RpcModule::<D, T>::Eth {
                transaction_converter: false,
                signers: 0,
                is_authority,
                fee_history_cache_limit: eth_rpc_config.fee_history_limit,
                execute_gas_limit_multiplier: 10,
            })
            &&& modules[4] == (RpcModule::<D, T>::EthFilter {
                max_stored_filters: 500,
                max_past_logs: eth_rpc_config.max_past_logs,
            })
            &&& modules[5] is EthPubSub
            &&& modules[6] is Web3
            &&& trace == 1 ==> modules[7] == (RpcModule::<D, T>::Trace {
                requester: requesters.trace->0,
                max_count: eth_rpc_config.tracing_max_count,
            })
            &&& debug == 1 ==> modules[7 + trace] == (RpcModule::<D, T>::Debug {
                requester: requesters.debug->0,
            })
        }),
{
    if eth_rpc_config.tracing_api@.len() > 0 {
        let first = eth_rpc_config.tracing_api@[0];
        assert(eth_rpc_config.tracing_api@.contains(first));
        assert(first is Debug || first is Trace);
    }
}

/// A node starts exactly if no remote keystore is configured, and is otherwise told why not. Its
/// components are those of the configuration.
pub proof fn start_is_refused_to_remote_keystores<RB>(
    config: &NodeConfig,
    para_id: u32,
    rpc_ext_builder: RB,
    hwbench: Option<HardwareReport>,
    eth_rpc_config: &EthRpcConfig,
    r: Result<NodePlan, ServiceError>,
    components: Result<Vec<PartialStep>, ServiceError>,
)
    requires
        call_ensures(
            start_node_impl::<RB>,
            (config, para_id, rpc_ext_builder, hwbench, eth_rpc_config),
            r,
        ),
        call_ensures(new_partial, (config,), components),
    ensures
        r is Err <==> config.keystore_remote is Some,
        r matches Err(ServiceError::Other(reason)) ==> reason@
            == "Remote Keystores are not supported."@,
        r matches Ok(plan) ==> components matches Ok(steps) && plan.partial@ == steps@,
{
}

/// The steps by which a node starts, in order: it connects to the relay chain and builds the
/// network for the parachain, without warp sync; runs offchain workers exactly if they are
/// enabled; sets up the Ethereum compatibility layer with the configured cache sizes and fee
/// history limit; spawns its tasks; deals with the hardware benchmark if there is one; takes up its
/// role; and starts the network.
pub proof fn start_follows_the_configuration<RB>(
    config: &NodeConfig,
    para_id: u32,
    rpc_ext_builder: RB,
    hwbench: Option<HardwareReport>,
    eth_rpc_config: &EthRpcConfig,
    r: Result<NodePlan, ServiceError>,
)
    requires
        config.keystore_remote is None,
        call_ensures(
            start_node_impl::<RB>,
            (config, para_id, rpc_ext_builder, hwbench, eth_rpc_config),
            r,
        ),
    ensures
        r matches Ok(plan) && {
            let steps = plan.steps@;
            let workers: int = if config.offchain_worker {
                1
            } else {
                0
            };
            let report: int = if hwbench is Some {
                1
            } else {
                0
            };
            let warning: int = if hwbench is Some && !hwbench->0.meets_requirements
                && config.is_authority {
                1
            } else {
                0
            };
            let telemetry: int = if hwbench is Some && config.telemetry_endpoints is Some
                && config.telemetry_endpoints->0@.len() > 0 {
                1
            } else {
                0
            };
            let role = 9 + workers + report + warning + telemetry;
            &&& steps[0] is PrepareConfig
            &&& steps[1] is BuildRelayChainInterface
            &&& steps[2] == (NodeStep::CreateBlockAnnounceValidator { para_id })
            &&& steps[3] is HookUpRemoteKeystore
            &&& steps[4] == (NodeStep::BuildNetwork { warp_sync: false })
            &&& config.offchain_worker ==> steps[5] is BuildOffchainWorkers
            &&& steps[5 + workers] == (NodeStep::CreateBlockDataCache {
                blocks: eth_rpc_config.eth_log_block_cache,
                statuses: eth_rpc_config.eth_statuses_cache,
            })
            &&& steps[6 + workers] is UseEthereumSubscriptionIds
            &&& steps[7 + workers] == (NodeStep::SpawnFrontierTasks {
                fee_history_cache_limit: eth_rpc_config.fee_history_limit,
            })
            &&& steps[8 + workers] == (NodeStep::SpawnTasks { is_authority: config.is_authority })
            &&& report == 1 ==> steps[9 + workers] is PrintHardwareReport
            &&& warning == 1 ==> steps[10 + workers] is WarnAboutHardware
            &&& telemetry == 1 ==> steps[role - 1] == (NodeStep::SpawnHardwareTelemetry {
                group: None,
                essential: false,
            })
            &&& config.is_authority ==> {
                &&& steps.len() == role + 3
                &&& steps[role] == (NodeStep::BuildConsensus {
                    force_authoring: config.force_authoring,
                    para_id,
                })
                &&& steps[role + 1] == (NodeStep::StartCollator {
                    para_id,
                    relay_chain_slot_secs: 6,
                })
            }
            &&& !config.is_authority ==> {
                &&& steps.len() == role + 2
                &&& steps[role] == (NodeStep::StartFullNode { para_id, relay_chain_slot_secs: 6 })
            }
            &&& steps.last() is StartNetwork
        },
{
}

/// Wherever a plan builds a consensus, it is with the configured setting and for the parachain, and
/// a collator starts with it next; and a collator never starts without.
pub proof fn collators_author_as_configured<RB>(
    config: &NodeConfig,
    para_id: u32,
    rpc_ext_builder: RB,
    hwbench: Option<HardwareReport>,
    eth_rpc_config: &EthRpcConfig,
    plan: NodePlan,
    i: int,
)
    requires
        call_ensures(
            start_node_impl::<RB>,
            (config, para_id, rpc_ext_builder, hwbench, eth_rpc_config),
            Ok(plan),
        ),
        0 <= i < plan.steps@.len(),
    ensures
        plan.steps@[i] matches NodeStep::BuildConsensus { force_authoring, para_id: id } ==> {
            &&& force_authoring == config.force_authoring
            &&& id == para_id
            &&& config.is_authority
            &&& i + 1 < plan.steps@.len()
            &&& plan.steps@[i + 1] is StartCollator
        },
        plan.steps@[i] matches NodeStep::StartCollator { para_id: id, .. } ==> id == para_id && i
            > 0 && plan.steps@[i - 1] is BuildConsensus,
        plan.steps@[i] matches NodeStep::StartFullNode { para_id: id, .. } ==> id == para_id
            && !config.is_authority,
        plan.steps@[i] matches NodeStep::CreateBlockAnnounceValidator { para_id: id } ==> id
            == para_id,
        plan.steps@[i] matches NodeStep::SpawnTasks { is_authority } ==> is_authority
            == config.is_authority,
{
    start_follows_the_configuration(
        config,
        para_id,
        rpc_ext_builder,
        hwbench,
        eth_rpc_config,
        Ok(plan),
    );
    let steps = plan.steps@;
    let hardware = hardware_steps(config, hwbench);
    let workers = step_if(config.offchain_worker, NodeStep::BuildOffchainWorkers).len();
    let role = 9 + workers + hardware.len();
    if i < 5 + workers {
        assert(i == 0 || i == 1 || i == 2 || i == 3 || i == 4 || i == 5);
    } else if i < 9 + workers {
        assert(i == 5 + workers || i == 6 + workers || i == 7 + workers || i == 8 + workers);
    } else if i < role {
        assert(steps[i] == hardware[i - 9 - workers]);
    } else {
        assert(i == role || i == role + 1 || i == role + 2);
    }
}

/// What is read of a configuration elsewhere makes no difference to a start: it depends on the
/// role, the offchain workers, the determination to author, the telemetry servers, the directory,
/// the caches and the fee history limit alone.
pub proof fn start_depends_on_what_it_reads<RB>(
    a: &NodeConfig,
    b: &NodeConfig,
    para_id: u32,
    rpc_ext_builder: RB,
    hwbench: Option<HardwareReport>,
    eth_a: &EthRpcConfig,
    eth_b: &EthRpcConfig,
    p: NodePlan,
    q: NodePlan,
)
    requires
        a.is_authority == b.is_authority,
        a.offchain_worker == b.offchain_worker,
        a.force_authoring == b.force_authoring,
        a.telemetry_endpoints == b.telemetry_endpoints,
        a.base_path == b.base_path,
        a.chain_id == b.chain_id,
        eth_a.eth_log_block_cache == eth_b.eth_log_block_cache,
        eth_a.eth_statuses_cache == eth_b.eth_statuses_cache,
        eth_a.fee_history_limit == eth_b.fee_history_limit,
        call_ensures(
            start_node_impl::<RB>,
            (a, para_id, rpc_ext_builder, hwbench, eth_a),
            Ok(p),
        ),
        call_ensures(
            start_node_impl::<RB>,
            (b, para_id, rpc_ext_builder, hwbench, eth_b),
            Ok(q),
        ),
    ensures
        p.partial@ == q.partial@,
        p.steps@ == q.steps@,
{
}

} // verus!

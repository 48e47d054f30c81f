//! The Ethereum compatibility layer: its options, and the tasks that it runs.
use core::str::FromStr;
use vstd::prelude::*;

verus! {

/// An EVM tracing API.
#[derive(Clone, Copy, Debug, PartialEq, Eq, Structural)]
pub enum TracingApi {
    Debug,
    Trace,
}

impl TracingApi {
    /// The API that a name stands for, if it stands for one.
    pub open spec fn named(name: Seq<char>) -> Option<TracingApi> {
        if name == "debug"@ {
            Some(TracingApi::Debug)
        } else if name == "trace"@ {
            Some(TracingApi::Trace)
        } else {
            None
        }
    }

    /// What is said of a name that stands for no API.
    pub open spec fn complaint(name: Seq<char>) -> Seq<char> {
        "`"@ + name + "` is not recognized as a supported Ethereum Api"@
    }
}

impl FromStr for TracingApi {
    type Err = String;

    /// Reads the name of an API. A name that stands for none is answered with a complaint.
    fn from_str(s: &str) -> (r: Result<TracingApi, String>)
        ensures
            match TracingApi::named(s@) {
                Some(api) => r == Ok::<TracingApi, String>(api),
                None => r matches Err(e) && e@ == TracingApi::complaint(s@),
            },
            r is Ok <==> s@ == "debug"@ || s@ == "trace"@,
            s@ == "debug"@ ==> r == Ok::<TracingApi, String>(TracingApi::Debug),
            s@ == "trace"@ ==> r == Ok::<TracingApi, String>(TracingApi::Trace),
            r matches Err(e) ==> e@ == "`"@ + s@
                + "` is not recognized as a supported Ethereum Api"@,
    {
        proof {
            reveal_strlit("debug");
            reveal_strlit("trace");
            assert("debug"@[0] != "trace"@[0]);
        }
        let name = s.to_owned();
        if name == "debug".to_owned() {
            Ok(TracingApi::Debug)
        } else if name == "trace".to_owned() {
            Ok(TracingApi::Trace)
        } else {
            let mut complaint = "`".to_owned();
            complaint.append(s);
            complaint.append("` is not recognized as a supported Ethereum Api");
            Err(complaint)
        }
    }
}

/// The options of the Ethereum compatibility layer, as given on the command line.
#[derive(Debug)]
pub struct EthArgs {
    /// The EVM tracing APIs to offer.
    pub tracing_api: Vec<TracingApi>,
    /// Number of concurrent tracing tasks, shared by the "debug" and "trace" modules.
    pub tracing_max_permits: u32,
    /// Maximum number of trace entries that a single request of `trace_filter` may return.
    pub tracing_max_count: u32,
    /// Duration in seconds after which the `trace_filter` cache of a block is discarded.
    pub tracing_cache_duration: u64,
    /// Size in bytes of the data that a raw tracing request may use.
    pub tracing_raw_max_memory_usage: usize,
    /// Size in bytes of the cache of block data.
    pub eth_log_block_cache: usize,
    /// Size of the cache of block data and transaction statuses.
    pub eth_statuses_cache: usize,
    /// Maximum number of logs in a query.
    pub max_past_logs: u32,
    /// Maximum size of the fee history cache.
    pub fee_history_limit: u64,
}

/// The configuration of the Ethereum compatibility layer.
#[derive(Clone, Debug)]
pub struct EthRpcConfig {
    pub tracing_api: Vec<TracingApi>,
    pub tracing_max_permits: u32,
    pub tracing_max_count: u32,
    pub tracing_cache_duration: u64,
    pub tracing_raw_max_memory_usage: usize,
    pub eth_log_block_cache: usize,
    pub eth_statuses_cache: usize,
    pub fee_history_limit: u64,
    pub max_past_logs: u32,
}

impl EthArgs {
    /// The configuration that the options ask for: each setting is the option of that name.
    pub fn build_eth_rpc_config(&self) -> (r: EthRpcConfig)
        ensures
            r.tracing_api@ == self.tracing_api@,
            r.tracing_max_permits == self.tracing_max_permits,
            r.tracing_max_count == self.tracing_max_count,
            r.tracing_cache_duration == self.tracing_cache_duration,
            r.tracing_raw_max_memory_usage == self.tracing_raw_max_memory_usage,
            r.eth_log_block_cache == self.eth_log_block_cache,
            r.eth_statuses_cache == self.eth_statuses_cache,
            r.fee_history_limit == self.fee_history_limit,
            r.max_past_logs == self.max_past_logs,
    {
        EthRpcConfig {
            tracing_api: self.tracing_api.clone(),
            tracing_max_permits: self.tracing_max_permits,
            tracing_max_count: self.tracing_max_count,
            tracing_cache_duration: self.tracing_cache_duration,
            tracing_raw_max_memory_usage: self.tracing_raw_max_memory_usage,
            eth_log_block_cache: self.eth_log_block_cache,
            eth_statuses_cache: self.eth_statuses_cache,
            fee_history_limit: self.fee_history_limit,
            max_past_logs: self.max_past_logs,
        }
    }
}

impl EthRpcConfig {
    /// Whether a tracing API is offered.
    pub open spec fn offers(&self, api: TracingApi) -> bool {
        self.tracing_api@.contains(api)
    }

    /// Whether any tracing API is offered.
    pub open spec fn offers_tracing(&self) -> bool {
        self.offers(TracingApi::Debug) || self.offers(TracingApi::Trace)
    }

    /// Whether a tracing API is offered.
    pub fn has_api(&self, api: TracingApi) -> (r: bool)
        ensures
            r == self.offers(api),
    {
        let mut i: usize = 0;
        while i < self.tracing_api.len()
            invariant
                i <= self.tracing_api@.len(),
                forall|j: int| 0 <= j < i ==> self.tracing_api@[j] != api,
            decreases self.tracing_api.len() - i,
        {
            if self.tracing_api[i] == api {
                assert(self.tracing_api@[i as int] == api);
                return true;
            }
            i += 1;
        }
        false
    }

    /// Whether any tracing API is offered.
    pub fn has_tracing(&self) -> (r: bool)
        ensures
            r == self.offers_tracing(),
    {
        self.has_api(TracingApi::Debug) || self.has_api(TracingApi::Trace)
    }
}

/// The handles by which tracing requests reach the tasks that answer them.
#[derive(Clone, Debug)]
pub struct RpcRequesters<D, T> {
    pub debug: Option<D>,
    pub trace: Option<T>,
}

/// Seconds between two passes of the mapping sync worker.
pub const MAPPING_SYNC_INTERVAL_SECS: u64 = 6;

/// How often the mapping sync worker tries again.
pub const MAPPING_SYNC_RETRY_TIMES: usize = 3;

/// The number of blocks for which a filter stays in the pool.
pub const FILTER_RETAIN_THRESHOLD: u64 = 100;

/// By which strategy the mapping sync worker follows the chain.
#[derive(Clone, Copy, Debug, PartialEq, Eq)]
pub enum SyncStrategy {
    /// The strategy for a chain of its own.
    Normal,
    /// The strategy for a parachain.
    Parachain,
}

/// A task of the Ethereum compatibility layer. If an essential task ends, so does the node.
#[derive(Clone, Copy, Debug, PartialEq, Eq)]
pub enum FrontierTask {
    /// Maps Ethereum blocks to the blocks of this chain.
    MappingSync {
        interval_secs: u64,
        retry_times: usize,
        sync_from: u64,
        strategy: SyncStrategy,
        essential: bool,
    },
    /// Drops filters from the pool that have stayed in it for too many blocks.
    FilterPool { retain_threshold: u64, essential: bool },
    /// Keeps the fee history cache up to date.
    FeeHistory { cache_limit: u64, essential: bool },
    /// Answers `trace_filter` requests out of a cache.
    TraceFilterCache { cache_duration_secs: u64, essential: bool },
    /// Answers `debug` requests.
    DebugHandler { raw_max_memory_usage: usize, essential: bool },
}

impl FrontierTask {
    /// The name under which the task is spawned.
    pub open spec fn name_of(self) -> Seq<char> {
        match self {
            FrontierTask::MappingSync { .. } => "frontier-mapping-sync-worker"@,
            FrontierTask::FilterPool { .. } => "frontier-filter-pool"@,
            FrontierTask::FeeHistory { .. } => "frontier-fee-history"@,
            FrontierTask::TraceFilterCache { .. } => "trace-filter-cache"@,
            FrontierTask::DebugHandler { .. } => "tracing_api-debug"@,
        }
    }

    /// The group in which the task is spawned.
    pub open spec fn group_of(self) -> Seq<char> {
        match self {
            FrontierTask::TraceFilterCache { .. } | FrontierTask::DebugHandler { .. } => {
                "eth-tracing"@
            },
            _ => "frontier"@,
        }
    }

    /// Whether the node ends if the task does.
    pub open spec fn is_essential(self) -> bool {
        match self {
            FrontierTask::MappingSync { essential, .. } => essential,
            FrontierTask::FilterPool { essential, .. } => essential,
            FrontierTask::FeeHistory { essential, .. } => essential,
            FrontierTask::TraceFilterCache { essential, .. } => essential,
            FrontierTask::DebugHandler { essential, .. } => essential,
        }
    }

    /// Whether the node ends if the task does.
    pub fn essential(&self) -> (r: bool)
        ensures
            r == self.is_essential(),
    {
        match self {
            FrontierTask::MappingSync { essential, .. } => *essential,
            FrontierTask::FilterPool { essential, .. } => *essential,
            FrontierTask::FeeHistory { essential, .. } => *essential,
            FrontierTask::TraceFilterCache { essential, .. } => *essential,
            FrontierTask::DebugHandler { essential, .. } => *essential,
        }
    }

    /// The name under which the task is spawned.
    pub fn name(&self) -> (r: &'static str)
        ensures
            r@ == self.name_of(),
    {
        match self {
            FrontierTask::MappingSync { .. } => "frontier-mapping-sync-worker",
            FrontierTask::FilterPool { .. } => "frontier-filter-pool",
            FrontierTask::FeeHistory { .. } => "frontier-fee-history",
            FrontierTask::TraceFilterCache { .. } => "trace-filter-cache",
            FrontierTask::DebugHandler { .. } => "tracing_api-debug",
        }
    }

    /// The group in which the task is spawned.
    pub fn group(&self) -> (r: &'static str)
        ensures
            r@ == self.group_of(),
    {
        match self {
            FrontierTask::TraceFilterCache { .. } => "eth-tracing",
            FrontierTask::DebugHandler { .. } => "eth-tracing",
            _ => "frontier",
        }
    }
}

/// The task that drops old filters, if there is a pool of filters.
pub open spec fn filter_tasks(filter_pool: bool) -> Seq<FrontierTask> {
    if filter_pool {
        seq![
            FrontierTask::FilterPool {
                retain_threshold: FILTER_RETAIN_THRESHOLD,
                essential: true,
            },
        ]
    } else {
        seq![]
    }
}

/// The task behind the "trace" API, if it is offered.
pub open spec fn trace_tasks(config: &EthRpcConfig) -> Seq<FrontierTask> {
    if config.offers(TracingApi::Trace) {
        seq![
            FrontierTask::TraceFilterCache {
                cache_duration_secs: config.tracing_cache_duration,
                essential: true,
            },
        ]
    } else {
        seq![]
    }
}

/// The task behind the "debug" API, if it is offered.
pub open spec fn debug_tasks(config: &EthRpcConfig) -> Seq<FrontierTask> {
    if config.offers(TracingApi::Debug) {
        seq![
            FrontierTask::DebugHandler {
                raw_max_memory_usage: config.tracing_raw_max_memory_usage,
                essential: true,
            },
        ]
    } else {
        seq![]
    }
}

/// The tasks of the Ethereum compatibility layer, in the order in which they are spawned.
pub open spec fn frontier_tasks(
    filter_pool: bool,
    fee_history_cache_limit: u64,
    config: &EthRpcConfig,
) -> Seq<FrontierTask> {
    seq![
        FrontierTask::MappingSync {
            interval_secs: MAPPING_SYNC_INTERVAL_SECS,
            retry_times: MAPPING_SYNC_RETRY_TIMES,
            sync_from: 0,
            strategy: SyncStrategy::Parachain,
            essential: true,
        },
    ] + filter_tasks(filter_pool) + seq![
        FrontierTask::FeeHistory { cache_limit: fee_history_cache_limit, essential: true },
    ] + trace_tasks(config) + debug_tasks(config)
}

/// The plan for the tasks of the Ethereum compatibility layer.
#[derive(Clone, Debug)]
pub struct FrontierPlan {
    /// The tasks, in the order in which they are spawned.
    pub tasks: Vec<FrontierTask>,
    /// How many tracing requests run at once, over all tracing tasks together.
    pub permit_pool: Option<usize>,
    /// The tasks that answer tracing requests, by their position among the tasks.
    pub requesters: RpcRequesters<usize, usize>,
}

/// The position of the first tracing task: the tasks before it are those that run anyway.
pub open spec fn first_tracing_position(filter_pool: bool) -> int {
    2 + filter_tasks(filter_pool).len() as int
}

/// The plan for the tasks of the Ethereum compatibility layer. `filter_pool` says whether the
/// node keeps a pool of filters. The tracing tasks share one pool of permits, and each tracing
/// API that is offered gets a requester for its task.
pub fn spawn_frontier_tasks(
    filter_pool: bool,
    fee_history_cache_limit: u64,
    eth_rpc_config: &EthRpcConfig,
) -> (r: FrontierPlan)
    ensures
        r.tasks@ == frontier_tasks(filter_pool, fee_history_cache_limit, eth_rpc_config),
        r.permit_pool == (if eth_rpc_config.offers_tracing() {
            Some(eth_rpc_config.tracing_max_permits as usize)
        } else {
            None
        }),
        r.requesters.trace == (if eth_rpc_config.offers(TracingApi::Trace) {
            Some(first_tracing_position(filter_pool) as usize)
        } else {
            None
        }),
        r.requesters.debug == (if eth_rpc_config.offers(TracingApi::Debug) {
            Some(
                (first_tracing_position(filter_pool) + trace_tasks(
                    eth_rpc_config,
                ).len()) as usize,
            )
        } else {
            None
        }),
{
    let mut tasks: Vec<FrontierTask> = Vec::new();
    tasks.push(
        FrontierTask::MappingSync {
            interval_secs: MAPPING_SYNC_INTERVAL_SECS,
            retry_times: MAPPING_SYNC_RETRY_TIMES,
            sync_from: 0,
            strategy: SyncStrategy::Parachain,
            essential: true,
        },
    );
    if filter_pool {
        tasks.push(
            FrontierTask::FilterPool {
                retain_threshold: FILTER_RETAIN_THRESHOLD,
                essential: true,
            },
        );
    }
    tasks.push(FrontierTask::FeeHistory { cache_limit: fee_history_cache_limit, essential: true });
    let mut permit_pool: Option<usize> = None;
    let mut trace: Option<usize> = None;
    let mut debug: Option<usize> = None;
    if eth_rpc_config.has_tracing() {
        permit_pool = Some(eth_rpc_config.tracing_max_permits as usize);
        if eth_rpc_config.has_api(TracingApi::Trace) {
            trace = Some(tasks.len());
            tasks.push(
                FrontierTask::TraceFilterCache {
                    cache_duration_secs: eth_rpc_config.tracing_cache_duration,
                    essential: true,
                },
            );
        }
        if eth_rpc_config.has_api(TracingApi::Debug) {
            debug = Some(tasks.len());
            tasks.push(
                FrontierTask::DebugHandler {
                    raw_max_memory_usage: eth_rpc_config.tracing_raw_max_memory_usage,
                    essential: true,
                },
            );
        }
    }
    assert(tasks@ =~= frontier_tasks(filter_pool, fee_history_cache_limit, eth_rpc_config));
    FrontierPlan { tasks, permit_pool, requesters: RpcRequesters { debug, trace } }
}

/// Where a node keeps its data.
#[derive(Clone, Debug, PartialEq, Eq)]
pub enum BasePath<P> {
    /// In the directory that was configured.
    Configured(P),
    /// In the directory that the platform gives to the application of this name.
    Application(&'static str),
}

/// The directory of the databases of a chain: under a base path, by the id of the chain.
#[derive(Clone, Debug, PartialEq, Eq)]
pub struct ConfigDir<P> {
    pub base: BasePath<P>,
    pub chain_id: String,
}

/// The name under which the platform knows the node.
pub const APPLICATION: &'static str = "storage-chain";

/// The directory of the databases of a chain: under the configured base path, or else under the
/// one of the application.
pub open spec fn config_dir_of<P>(base_path: Option<P>, chain_id: String) -> ConfigDir<P> {
    ConfigDir {
        base: match base_path {
            Some(path) => BasePath::Configured(path),
            None => BasePath::Application(APPLICATION),
        },
        chain_id,
    }
}

/// The directory of the databases of a chain: under the configured base path, or else under the
/// one of the application.
pub fn db_config_dir<P>(base_path: Option<P>, chain_id: String) -> (r: ConfigDir<P>)
    ensures
        r == config_dir_of(base_path, chain_id),
{
    ConfigDir {
        base: match base_path {
            Some(path) => BasePath::Configured(path),
            None => BasePath::Application(APPLICATION),
        },
        chain_id,
    }
}

/// Every task of the Ethereum compatibility layer is essential to the node.
pub proof fn tasks_are_essential(
    filter_pool: bool,
    fee_history_cache_limit: u64,
    config: &EthRpcConfig,
    i: int,
)
    requires
        0 <= i < frontier_tasks(filter_pool, fee_history_cache_limit, config).len(),
    ensures
        frontier_tasks(filter_pool, fee_history_cache_limit, config)[i].is_essential(),
{
}

/// No two tasks are spawned under the same name.
pub proof fn task_names_are_unique(
    filter_pool: bool,
    fee_history_cache_limit: u64,
    config: &EthRpcConfig,
    i: int,
    j: int,
)
    requires
        0 <= i < j < frontier_tasks(filter_pool, fee_history_cache_limit, config).len(),
    ensures
        frontier_tasks(filter_pool, fee_history_cache_limit, config)[i].name_of()
            != frontier_tasks(filter_pool, fee_history_cache_limit, config)[j].name_of(),
{
    reveal_strlit("frontier-mapping-sync-worker");
    reveal_strlit("frontier-filter-pool");
    reveal_strlit("frontier-fee-history");
    reveal_strlit("trace-filter-cache");
    reveal_strlit("tracing_api-debug");
    assert("frontier-filter-pool"@[10] != "frontier-fee-history"@[10]);
    assert("trace-filter-cache"@.len() == 18);
    assert("tracing_api-debug"@.len() == 17);
}

/// Which tasks run depends on the set of tracing APIs alone, not on how often or in which order
/// they are listed.
pub proof fn tasks_depend_on_the_set_of_apis(
    filter_pool: bool,
    fee_history_cache_limit: u64,
    a: &EthRpcConfig,
    b: &EthRpcConfig,
)
    requires
        a.tracing_api@.to_set() == b.tracing_api@.to_set(),
        a.tracing_cache_duration == b.tracing_cache_duration,
        a.tracing_raw_max_memory_usage == b.tracing_raw_max_memory_usage,
    ensures
        frontier_tasks(filter_pool, fee_history_cache_limit, a) == frontier_tasks(
            filter_pool,
            fee_history_cache_limit,
            b,
        ),
{
    assert forall|api: TracingApi| a.offers(api) == b.offers(api) by {
        assert(a.tracing_api@.contains(api) == a.tracing_api@.to_set().contains(api));
        assert(b.tracing_api@.contains(api) == b.tracing_api@.to_set().contains(api));
    }
}

/// A tracing task runs exactly if its API is offered, and it stands at the position that its
/// requester names.
pub proof fn tracing_tasks_run_iff_offered(
    filter_pool: bool,
    fee_history_cache_limit: u64,
    config: &EthRpcConfig,
)
    ensures
        ({
            let tasks = frontier_tasks(filter_pool, fee_history_cache_limit, config);
            let trace = first_tracing_position(filter_pool);
            let debug = trace + trace_tasks(config).len();
            &&& config.offers(TracingApi::Trace) <==> exists|i: int|
                0 <= i < tasks.len() && #[trigger] tasks[i] is TraceFilterCache
            &&& config.offers(TracingApi::Debug) <==> exists|i: int|
                0 <= i < tasks.len() && #[trigger] tasks[i] is DebugHandler
            &&& config.offers(TracingApi::Trace) ==> trace < tasks.len()
                && tasks[trace] is TraceFilterCache
            &&& config.offers(TracingApi::Debug) ==> debug < tasks.len()
                && tasks[debug] is DebugHandler
        }),
{
    let tasks = frontier_tasks(filter_pool, fee_history_cache_limit, config);
    let trace = first_tracing_position(filter_pool);
    let debug = trace + trace_tasks(config).len();
    if config.offers(TracingApi::Trace) {
        assert(tasks[trace] is TraceFilterCache);
    }
    if config.offers(TracingApi::Debug) {
        assert(tasks[debug] is DebugHandler);
    }
}

/// Two names are known, each of its own API; every other name is complained of as it was given.
pub proof fn two_api_names_are_known(name: Seq<char>)
    ensures
        TracingApi::named(name) is Some <==> name == "debug"@ || name == "trace"@,
        TracingApi::named("debug"@) == Some(TracingApi::Debug),
        TracingApi::named("trace"@) == Some(TracingApi::Trace),
        TracingApi::complaint(name) == "`"@ + name
            + "` is not recognized as a supported Ethereum Api"@,
{
    reveal_strlit("debug");
    reveal_strlit("trace");
    assert("debug"@[0] != "trace"@[0]);
}

/// Every option reaches the setting of its own name, as it was given.
pub proof fn options_reach_their_settings(args: EthArgs, r: EthRpcConfig)
    requires
        call_ensures(EthArgs::build_eth_rpc_config, (&args,), r),
    ensures
        r.tracing_api@ == args.tracing_api@,
        r.tracing_max_permits == args.tracing_max_permits,
        r.tracing_max_count == args.tracing_max_count,
        r.tracing_cache_duration == args.tracing_cache_duration,
        r.tracing_raw_max_memory_usage == args.tracing_raw_max_memory_usage,
        r.eth_log_block_cache == args.eth_log_block_cache,
        r.eth_statuses_cache == args.eth_statuses_cache,
        r.fee_history_limit == args.fee_history_limit,
        r.max_past_logs == args.max_past_logs,
{
}

/// An API is offered exactly if it is listed, wherever in the list, and tracing is offered exactly
/// if something is listed.
pub proof fn listed_apis_are_offered(
    config: EthRpcConfig,
    api: TracingApi,
    one: bool,
    any: bool,
)
    requires
        call_ensures(EthRpcConfig::has_api, (&config, api), one),
        call_ensures(EthRpcConfig::has_tracing, (&config,), any),
    ensures
        one <==> exists|i: int|
            0 <= i < config.tracing_api@.len() && #[trigger] config.tracing_api@[i] == api,
        any <==> config.tracing_api@.len() > 0,
        one == config.offers(api),
        any == config.offers_tracing(),
{
    if config.tracing_api@.len() > 0 {
        let first = config.tracing_api@[0];
        assert(config.tracing_api@.contains(first));
        assert(first is Debug || first is Trace);
    }
}

/// Which tasks run: the mapping sync worker first, which passes every six seconds over the blocks
/// from the first on, tries three times and follows the parachain strategy; with a pool of
/// filters, the task that drops them after a hundred blocks; the task of the fee history with the
/// limit that it is given; and one task for each tracing API that is listed, with its settings.
/// All are essential, and there are no others.
pub proof fn tasks_follow_the_configuration(
    filter_pool: bool,
    fee_history_cache_limit: u64,
    config: &EthRpcConfig,
    r: FrontierPlan,
)
    requires
        call_ensures(spawn_frontier_tasks, (filter_pool, fee_history_cache_limit, config), r),
    ensures
        ({
            let filters: int = if filter_pool {
                1
            } else {
                0
            };
            let trace: int = if config.tracing_api@.contains(TracingApi::Trace) {
                1
            } else {
                0
            };
            let debug: int = if config.tracing_api@.contains(TracingApi::Debug) {
                1
            } else {
                0
            };
            let tasks = r.tasks@;
            &&& tasks.len() == 2 + filters + trace + debug
            &&& tasks[0] == (FrontierTask::MappingSync {
                interval_secs: 6,
                retry_times: 3,
                sync_from: 0,
                strategy: SyncStrategy::Parachain,
                essential: true,
            })
            &&& filter_pool ==> tasks[1] == (FrontierTask::FilterPool {
                retain_threshold: 100,
                essential: true,
            })
            &&& tasks[1 + filters] == (FrontierTask::FeeHistory {
                cache_limit: fee_history_cache_limit,
                essential: true,
            })
            &&& trace == 1 ==> tasks[2 + filters] == (FrontierTask::TraceFilterCache {
                cache_duration_secs: config.tracing_cache_duration,
                essential: true,
            })
            &&& debug == 1 ==> tasks[2 + filters + trace] == (FrontierTask::DebugHandler {
                raw_max_memory_usage: config.tracing_raw_max_memory_usage,
                essential: true,
            })
        }),
{
}

/// The tracing tasks share as many permits as are configured, and none exist without such tasks.
/// A tracing API has a requester exactly if it is listed, and the requester leads to its task.
pub proof fn requesters_lead_to_their_tasks(
    filter_pool: bool,
    fee_history_cache_limit: u64,
    config: &EthRpcConfig,
    r: FrontierPlan,
)
    requires
        call_ensures(spawn_frontier_tasks, (filter_pool, fee_history_cache_limit, config), r),
    ensures
        config.tracing_api@.len() == 0 ==> r.permit_pool is None,
        config.tracing_api@.len() > 0 ==> r.permit_pool == Some(
            config.tracing_max_permits as usize,
        ),
        r.requesters.trace is Some <==> config.tracing_api@.contains(TracingApi::Trace),
        r.requesters.debug is Some <==> config.tracing_api@.contains(TracingApi::Debug),
        r.requesters.trace matches Some(i) ==> i < r.tasks@.len()
            && r.tasks@[i as int] is TraceFilterCache,
        r.requesters.debug matches Some(i) ==> i < r.tasks@.len()
            && r.tasks@[i as int] is DebugHandler,
{
    if config.tracing_api@.len() > 0 {
        let first = config.tracing_api@[0];
        assert(config.tracing_api@.contains(first));
        assert(first is Debug || first is Trace);
    }
}

/// Each kind of task has its own name; the tracing tasks are grouped apart from the others; and a
/// task is essential exactly if it says so.
pub proof fn tasks_are_named_by_their_kind(
    task: FrontierTask,
    name: &'static str,
    group: &'static str,
    essential: bool,
)
    requires
        call_ensures(FrontierTask::name, (&task,), name),
        call_ensures(FrontierTask::group, (&task,), group),
        call_ensures(FrontierTask::essential, (&task,), essential),
    ensures
        task is MappingSync ==> name@ == "frontier-mapping-sync-worker"@,
        task is FilterPool ==> name@ == "frontier-filter-pool"@,
        task is FeeHistory ==> name@ == "frontier-fee-history"@,
        task is TraceFilterCache ==> name@ == "trace-filter-cache"@,
        task is DebugHandler ==> name@ == "tracing_api-debug"@,
        task is TraceFilterCache || task is DebugHandler ==> group@ == "eth-tracing"@,
        task is MappingSync || task is FilterPool || task is FeeHistory ==> group@ == "frontier"@,
        essential == (match task {
            FrontierTask::MappingSync { essential: given, .. } => given,
            FrontierTask::FilterPool { essential: given, .. } => given,
            FrontierTask::FeeHistory { essential: given, .. } => given,
            FrontierTask::TraceFilterCache { essential: given, .. } => given,
            FrontierTask::DebugHandler { essential: given, .. } => given,
        }),
{
}

/// A configured base path is where the data is kept; without one it is the directory of the
/// application "storage-chain". The id of the chain tells chains apart in either.
pub proof fn data_is_kept_under_the_base_path<P>(
    base_path: Option<P>,
    chain_id: String,
    r: ConfigDir<P>,
)
    requires
        call_ensures(db_config_dir::<P>, (base_path, chain_id), r),
    ensures
        base_path matches Some(path) ==> r.base == BasePath::Configured(path),
        base_path is None ==> (r.base matches BasePath::Application(name) && name@
            == "storage-chain"@),
        r.chain_id == chain_id,
{
}

} // verus!

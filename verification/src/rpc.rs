//! The RPC methods that a node serves.
use crate::frontier_service::RpcRequesters;
use vstd::prelude::*;

verus! {

/// Whether a server refuses calls that are unsafe to offer in public.
#[derive(Clone, Copy, Debug, PartialEq, Eq)]
pub enum DenyUnsafe {
    Yes,
    No,
}

/// The configuration of the EVM tracing modules.
#[derive(Clone, Debug)]
pub struct TracingConfig<D, T> {
    /// The handles of the tasks that answer tracing requests.
    pub tracing_requesters: RpcRequesters<D, T>,
    /// Maximum number of trace entries that a single `trace_filter` request may return.
    pub trace_filter_max_count: u32,
}

/// What the choice and the settings of the modules depend on.
#[derive(Clone, Copy, Debug, PartialEq, Eq)]
pub struct FullDeps {
    /// Whether to deny unsafe calls.
    pub deny_unsafe: DenyUnsafe,
    /// Whether the node is an authority.
    pub is_authority: bool,
    /// Whether the node keeps a pool of filters.
    pub filter_pool: bool,
    /// Maximum number of logs in a query.
    pub max_past_logs: u32,
    /// Maximum size of the fee history cache.
    pub fee_history_cache_limit: u64,
}

/// By which factor a call that is only simulated may exceed the gas limit of a block.
pub const EXECUTE_GAS_LIMIT_MULTIPLIER: u64 = 10;

/// How many filters the pool may hold.
pub const MAX_STORED_FILTERS: usize = 500;

/// A group of RPC methods with its settings.
#[derive(Clone, Debug)]
pub enum RpcModule<D, T> {
    /// Account nonces and dry runs.
    System { deny_unsafe: DenyUnsafe },
    /// Fee estimates.
    TransactionPayment,
    /// The Ethereum `net` methods.
    Net { peer_count_as_hex: bool },
    /// The Ethereum `eth` methods.
    Eth {
        /// Whether transactions are converted other than by the runtime.
        transaction_converter: bool,
        /// The number of accounts for which the node itself signs.
        signers: usize,
        is_authority: bool,
        fee_history_cache_limit: u64,
        execute_gas_limit_multiplier: u64,
    },
    /// The Ethereum filter methods.
    EthFilter { max_stored_filters: usize, max_past_logs: u32 },
    /// The Ethereum subscriptions.
    EthPubSub,
    /// The Ethereum `web3` methods.
    Web3,
    /// The `trace` methods.
    Trace { requester: T, max_count: u32 },
    /// The `debug` methods.
    Debug { requester: D },
}

/// The filter module, if the node keeps a pool of filters.
pub open spec fn filter_modules<D, T>(deps: FullDeps) -> Seq<RpcModule<D, T>> {
    if deps.filter_pool {
        seq![
            RpcModule::EthFilter {
                max_stored_filters: MAX_STORED_FILTERS,
                max_past_logs: deps.max_past_logs,
            },
        ]
    } else {
        seq![]
    }
}

/// The `trace` module, if there is a task that answers its requests.
pub open spec fn trace_modules<D, T>(config: Option<TracingConfig<D, T>>) -> Seq<RpcModule<D, T>> {
    match config {
        Some(TracingConfig {
            tracing_requesters: RpcRequesters { debug: _, trace: Some(requester) },
            trace_filter_max_count,
        }) => seq![RpcModule::Trace { requester, max_count: trace_filter_max_count }],
        _ => seq![],
    }
}

/// The `debug` module, if there is a task that answers its requests.
pub open spec fn debug_modules<D, T>(config: Option<TracingConfig<D, T>>) -> Seq<RpcModule<D, T>> {
    match config {
        Some(TracingConfig {
            tracing_requesters: RpcRequesters { debug: Some(requester), trace: _ },
            trace_filter_max_count: _,
        }) => seq![RpcModule::Debug { requester }],
        _ => seq![],
    }
}

/// The modules that a node serves, in the order in which they are merged.
pub open spec fn rpc_modules<D, T>(
    deps: FullDeps,
    tracing_config: Option<TracingConfig<D, T>>,
) -> Seq<RpcModule<D, T>> {
    seq![
        RpcModule::System { deny_unsafe: deps.deny_unsafe },
        RpcModule::TransactionPayment,
        RpcModule::Net { peer_count_as_hex: true },
        RpcModule::Eth {
            transaction_converter: false,
            signers: 0,
            is_authority: deps.is_authority,
            fee_history_cache_limit: deps.fee_history_cache_limit,
            execute_gas_limit_multiplier: EXECUTE_GAS_LIMIT_MULTIPLIER,
        },
    ] + filter_modules(deps) + seq![RpcModule::EthPubSub, RpcModule::Web3] + trace_modules(
        tracing_config,
    ) + debug_modules(tracing_config)
}

/// The modules to merge into the server of a full node, in order.
pub fn create_full<D, T>(deps: FullDeps, tracing_config: Option<TracingConfig<D, T>>) -> (r: Vec<
    RpcModule<D, T>,
>)
    ensures
        r@ == rpc_modules(deps, tracing_config),
{
    let ghost given = tracing_config;
    let FullDeps { deny_unsafe, is_authority, filter_pool, max_past_logs, fee_history_cache_limit } =
        deps;
    let mut modules: Vec<RpcModule<D, T>> = Vec::new();
    modules.push(RpcModule::System { deny_unsafe });
    modules.push(RpcModule::TransactionPayment);
    modules.push(RpcModule::Net { peer_count_as_hex: true });
    modules.push(
        RpcModule::Eth {
            transaction_converter: false,
            signers: 0,
            is_authority,
            fee_history_cache_limit,
            execute_gas_limit_multiplier: EXECUTE_GAS_LIMIT_MULTIPLIER,
        },
    );
    if filter_pool {
        modules.push(
            RpcModule::EthFilter { max_stored_filters: MAX_STORED_FILTERS, max_past_logs },
        );
    }
    modules.push(RpcModule::EthPubSub);
    modules.push(RpcModule::Web3);
    if let Some(config) = tracing_config {
        if let Some(requester) = config.tracing_requesters.trace {
            modules.push(
                RpcModule::Trace { requester, max_count: config.trace_filter_max_count },
            );
        }
        if let Some(requester) = config.tracing_requesters.debug {
            modules.push(RpcModule::Debug { requester });
        }
    }
    assert(modules@ =~= rpc_modules(deps, given));
    modules
}

/// A position in the order of the modules, one for each group of methods.
pub open spec fn rank<D, T>(module: RpcModule<D, T>) -> int {
    match module {
        RpcModule::System { .. } => 0,
        RpcModule::TransactionPayment => 1,
        RpcModule::Net { .. } => 2,
        RpcModule::Eth { .. } => 3,
        RpcModule::EthFilter { .. } => 4,
        RpcModule::EthPubSub => 5,
        RpcModule::Web3 => 6,
        RpcModule::Trace { .. } => 7,
        RpcModule::Debug { .. } => 8,
    }
}

/// No group of methods is merged twice.
pub proof fn modules_are_merged_once<D, T>(
    deps: FullDeps,
    tracing_config: Option<TracingConfig<D, T>>,
    i: int,
    j: int,
)
    requires
        0 <= i < j < rpc_modules(deps, tracing_config).len(),
    ensures
        rank(rpc_modules(deps, tracing_config)[i]) < rank(rpc_modules(deps, tracing_config)[j]),
{
}

/// Which modules a server has: the system with the refusal of unsafe calls that is asked for, the
/// fees, the network with hexadecimal peer counts, Ethereum without signers and converter and with
/// ten times the gas limit for simulated calls; with a pool of filters, the filters, at most five
/// hundred of them; the subscriptions and web3; and a tracing module for each requester that is
/// configured. There are no others.
pub proof fn modules_follow_the_configuration<D, T>(
    deps: FullDeps,
    tracing_config: Option<TracingConfig<D, T>>,
    r: Vec<RpcModule<D, T>>,
)
    requires
        call_ensures(create_full::<D, T>, (deps, tracing_config), r),
    ensures
        ({
            let filters: int = if deps.filter_pool {
                1
            } else {
                0
            };
            let trace: int = if tracing_config is Some
                && tracing_config->0.tracing_requesters.trace is Some {
                1
            } else {
                0
            };
            let debug: int = if tracing_config is Some
                && tracing_config->0.tracing_requesters.debug is Some {
                1
            } else {
                0
            };
            let modules = r@;
            &&& modules.len() == 6 + filters + trace + debug
            &&& modules[0] == (RpcModule::<D, T>::System { deny_unsafe: deps.deny_unsafe })
            &&& modules[1] is TransactionPayment
            &&& modules[2] == (RpcModule::<D, T>::Net { peer_count_as_hex: true })
            &&& modules[3] == (RpcModule::<D, T>::Eth {
                transaction_converter: false,
                signers: 0,
                is_authority: deps.is_authority,
                fee_history_cache_limit: deps.fee_history_cache_limit,
                execute_gas_limit_multiplier: 10,
            })
            &&& deps.filter_pool ==> modules[4] == (RpcModule::<D, T>::EthFilter {
                max_stored_filters: 500,
                max_past_logs: deps.max_past_logs,
            })
            &&& modules[4 + filters] is EthPubSub
            &&& modules[5 + filters] is Web3
            &&& trace == 1 ==> modules[6 + filters] == (RpcModule::<D, T>::Trace {
                requester: tracing_config->0.tracing_requesters.trace->0,
                max_count: tracing_config->0.trace_filter_max_count,
            })
            &&& debug == 1 ==> modules[6 + filters + trace] == (RpcModule::<D, T>::Debug {
                requester: tracing_config->0.tracing_requesters.debug->0,
            })
        }),
{
}

} // verus!

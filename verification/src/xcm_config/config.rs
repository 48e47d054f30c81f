//! The fixed values of the cross-consensus configuration.
use crate::xcm_config::location::{JunctionOf, Junctions, MultiLocation, NetworkId};
use crate::xcm_config::weight::Weight;
use vstd::prelude::*;

verus! {

/// How many different assets the holding register of a message may hold.
pub const MAX_ASSETS_INTO_HOLDING: u32 = 64;

/// How many instructions a message may have.
pub const MAX_INSTRUCTIONS: u32 = 100;

/// How many lockers may lock one asset.
pub const MAX_LOCKERS: u32 = 8;

/// How many destinations may wait for the discovery of their XCM version.
pub const VERSION_DISCOVERY_QUEUE_SIZE: u32 = 100;

/// The cross-consensus configuration of the chain.
pub struct XcmConfig;

impl XcmConfig {
    /// The location of the relay chain.
    pub fn relay_location() -> (r: MultiLocation)
        ensures
            r == (MultiLocation { parents: 1, interior: Junctions::Here }),
    {
        MultiLocation::parent()
    }

    /// The network of the relay chain.
    pub fn relay_network() -> (r: NetworkId)
        ensures
            r == NetworkId::Polkadot,
    {
        NetworkId::Polkadot
    }

    /// The location of this chain within the relay chain, by its parachain id.
    pub fn universal_location(para_id: u32) -> (r: Junctions)
        ensures
            r == Junctions::X1(JunctionOf::Parachain(para_id)),
    {
        Junctions::X1(JunctionOf::Parachain(para_id))
    }

    /// The location that identifies the native asset: the pallet that keeps the balances, by its
    /// index.
    pub fn anchoring_self_reserve(balances_index: u8) -> (r: MultiLocation)
        ensures
            r == (MultiLocation {
                parents: 0,
                interior: Junctions::X1(JunctionOf::PalletInstance(balances_index)),
            }),
    {
        MultiLocation {
            parents: 0,
            interior: Junctions::X1(JunctionOf::PalletInstance(balances_index)),
        }
    }

    /// The weight of one instruction, almost certainly a conservative estimate.
    pub fn unit_weight_cost() -> (r: Weight)
        ensures
            r == (Weight { ref_time: 1_000_000_000, proof_size: 65_536 }),
    {
        Weight::from_parts(1_000_000_000, 64 * 1024)
    }
}

/// The native asset is identified by the pallet that keeps the balances, here and at no other
/// place; and pallets of different indices identify different assets.
pub proof fn native_asset_is_the_balances_pallet(
    a: u8,
    b: u8,
    r: MultiLocation,
    s: MultiLocation,
)
    requires
        call_ensures(XcmConfig::anchoring_self_reserve, (a,), r),
        call_ensures(XcmConfig::anchoring_self_reserve, (b,), s),
    ensures
        r.parents == 0,
        r.interior == Junctions::X1(JunctionOf::PalletInstance(a)),
        r == s <==> a == b,
{
}

/// Within the relay chain this chain is found by its parachain id alone.
pub proof fn chain_is_found_by_its_id(a: u32, b: u32, r: Junctions, s: Junctions)
    requires
        call_ensures(XcmConfig::universal_location, (a,), r),
        call_ensures(XcmConfig::universal_location, (b,), s),
    ensures
        r == Junctions::X1(JunctionOf::Parachain(a)),
        r == s <==> a == b,
{
}

/// The relay chain is the parent of this one, on the Polkadot network.
pub proof fn relay_chain_is_the_parent_on_polkadot(location: MultiLocation, network: NetworkId)
    requires
        call_ensures(XcmConfig::relay_location, (), location),
        call_ensures(XcmConfig::relay_network, (), network),
    ensures
        location.parents == 1,
        location.interior is Here,
        network is Polkadot,
{
}

/// Every instruction costs a billion units of computation time and sixty-four kibibytes of proof;
/// a message has at most a hundred of them, and so many destinations may wait for the discovery
/// of their version. Sixty-four assets may be held, and eight lockers may lock one.
pub proof fn limits_of_messages(cost: Weight)
    requires
        call_ensures(XcmConfig::unit_weight_cost, (), cost),
    ensures
        cost.ref_time == 1_000_000_000,
        cost.proof_size == 64 * 1024,
        MAX_INSTRUCTIONS == 100,
        VERSION_DISCOVERY_QUEUE_SIZE == 100,
        MAX_ASSETS_INTO_HOLDING == 64,
        MAX_LOCKERS == 8,
{
}

} // verus!

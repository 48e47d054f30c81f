//! Assets, and the register of assets held while a message executes.
use crate::xcm_config::location::{
    location_of, location_view_is_injective, LocationView, MultiLocation,
};
use staging_xcm::v3::AssetId as OutsideAssetId;
use staging_xcm::v3::Fungibility as OutsideFungibility;
use staging_xcm::v3::MultiAsset as OutsideAsset;
use staging_xcm::v3::MultiLocation as OutsideLocation;
use staging_xcm_executor::Assets;
use vstd::prelude::*;

verus! {

/// The class of an asset.
#[derive(Clone, Copy, Debug, PartialEq, Eq)]
pub enum AssetId {
    /// The asset that is identified by a location.
    Concrete(MultiLocation),
    /// The asset that is identified by a name.
    Abstract([u8; 32]),
}

/// An instance of a class of unique assets.
#[derive(Clone, Copy, Debug, PartialEq, Eq)]
pub enum AssetInstance {
    Undefined,
    Index(u128),
    Array4([u8; 4]),
    Array8([u8; 8]),
    Array16([u8; 16]),
    Array32([u8; 32]),
}

/// Either an amount of interchangeable units, or one unique instance.
#[derive(Clone, Copy, Debug, PartialEq, Eq)]
pub enum Fungibility {
    Fungible(u128),
    NonFungible(AssetInstance),
}

/// An amount, or an instance, of a class of assets.
#[derive(Clone, Copy, Debug, PartialEq, Eq)]
pub struct MultiAsset {
    pub id: AssetId,
    pub fun: Fungibility,
}

/// What identifies a class of assets.
pub enum AssetKey {
    Concrete(LocationView),
    Abstract([u8; 32]),
}

impl View for AssetId {
    type V = AssetKey;

    open spec fn view(&self) -> AssetKey {
        match *self {
            AssetId::Concrete(location) => AssetKey::Concrete(location@),
            AssetId::Abstract(name) => AssetKey::Abstract(name),
        }
    }
}

/// `staging_xcm_executor::Assets`, the register of assets held by an executing message.
#[verifier::external_type_specification]
#[verifier::external_body]
pub struct ExAssets(Assets);

/// The fungible assets in a `staging_xcm_executor::Assets`, each with its amount.
pub uninterp spec fn fungible_in(assets: Assets) -> Map<AssetKey, u128>;

/// The unique assets in a `staging_xcm_executor::Assets`.
pub uninterp spec fn unique_in(assets: Assets) -> Set<(AssetKey, AssetInstance)>;

/// Whether the holding covers the amount of an asset. A class that is not held at all does not
/// cover the amount zero either.
pub open spec fn covers(held: Map<AssetKey, u128>, key: AssetKey, amount: u128) -> bool {
    held.contains_key(key) && held[key] >= amount
}

/// The holding after the amount was taken out. A class of which nothing is left disappears.
pub open spec fn taken_from(held: Map<AssetKey, u128>, key: AssetKey, amount: u128) -> Map<
    AssetKey,
    u128,
> {
    if held[key] == amount {
        held.remove(key)
    } else {
        held.insert(key, (held[key] - amount) as u128)
    }
}

/// `staging_xcm_executor::Assets::checked_sub` for a fungible amount of the asset that a location
/// identifies: takes the amount out if the holding covers it, and otherwise fails and hands the
/// holding back as it was.
#[verifier::external_body]
pub(crate) fn checked_sub(held: Assets, location: OutsideLocation, amount: u128) -> (r: Result<
    Assets,
    Assets,
>)
    ensures
        r is Ok <==> covers(fungible_in(held), AssetKey::Concrete(location_of(location)), amount),
        r matches Ok(rest) ==> fungible_in(rest) == taken_from(
            fungible_in(held),
            AssetKey::Concrete(location_of(location)),
            amount,
        ) && unique_in(rest) == unique_in(held),
        r matches Err(rest) ==> rest == held,
{
    held.checked_sub(OutsideAsset {
        id: OutsideAssetId::Concrete(location),
        fun: OutsideFungibility::Fungible(amount),
    })
}

/// A class of assets is told apart from every other by its key: by the whole location, or by the
/// name.
pub proof fn keys_tell_assets_apart(a: MultiLocation, b: MultiLocation, name: [u8; 32])
    ensures
        AssetId::Concrete(a)@ == AssetKey::Concrete(
            LocationView { parents: a.parents, path: a.interior@ },
        ),
        AssetId::Abstract(name)@ == AssetKey::Abstract(name),
        AssetId::Concrete(a)@ == AssetId::Concrete(b)@ <==> a == b,
{
    if a@ == b@ {
        location_view_is_injective(a, b);
    }
}

/// Taking out an amount leaves the rest of it, and exactly what is left of other assets; a class
/// of which nothing is left is no longer held.
pub proof fn taking_out_leaves_the_rest(
    held: Map<AssetKey, u128>,
    key: AssetKey,
    amount: u128,
    other: AssetKey,
)
    requires
        held.contains_key(key),
        held[key] >= amount,
        other != key,
    ensures
        covers(held, key, amount),
        ({
            let rest = taken_from(held, key, amount);
            &&& rest.contains_key(key) <==> held[key] > amount
            &&& rest.contains_key(key) ==> rest[key] == held[key] - amount
            &&& rest.contains_key(other) <==> held.contains_key(other)
            &&& held.contains_key(other) ==> rest[other] == held[other]
        }),
{
}

/// A holding covers no more of an asset than it holds, and nothing of one that it does not hold.
pub proof fn holdings_cover_what_they_hold(
    held: Map<AssetKey, u128>,
    key: AssetKey,
    amount: u128,
)
    ensures
        !held.contains_key(key) ==> !covers(held, key, amount),
        held.contains_key(key) ==> (covers(held, key, amount) <==> amount <= held[key]),
{
}

} // verus!

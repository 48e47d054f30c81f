use staging_xcm::v3 as outside;
use staging_xcm_executor::Assets;
use storage_chain::xcm_config::account::{Account20Hash, AccountId20};
use storage_chain::xcm_config::assets::{AssetId, AssetInstance, Fungibility, MultiAsset};
use storage_chain::xcm_config::barrier::{
    DenyReserveTransferToRelayChain, DenyThenTry, Instruction, ParentOrParentsExecutivePlurality,
    ShouldExecute,
};
use storage_chain::xcm_config::config::XcmConfig;
use storage_chain::xcm_config::dispatch::{Call, Caller, DispatchOrigin, XcmCallDispatcher};
use storage_chain::xcm_config::location::{
    BodyId, BodyPart, Junction, Junctions, MultiLocation, NetworkId,
};
use storage_chain::xcm_config::trader::{Deposit, LocalAssetTrader, ToTreasury, XcmError};
use storage_chain::xcm_config::weight::{ConstantMultiplier, Weight, WeightToFee};

const GIGAWEI: u128 = 1_000_000_000;

type Trader = LocalAssetTrader<ConstantMultiplier<GIGAWEI>>;

fn location(parents: u8, interior: Junctions) -> MultiLocation {
    MultiLocation { parents, interior }
}

fn weight(ref_time: u64, proof_size: u64) -> Weight {
    Weight { ref_time, proof_size }
}

fn native() -> MultiLocation {
    XcmConfig::anchoring_self_reserve(10)
}

fn payment(amount: u128) -> Assets {
    let native = outside::MultiLocation::new(
        0,
        outside::Junctions::X1(outside::Junction::PalletInstance(10)),
    );
    let other = outside::MultiLocation::new(1, outside::Junctions::Here);
    Assets::from(vec![
        outside::MultiAsset {
            id: outside::AssetId::Concrete(native),
            fun: outside::Fungibility::Fungible(amount),
        },
        outside::MultiAsset {
            id: outside::AssetId::Concrete(other),
            fun: outside::Fungibility::Fungible(77),
        },
    ])
}

fn native_amount(amount: u128) -> MultiAsset {
    MultiAsset { id: AssetId::Concrete(native()), fun: Fungibility::Fungible(amount) }
}

#[test]
fn locations_keep_parents_and_steps() {
    let steps = Junctions::X8(
        Junction::Parachain(2000),
        Junction::AccountId32 { network: Some(NetworkId::ByGenesis([1; 32])), id: [2; 32] },
        Junction::AccountIndex64 { network: None, index: 3 },
        Junction::AccountKey20 {
            network: Some(NetworkId::Ethereum { chain_id: 4 }),
            key: [5; 20],
        },
        Junction::GeneralIndex(6),
        Junction::GeneralKey { length: 7, data: [8; 32] },
        Junction::Plurality {
            id: BodyId::Moniker([9; 4]),
            part: BodyPart::Fraction { nom: 1, denom: 2 },
        },
        Junction::GlobalConsensus(NetworkId::ByFork { block_number: 3, block_hash: [4; 32] }),
    );
    assert_eq!(
        location(3, steps).to_outside(),
        outside::MultiLocation {
            parents: 3,
            interior: outside::Junctions::X8(
                outside::Junction::Parachain(2000),
                outside::Junction::AccountId32 {
                    network: Some(outside::NetworkId::ByGenesis([1; 32])),
                    id: [2; 32],
                },
                outside::Junction::AccountIndex64 { network: None, index: 3 },
                outside::Junction::AccountKey20 {
                    network: Some(outside::NetworkId::Ethereum { chain_id: 4 }),
                    key: [5; 20],
                },
                outside::Junction::GeneralIndex(6),
                outside::Junction::GeneralKey { length: 7, data: [8; 32] },
                outside::Junction::Plurality {
                    id: outside::BodyId::Moniker([9; 4]),
                    part: outside::BodyPart::Fraction { nom: 1, denom: 2 },
                },
                outside::Junction::GlobalConsensus(outside::NetworkId::ByFork {
                    block_number: 3,
                    block_hash: [4; 32],
                }),
            ),
        }
    );
    assert_eq!(MultiLocation::parent().to_outside(), outside::MultiLocation::parent());
}

#[test]
fn networks_bodies_and_parts_keep_their_names() {
    let networks = [
        (NetworkId::Polkadot, outside::NetworkId::Polkadot),
        (NetworkId::Kusama, outside::NetworkId::Kusama),
        (NetworkId::Westend, outside::NetworkId::Westend),
        (NetworkId::Rococo, outside::NetworkId::Rococo),
        (NetworkId::Wococo, outside::NetworkId::Wococo),
        (NetworkId::BitcoinCore, outside::NetworkId::BitcoinCore),
        (NetworkId::BitcoinCash, outside::NetworkId::BitcoinCash),
    ];
    for (ours, theirs) in networks {
        assert_eq!(
            location(0, Junctions::X1(Junction::GlobalConsensus(ours))).to_outside().interior,
            outside::Junctions::X1(outside::Junction::GlobalConsensus(theirs))
        );
    }
    let bodies = [
        (BodyId::Unit, outside::BodyId::Unit),
        (BodyId::Index(1), outside::BodyId::Index(1)),
        (BodyId::Executive, outside::BodyId::Executive),
        (BodyId::Technical, outside::BodyId::Technical),
        (BodyId::Legislative, outside::BodyId::Legislative),
        (BodyId::Judicial, outside::BodyId::Judicial),
        (BodyId::Defense, outside::BodyId::Defense),
        (BodyId::Administration, outside::BodyId::Administration),
        (BodyId::Treasury, outside::BodyId::Treasury),
    ];
    let parts = [
        (BodyPart::Voice, outside::BodyPart::Voice),
        (BodyPart::Members { count: 5 }, outside::BodyPart::Members { count: 5 }),
        (
            BodyPart::AtLeastProportion { nom: 1, denom: 3 },
            outside::BodyPart::AtLeastProportion { nom: 1, denom: 3 },
        ),
        (
            BodyPart::MoreThanProportion { nom: 2, denom: 3 },
            outside::BodyPart::MoreThanProportion { nom: 2, denom: 3 },
        ),
    ];
    for (our_id, their_id) in bodies {
        for (our_part, their_part) in parts {
            let ours = Junction::Plurality { id: our_id, part: our_part };
            let theirs = outside::Junction::Plurality { id: their_id, part: their_part };
            assert_eq!(
                location(1, Junctions::X2(Junction::OnlyChild, ours)).to_outside().interior,
                outside::Junctions::X2(outside::Junction::OnlyChild, theirs)
            );
        }
    }
}

#[test]
fn account_of_a_location_is_cut_from_the_digest() {
    // SCALE: the tag as a compact length and its bytes, then one parent and an empty interior.
    let mut encoded = vec![8 << 2];
    encoded.extend_from_slice(b"multiloc");
    encoded.extend_from_slice(&[1, 0]);
    let digest = sp_core::hashing::blake2_256(&encoded);
    let account = Account20Hash::convert_ref(&MultiLocation::parent()).unwrap();
    assert_eq!(account.0, digest[..20]);
}

#[test]
fn account_of_a_sibling_parachain() {
    let sibling = location(1, Junctions::X1(Junction::Parachain(2000)));
    let mut encoded = vec![8 << 2];
    encoded.extend_from_slice(b"multiloc");
    // One parent, one junction, a parachain, and its id as a two-byte compact number.
    encoded.extend_from_slice(&[1, 1, 0, 0x41, 0x1f]);
    let digest = sp_core::hashing::blake2_256(&encoded);
    assert_eq!(Account20Hash::convert_ref(&sibling).unwrap().0, digest[..20]);
}

#[test]
fn account_of_a_digest_is_its_beginning() {
    let mut digest = [0u8; 32];
    for i in 0..32 {
        digest[i] = i as u8 + 1;
    }
    assert_eq!(Account20Hash::account_of_digest(digest).0, digest[..20]);
}

#[test]
fn accounts_do_not_lead_back_to_locations() {
    assert_eq!(Account20Hash::reverse_ref(&AccountId20([1; 20])), Err(()));
}

fn denied(message: &mut [Instruction]) -> bool {
    let mut credit = weight(5, 5);
    let before = message.to_vec();
    let result = DenyReserveTransferToRelayChain::should_execute(
        &MultiLocation::parent(),
        message,
        weight(1, 1),
        &mut credit,
    );
    assert_eq!(message.to_vec(), before);
    assert_eq!(credit, weight(5, 5));
    result == Err(())
}

#[test]
fn reserve_transfers_to_the_relay_chain_are_denied() {
    let relay = MultiLocation::parent();
    assert!(denied(&mut [Instruction::InitiateReserveWithdraw { reserve: relay }]));
    assert!(denied(&mut [Instruction::DepositReserveAsset { dest: relay }]));
    assert!(denied(&mut [
        Instruction::Other,
        Instruction::TransferReserveAsset { dest: relay },
        Instruction::Other,
    ]));
}

#[test]
fn everything_else_passes_the_reserve_rule() {
    let sibling = location(1, Junctions::X1(Junction::Parachain(1)));
    let here = location(0, Junctions::Here);
    let grandparent = location(2, Junctions::Here);
    assert!(!denied(&mut []));
    assert!(!denied(&mut [Instruction::ReserveAssetDeposited, Instruction::Other]));
    assert!(!denied(&mut [
        Instruction::InitiateReserveWithdraw { reserve: sibling },
        Instruction::DepositReserveAsset { dest: here },
        Instruction::TransferReserveAsset { dest: grandparent },
    ]));
}

#[test]
fn unexpected_deposits_from_the_relay_chain_are_noticed() {
    let message = [Instruction::Other, Instruction::ReserveAssetDeposited];
    let notice = DenyReserveTransferToRelayChain::is_unexpected_reserve_deposit;
    assert!(notice(&MultiLocation::parent(), &message));
    assert!(!notice(&MultiLocation::parent(), &message[..1]));
    assert!(!notice(&location(1, Junctions::X1(Junction::Parachain(1))), &message));
}

type Twice = DenyThenTry<DenyReserveTransferToRelayChain, DenyReserveTransferToRelayChain>;

#[test]
fn what_is_denied_does_not_execute() {
    let mut credit = weight(9, 9);
    let mut bad = [Instruction::DepositReserveAsset { dest: MultiLocation::parent() }];
    assert_eq!(
        Twice::should_execute(&MultiLocation::parent(), &mut bad, weight(1, 1), &mut credit),
        Err(())
    );
    assert_eq!(credit, weight(9, 9));
    assert_eq!(bad, [Instruction::DepositReserveAsset { dest: MultiLocation::parent() }]);
}

#[test]
fn what_is_not_denied_and_allowed_executes() {
    let mut credit = weight(9, 9);
    let mut good = [Instruction::ReserveAssetDeposited, Instruction::Other];
    assert_eq!(
        Twice::should_execute(&MultiLocation::parent(), &mut good, weight(1, 1), &mut credit),
        Ok(())
    );
    assert_eq!(credit, weight(9, 9));
    assert_eq!(good, [Instruction::ReserveAssetDeposited, Instruction::Other]);
}

#[test]
fn relay_chain_and_its_executive_body() {
    let plurality = |id: BodyId| {
        Junctions::X1(Junction::Plurality { id, part: BodyPart::Members { count: 3 } })
    };
    let contains = |l: MultiLocation| ParentOrParentsExecutivePlurality::contains(&l);
    assert!(contains(MultiLocation::parent()));
    assert!(contains(location(1, plurality(BodyId::Executive))));
    assert!(!contains(location(1, plurality(BodyId::Technical))));
    assert!(!contains(location(0, plurality(BodyId::Executive))));
    assert!(!contains(location(0, Junctions::Here)));
    assert!(!contains(location(1, Junctions::X1(Junction::Parachain(1)))));
}

#[test]
fn weight_arithmetic() {
    let most = weight(u64::MAX, 1);
    assert_eq!(most.saturating_add(weight(1, 1)), weight(u64::MAX, 2));
    assert_eq!(weight(3, 9).min(weight(5, 2)), weight(3, 2));
    assert_eq!(weight(3, 9).subtract(weight(1, 9)), weight(2, 0));
    assert_eq!(Weight::zero(), Weight::from_parts(0, 0));
}

#[test]
fn fees_follow_computation_time() {
    assert_eq!(
        ConstantMultiplier::<GIGAWEI>::weight_to_fee(&weight(1_000_000_000, 65_536)),
        1_000_000_000_000_000_000
    );
    assert_eq!(ConstantMultiplier::<{ u128::MAX }>::weight_to_fee(&weight(2, 0)), u128::MAX);
}

#[test]
fn buying_weight_takes_the_price() {
    let mut trader = Trader::new(native());
    let bought = trader.buy_weight(weight(3, 4), payment(5 * GIGAWEI)).ok().unwrap();
    assert_eq!(bought.unused, payment(2 * GIGAWEI));
    assert_eq!(bought.revenue, native_amount(3 * GIGAWEI));
    assert_eq!(trader.weight, weight(3, 4));
    assert_eq!(trader.fees, 3 * GIGAWEI);
    assert_eq!(trader.drop(), 3 * GIGAWEI);
}

#[test]
fn buying_weight_with_the_exact_price_uses_the_asset_up() {
    let mut trader = Trader::new(native());
    let bought = trader.buy_weight(weight(3, 4), payment(3 * GIGAWEI)).ok().unwrap();
    assert_eq!(bought.unused.fungible.len(), 1);
}

#[test]
fn too_little_payment_buys_nothing() {
    let mut trader = Trader::new(native());
    assert_eq!(
        trader.buy_weight(weight(3, 4), payment(3 * GIGAWEI - 1)).err(),
        Some(XcmError::TooExpensive)
    );
    assert_eq!(trader.weight, weight(0, 0));
    assert_eq!(trader.fees, 0);
}

#[test]
fn another_asset_buys_nothing_even_at_no_price() {
    let mut trader = Trader::new(native());
    assert_eq!(
        trader.buy_weight(weight(0, 4), Assets::new()).err(),
        Some(XcmError::TooExpensive)
    );
    let mut other = Trader::new(MultiLocation::parent());
    assert_eq!(
        other.buy_weight(weight(1, 0), payment(5 * GIGAWEI)).err(),
        Some(XcmError::TooExpensive)
    );
}

#[test]
fn refund_gives_back_what_was_bought() {
    let mut trader = Trader::new(native());
    assert!(trader.buy_weight(weight(1, 1), payment(9 * GIGAWEI)).is_ok());
    assert!(trader.buy_weight(weight(3, 4), payment(9 * GIGAWEI)).is_ok());
    assert_eq!(trader.refund_weight(weight(3, 4)), Some(native_amount(3 * GIGAWEI)));
    assert_eq!(trader.weight, weight(1, 1));
    assert_eq!(trader.fees, GIGAWEI);
}

#[test]
fn refund_is_limited_to_what_was_bought() {
    let mut trader = Trader::new(native());
    assert!(trader.buy_weight(weight(3, 4), payment(9 * GIGAWEI)).is_ok());
    assert_eq!(trader.refund_weight(weight(100, 1)), Some(native_amount(3 * GIGAWEI)));
    assert_eq!(trader.weight, weight(0, 3));
    assert_eq!(trader.refund_weight(weight(100, 100)), None);
    assert_eq!(trader.weight, weight(0, 0));
    assert_eq!(trader.drop(), 0);
}

#[test]
fn revenue_of_a_concrete_asset_goes_to_the_treasury() {
    let treasury = AccountId20([7; 20]);
    assert_eq!(
        ToTreasury::take_revenue(native_amount(5), treasury),
        Some(Deposit { account: treasury, amount: 5 })
    );
}

#[test]
fn other_revenue_is_not_deposited() {
    let treasury = AccountId20([7; 20]);
    let named = MultiAsset { id: AssetId::Abstract([1; 32]), fun: Fungibility::Fungible(5) };
    let unique = MultiAsset {
        id: AssetId::Concrete(native()),
        fun: Fungibility::NonFungible(AssetInstance::Index(1)),
    };
    assert_eq!(ToTreasury::take_revenue(named, treasury), None);
    assert_eq!(ToTreasury::take_revenue(unique, treasury), None);
}

#[test]
fn ethereum_transactions_of_signed_callers_change_their_origin() {
    let signed = Caller::Signed(AccountId20([3; 20]));
    let dispatch = XcmCallDispatcher::dispatch;
    assert_eq!(
        dispatch(Call::EthereumXcmTransact, signed),
        DispatchOrigin::XcmEthereumTransaction([3; 20])
    );
    assert_eq!(dispatch(Call::Other, signed), DispatchOrigin::Given);
    assert_eq!(dispatch(Call::EthereumXcmTransact, Caller::Root), DispatchOrigin::Given);
    assert_eq!(dispatch(Call::EthereumXcmTransact, Caller::Nobody), DispatchOrigin::Given);
    assert_eq!(dispatch(Call::EthereumXcmTransact, Caller::Pallet), DispatchOrigin::Given);
}

#[test]
fn fixed_configuration() {
    assert_eq!(XcmConfig::relay_location(), MultiLocation::parent());
    assert_eq!(XcmConfig::relay_network(), NetworkId::Polkadot);
    assert_eq!(XcmConfig::universal_location(2000), Junctions::X1(Junction::Parachain(2000)));
    assert_eq!(XcmConfig::unit_weight_cost(), weight(1_000_000_000, 64 * 1024));
}

#[test]
fn dealings_keep_the_trader_covered() {
    let mut trader = Trader::new(native());
    let mut paid = 0;
    let mut refunded = 0;
    for (bought, back) in [(5, 2), (7, 20), (1, 0), (9, 3)] {
        assert!(trader.buy_weight(weight(bought, bought), payment(100 * GIGAWEI)).is_ok());
        paid += bought as u128 * GIGAWEI;
        if let Some(refund) = trader.refund_weight(weight(back, back)) {
            if let Fungibility::Fungible(amount) = refund.fun {
                refunded += amount;
            }
        }
        assert_eq!(trader.fees, paid - refunded);
        assert_eq!(trader.fees, trader.weight.ref_time as u128 * GIGAWEI);
    }
    assert_eq!(refunded, (2 + 10 + 0 + 3) * GIGAWEI);
}

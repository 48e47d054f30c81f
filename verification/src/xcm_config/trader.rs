//! The weight trader: sells execution weight for the native asset and takes unused weight back.
use crate::xcm_config::account::AccountId20;
use crate::xcm_config::assets::{
    checked_sub, covers, fungible_in, taken_from, unique_in, AssetId, AssetKey, Fungibility, MultiAsset,
};
use crate::xcm_config::location::MultiLocation;
use crate::xcm_config::weight::{Balance, ConstantMultiplier, Weight, WeightToFee};
use core::marker::PhantomData;
use staging_xcm_executor::Assets;
use vstd::arithmetic::mul::{
    lemma_mul_inequality, lemma_mul_is_distributive_add_other_way,
    lemma_mul_is_distributive_sub_other_way,
};
use vstd::prelude::*;

verus! {

/// Why a purchase of weight fails.
#[derive(Clone, Copy, Debug, PartialEq, Eq)]
pub enum XcmError {
    /// The payment does not cover the price.
    TooExpensive,
}

/// A completed purchase of weight.
pub struct Purchase {
    /// What is left of the payment.
    pub unused: Assets,
    /// The price, which goes to whoever takes the revenue.
    pub revenue: MultiAsset,
}

/// Sells weight at the prices of `F`, payable in one asset.
pub struct LocalAssetTrader<F> {
    /// The weight that was bought and not given back.
    pub weight: Weight,
    /// What was paid for it.
    pub fees: Balance,
    /// The location that identifies the asset.
    pub asset: MultiLocation,
    /// The price list.
    pub prices: PhantomData<F>,
}

/// `a + b`, or the largest balance if the sum is larger.
pub open spec fn saturated_balance_sum(a: Balance, b: Balance) -> Balance {
    if a + b > u128::MAX {
        u128::MAX
    } else {
        (a + b) as u128
    }
}

/// `a - b`, or zero if `b` is larger.
pub open spec fn saturated_balance_difference(a: Balance, b: Balance) -> Balance {
    if a < b {
        0
    } else {
        (a - b) as u128
    }
}

impl<F: WeightToFee> LocalAssetTrader<F> {
    /// The state of a trader that has sold nothing.
    pub open spec fn fresh(asset: MultiLocation) -> Self {
        LocalAssetTrader {
            weight: Weight { ref_time: 0, proof_size: 0 },
            fees: 0,
            asset,
            prices: PhantomData,
        }
    }

    /// An amount of the asset in which this trader deals.
    pub open spec fn amount_of_asset(self, amount: Balance) -> MultiAsset {
        MultiAsset { id: AssetId::Concrete(self.asset), fun: Fungibility::Fungible(amount) }
    }

    /// The state after a purchase.
    pub open spec fn after_purchase(self, weight: Weight) -> Self {
        LocalAssetTrader {
            weight: self.weight.plus(weight),
            fees: saturated_balance_sum(self.fees, F::fee_of(weight)),
            asset: self.asset,
            prices: self.prices,
        }
    }

    /// What a refund of a weight pays back: the price of as much of it as was bought.
    pub open spec fn refund_of(self, weight: Weight) -> Balance {
        F::fee_of(weight.meet(self.weight))
    }

    /// The state after a refund.
    pub open spec fn after_refund(self, weight: Weight) -> Self {
        LocalAssetTrader {
            weight: self.weight.minus(weight.meet(self.weight)),
            fees: saturated_balance_difference(self.fees, self.refund_of(weight)),
            asset: self.asset,
            prices: self.prices,
        }
    }

    /// A trader that has sold nothing yet, dealing in the asset that a location identifies.
    pub fn new(asset: MultiLocation) -> (r: Self)
        ensures
            r == Self::fresh(asset),
    {
        LocalAssetTrader { weight: Weight::zero(), fees: 0, asset, prices: PhantomData }
    }

    /// Sells weight. The price is taken out of the payment; a payment that does not cover it buys
    /// nothing and changes nothing.
    pub fn buy_weight(&mut self, weight: Weight, payment: Assets) -> (r: Result<Purchase, XcmError>)
        ensures
            r is Ok <==> covers(
                fungible_in(payment),
                AssetId::Concrete(old(self).asset)@,
                F::fee_of(weight),
            ),
            r matches Ok(purchase) ==> {
                &&& fungible_in(purchase.unused) == taken_from(
                    fungible_in(payment),
                    AssetId::Concrete(old(self).asset)@,
                    F::fee_of(weight),
                )
                &&& unique_in(purchase.unused) == unique_in(payment)
                &&& purchase.revenue == old(self).amount_of_asset(F::fee_of(weight))
                &&& *final(self) == old(self).after_purchase(weight)
            },
            r matches Err(e) ==> e == XcmError::TooExpensive && *final(self) == *old(self),
            r is Ok <==> fungible_in(payment).contains_key(AssetKey::Concrete(old(self).asset@))
                && fungible_in(payment)[AssetKey::Concrete(old(self).asset@)] >= F::fee_of(weight),
            r matches Ok(purchase) ==> {
                &&& purchase.revenue.id == AssetId::Concrete(old(self).asset)
                &&& purchase.revenue.fun == Fungibility::Fungible(F::fee_of(weight))
                &&& final(self).asset == old(self).asset
                &&& old(self).fees + F::fee_of(weight) <= u128::MAX ==> final(self).fees
                    == old(self).fees + F::fee_of(weight)
                &&& old(self).weight.ref_time + weight.ref_time <= u64::MAX
                    ==> final(self).weight.ref_time == old(self).weight.ref_time + weight.ref_time
                &&& old(self).weight.proof_size + weight.proof_size <= u64::MAX
                    ==> final(self).weight.proof_size == old(self).weight.proof_size + weight.proof_size
            },
    {
        let amount = F::weight_to_fee(&weight);
        match checked_sub(payment, self.asset.to_outside(), amount) {
            Ok(unused) => {
                self.weight = self.weight.saturating_add(weight);
                self.fees = self.fees.saturating_add(amount);
                Ok(
                    Purchase {
                        unused,
                        revenue: MultiAsset {
                            id: AssetId::Concrete(self.asset),
                            fun: Fungibility::Fungible(amount),
                        },
                    },
                )
            },
            Err(_) => Err(XcmError::TooExpensive),
        }
    }

    /// Takes weight back, at most as much as was bought, and says what is paid for it.
    pub fn refund_weight(&mut self, weight: Weight) -> (r: Option<MultiAsset>)
        ensures
            r == (if old(self).refund_of(weight) > 0 {
                Some(old(self).amount_of_asset(old(self).refund_of(weight)))
            } else {
                None
            }),
            *final(self) == old(self).after_refund(weight),
            ({
                let back = Weight {
                    ref_time: (old(self).weight.ref_time - final(self).weight.ref_time) as u64,
                    proof_size: (old(self).weight.proof_size - final(self).weight.proof_size)
                        as u64,
                };
                &&& back.ref_time <= weight.ref_time && back.proof_size <= weight.proof_size
                &&& back.ref_time == weight.ref_time || final(self).weight.ref_time == 0
                &&& back.proof_size == weight.proof_size || final(self).weight.proof_size == 0
                &&& F::fee_of(back) == 0 <==> r is None
                &&& r matches Some(refund) ==> refund.id == AssetId::Concrete(old(self).asset)
                    && refund.fun == Fungibility::Fungible(F::fee_of(back))
                &&& final(self).asset == old(self).asset
                &&& F::fee_of(back) <= old(self).fees ==> final(self).fees == old(self).fees
                    - F::fee_of(back)
                &&& F::fee_of(back) > old(self).fees ==> final(self).fees == 0
            }),
    {
        let weight = weight.min(self.weight);
        let amount = F::weight_to_fee(&weight);
        self.weight = self.weight.subtract(weight);
        self.fees = self.fees.saturating_sub(amount);
        if amount > 0 {
            Some(
                MultiAsset {
                    id: AssetId::Concrete(self.asset),
                    fun: Fungibility::Fungible(amount),
                },
            )
        } else {
            None
        }
    }

    /// Ends the trade. The result is the amount to be issued to whoever receives the fees.
    pub fn drop(self) -> (r: Balance)
        ensures
            r == self.fees,
    {
        self.fees
    }
}

/// A deposit to an account, which is created if need be.
#[derive(Clone, Copy, Debug, PartialEq, Eq)]
pub struct Deposit {
    pub account: AccountId20,
    pub amount: Balance,
}

/// Sends revenue to the treasury.
pub struct ToTreasury;

impl ToTreasury {
    /// The deposit that revenue leads to: an amount of a concrete asset goes to the treasury, and
    /// any other revenue leads to none.
    pub open spec fn deposit_of(revenue: MultiAsset, treasury: AccountId20) -> Option<Deposit> {
        match (revenue.id, revenue.fun) {
            (AssetId::Concrete(_), Fungibility::Fungible(amount)) => Some(
                Deposit { account: treasury, amount },
            ),
            _ => None,
        }
    }

    /// The deposit that revenue leads to.
    pub fn take_revenue(revenue: MultiAsset, treasury: AccountId20) -> (r: Option<Deposit>)
        ensures
            r == Self::deposit_of(revenue, treasury),
    {
        match (revenue.id, revenue.fun) {
            (AssetId::Concrete(_), Fungibility::Fungible(amount)) => Some(
                Deposit { account: treasury, amount },
            ),
            _ => None,
        }
    }
}

/// Whether a multiplier is small enough for every weight to have its exact price.
pub open spec fn prices_exactly(multiplier: u128) -> bool {
    multiplier * u64::MAX <= u128::MAX
}

proof fn lemma_exact_fee<const M: u128>(weight: Weight)
    requires
        prices_exactly(M),
    ensures
        ConstantMultiplier::<M>::fee_of(weight) == weight.ref_time * M,
{
    lemma_mul_inequality(weight.ref_time as int, u64::MAX as int, M as int);
    assert(u64::MAX * M == M * u64::MAX) by (nonlinear_arith);
}

/// How much of a class of assets is held.
pub open spec fn amount_held(held: Map<AssetKey, u128>, key: AssetKey) -> int {
    if held.contains_key(key) {
        held[key] as int
    } else {
        0
    }
}

/// A purchase splits the payment: the price and what is left of the asset make up what was paid
/// in, and every other asset is left as it was.
pub proof fn purchase_splits_the_payment(
    payment: Map<AssetKey, u128>,
    key: AssetKey,
    price: Balance,
    other: AssetKey,
)
    requires
        covers(payment, key, price),
        other != key,
    ensures
        amount_held(taken_from(payment, key, price), key) + price == amount_held(payment, key),
        amount_held(taken_from(payment, key, price), other) == amount_held(payment, other),
{
}

/// The whole price of a purchase is deposited to the treasury.
pub proof fn treasury_receives_the_price<F: WeightToFee>(
    trader: LocalAssetTrader<F>,
    weight: Weight,
    treasury: AccountId20,
)
    ensures
        ToTreasury::deposit_of(trader.amount_of_asset(F::fee_of(weight)), treasury) == Some(
            Deposit { account: treasury, amount: F::fee_of(weight) },
        ),
{
}

/// Giving back what was just bought pays back its price and leaves the trader as it was, unless
/// the purchase ran into the largest weight or the largest balance.
pub proof fn refund_undoes_purchase<F: WeightToFee>(trader: LocalAssetTrader<F>, weight: Weight)
    requires
        trader.weight.ref_time + weight.ref_time <= u64::MAX,
        trader.weight.proof_size + weight.proof_size <= u64::MAX,
        trader.fees + F::fee_of(weight) <= u128::MAX,
    ensures
        trader.after_purchase(weight).refund_of(weight) == F::fee_of(weight),
        trader.after_purchase(weight).after_refund(weight) == trader,
{
    assert(weight.meet(trader.weight.plus(weight)) == weight);
    assert(trader.weight.plus(weight).minus(weight) == trader.weight);
}

/// Asking for more back than was bought gives everything back and no more.
pub proof fn refund_is_capped<F: WeightToFee>(trader: LocalAssetTrader<F>, weight: Weight)
    requires
        trader.weight.within(weight),
    ensures
        trader.refund_of(weight) == F::fee_of(trader.weight),
        trader.after_refund(weight).weight == (Weight { ref_time: 0, proof_size: 0 }),
{
    assert(weight.meet(trader.weight) == trader.weight);
}

/// The fees that the trader holds cover the price of the weight that it has outstanding.
pub open spec fn is_covered<const M: u128>(
    trader: LocalAssetTrader<ConstantMultiplier<M>>,
) -> bool {
    ConstantMultiplier::<M>::fee_of(trader.weight) <= trader.fees
}

/// A new trader is covered, purchases and refunds keep it so, and no refund pays out more than
/// the fees that are held.
pub proof fn trader_stays_covered<const M: u128>(
    trader: LocalAssetTrader<ConstantMultiplier<M>>,
    weight: Weight,
)
    requires
        prices_exactly(M),
        is_covered(trader),
    ensures
        is_covered(LocalAssetTrader::<ConstantMultiplier<M>>::fresh(trader.asset)),
        is_covered(trader.after_purchase(weight)),
        is_covered(trader.after_refund(weight)),
        trader.refund_of(weight) <= trader.fees,
        trader.after_refund(weight).fees == trader.fees - trader.refund_of(weight),
{
    let held = trader.weight.ref_time;
    let m = M as int;
    lemma_exact_fee::<M>(trader.weight);
    lemma_exact_fee::<M>(weight);
    lemma_exact_fee::<M>(LocalAssetTrader::<ConstantMultiplier<M>>::fresh(trader.asset).weight);
    let bought = trader.after_purchase(weight);
    lemma_exact_fee::<M>(bought.weight);
    lemma_mul_inequality(bought.weight.ref_time as int, held + weight.ref_time, m);
    lemma_mul_is_distributive_add_other_way(m, held as int, weight.ref_time as int);
    let back = weight.meet(trader.weight);
    let refunded = trader.after_refund(weight);
    lemma_exact_fee::<M>(back);
    lemma_exact_fee::<M>(refunded.weight);
    lemma_mul_inequality(back.ref_time as int, held as int, m);
    lemma_mul_is_distributive_sub_other_way(m, held as int, back.ref_time as int);
}

/// A dealing with the trader that succeeded.
pub enum Dealing {
    Purchase(Weight),
    Refund(Weight),
}

/// The state that a series of dealings leads to, from a new trader.
pub open spec fn state_after<F: WeightToFee>(
    asset: MultiLocation,
    dealings: Seq<Dealing>,
) -> LocalAssetTrader<F>
    decreases dealings.len(),
{
    if dealings.len() == 0 {
        LocalAssetTrader::<F>::fresh(asset)
    } else {
        let before = state_after::<F>(asset, dealings.drop_last());
        match dealings.last() {
            Dealing::Purchase(weight) => before.after_purchase(weight),
            Dealing::Refund(weight) => before.after_refund(weight),
        }
    }
}

/// The sum of the prices that were paid in a series of dealings.
pub open spec fn total_paid<F: WeightToFee>(dealings: Seq<Dealing>) -> int
    decreases dealings.len(),
{
    if dealings.len() == 0 {
        0
    } else {
        total_paid::<F>(dealings.drop_last()) + match dealings.last() {
            Dealing::Purchase(weight) => F::fee_of(weight) as int,
            Dealing::Refund(_) => 0,
        }
    }
}

/// The sum of the refunds that were paid out in a series of dealings.
pub open spec fn total_refunded<F: WeightToFee>(asset: MultiLocation, dealings: Seq<Dealing>) -> int
    decreases dealings.len(),
{
    if dealings.len() == 0 {
        0
    } else {
        let before = state_after::<F>(asset, dealings.drop_last());
        total_refunded::<F>(asset, dealings.drop_last()) + match dealings.last() {
            Dealing::Purchase(_) => 0,
            Dealing::Refund(weight) => before.refund_of(weight) as int,
        }
    }
}

/// Over any series of dealings, no more is paid out in refunds than was paid in; and as long as
/// the payments together fit a balance, the trader holds exactly the difference at the end.
pub proof fn refunds_never_exceed_payments<const M: u128>(
    asset: MultiLocation,
    dealings: Seq<Dealing>,
)
    requires
        prices_exactly(M),
    ensures
        ({
            let end = state_after::<ConstantMultiplier<M>>(asset, dealings);
            let paid = total_paid::<ConstantMultiplier<M>>(dealings);
            let refunded = total_refunded::<ConstantMultiplier<M>>(asset, dealings);
            &&& is_covered(end)
            &&& end.asset == asset
            &&& 0 <= refunded <= paid
            &&& end.fees <= paid - refunded
            &&& paid <= u128::MAX ==> end.fees == paid - refunded
        }),
    decreases dealings.len(),
{
    if dealings.len() == 0 {
        let nothing = Weight { ref_time: 0, proof_size: 0 };
        lemma_exact_fee::<M>(nothing);
        assert(nothing.ref_time * M == 0) by (nonlinear_arith)
            requires
                nothing.ref_time == 0,
        ;
    } else {
        refunds_never_exceed_payments::<M>(asset, dealings.drop_last());
        let before = state_after::<ConstantMultiplier<M>>(asset, dealings.drop_last());
        match dealings.last() {
            Dealing::Purchase(weight) => {
                trader_stays_covered::<M>(before, weight);
            },
            Dealing::Refund(weight) => {
                trader_stays_covered::<M>(before, weight);
            },
        }
    }
}

/// Whether the sum of two weights is a weight.
pub open spec fn fits_together(a: Weight, b: Weight) -> bool {
    a.ref_time + b.ref_time <= u64::MAX && a.proof_size + b.proof_size <= u64::MAX
}

/// Whether a price list is additive: nothing costs nothing, and two weights together cost what
/// they cost one by one, up to the largest balance.
pub open spec fn is_additive<F: WeightToFee>() -> bool {
    &&& F::fee_of(Weight { ref_time: 0, proof_size: 0 }) == 0
    &&& forall|a: Weight, b: Weight|
        fits_together(a, b) ==> #[trigger] F::fee_of(a.plus(b)) == saturated_balance_sum(
            F::fee_of(a),
            F::fee_of(b),
        )
}

/// Whether a dealing stays within the largest weight and the largest balance: the weight that is
/// bought fits to the one that is outstanding and its price to the fees, and the prices of the
/// two parts into which a refund splits the outstanding weight sum up to a balance.
pub open spec fn is_unsaturated<F: WeightToFee>(
    before: LocalAssetTrader<F>,
    dealing: Dealing,
) -> bool {
    match dealing {
        Dealing::Purchase(weight) => {
            &&& fits_together(before.weight, weight)
            &&& before.fees + F::fee_of(weight) <= u128::MAX
        },
        Dealing::Refund(weight) => {
            let back = weight.meet(before.weight);
            F::fee_of(before.weight.minus(back)) + F::fee_of(back) <= u128::MAX
        },
    }
}

/// Whether nothing saturates in a series of dealings.
pub open spec fn never_saturates<F: WeightToFee>(
    asset: MultiLocation,
    dealings: Seq<Dealing>,
) -> bool
    decreases dealings.len(),
{
    dealings.len() > 0 ==> {
        &&& never_saturates::<F>(asset, dealings.drop_last())
        &&& is_unsaturated(state_after::<F>(asset, dealings.drop_last()), dealings.last())
    }
}

/// Every constant multiplier is additive.
pub proof fn constant_multiplier_is_additive<const M: u128>()
    ensures
        is_additive::<ConstantMultiplier<M>>(),
{
    assert forall|a: Weight, b: Weight| fits_together(a, b) implies #[trigger] ConstantMultiplier::<
        M,
    >::fee_of(a.plus(b)) == saturated_balance_sum(
        ConstantMultiplier::<M>::fee_of(a),
        ConstantMultiplier::<M>::fee_of(b),
    ) by {
        lemma_mul_is_distributive_add_other_way(M as int, a.ref_time as int, b.ref_time as int);
        lemma_mul_inequality(0, a.ref_time as int, M as int);
        lemma_mul_inequality(0, b.ref_time as int, M as int);
    }
}

/// With additive prices, and as long as nothing saturates, the fees that the trader holds are
/// exactly the price of the weight that is outstanding, and exactly what was paid less what was
/// refunded.
pub proof fn fees_are_the_price_of_the_outstanding_weight<F: WeightToFee>(
    asset: MultiLocation,
    dealings: Seq<Dealing>,
)
    requires
        is_additive::<F>(),
        never_saturates::<F>(asset, dealings),
    ensures
        ({
            let end = state_after::<F>(asset, dealings);
            &&& end.fees == F::fee_of(end.weight)
            &&& end.fees == total_paid::<F>(dealings) - total_refunded::<F>(asset, dealings)
        }),
    decreases dealings.len(),
{
    if dealings.len() > 0 {
        fees_are_the_price_of_the_outstanding_weight::<F>(asset, dealings.drop_last());
        let before = state_after::<F>(asset, dealings.drop_last());
        match dealings.last() {
            Dealing::Purchase(weight) => {
                assert(F::fee_of(before.weight.plus(weight)) == F::fee_of(before.weight)
                    + F::fee_of(weight));
            },
            Dealing::Refund(weight) => {
                let back = weight.meet(before.weight);
                let rest = before.weight.minus(back);
                assert(rest.plus(back) == before.weight);
                assert(fits_together(rest, back));
                assert(F::fee_of(rest.plus(back)) == F::fee_of(rest) + F::fee_of(back));
            },
        }
    }
}

/// A trader that has sold nothing holds neither weight nor fees, in whatever asset it deals.
pub proof fn new_trader_holds_nothing<F: WeightToFee>(asset: MultiLocation, r: LocalAssetTrader<F>)
    requires
        call_ensures(LocalAssetTrader::<F>::new, (asset,), r),
    ensures
        r.weight.ref_time == 0,
        r.weight.proof_size == 0,
        r.fees == 0,
        r.asset == asset,
        r == state_after::<F>(asset, seq![]),
{
}

/// A purchase adds the weight to what is outstanding and its price to the fees, each exactly
/// unless it runs into the largest value, and leaves the asset alone.
pub proof fn purchase_adds_weight_and_price<F: WeightToFee>(
    trader: LocalAssetTrader<F>,
    weight: Weight,
)
    ensures
        ({
            let after = trader.after_purchase(weight);
            let time = trader.weight.ref_time + weight.ref_time;
            let size = trader.weight.proof_size + weight.proof_size;
            let fees = trader.fees + F::fee_of(weight);
            &&& after.weight.ref_time == (if time <= u64::MAX {
                time
            } else {
                u64::MAX as int
            })
            &&& after.weight.proof_size == (if size <= u64::MAX {
                size
            } else {
                u64::MAX as int
            })
            &&& after.fees == (if fees <= u128::MAX {
                fees
            } else {
                u128::MAX as int
            })
            &&& after.asset == trader.asset
        }),
{
}

/// A refund takes back as much of the weight as is outstanding, in each component on its own, and
/// pays the price of that out of the fees, as far as they reach.
pub proof fn refund_takes_back_what_is_outstanding<F: WeightToFee>(
    trader: LocalAssetTrader<F>,
    weight: Weight,
)
    ensures
        ({
            let after = trader.after_refund(weight);
            let back = Weight {
                ref_time: if weight.ref_time <= trader.weight.ref_time {
                    weight.ref_time
                } else {
                    trader.weight.ref_time
                },
                proof_size: if weight.proof_size <= trader.weight.proof_size {
                    weight.proof_size
                } else {
                    trader.weight.proof_size
                },
            };
            &&& trader.refund_of(weight) == F::fee_of(back)
            &&& after.weight.ref_time + back.ref_time == trader.weight.ref_time
            &&& after.weight.proof_size + back.proof_size == trader.weight.proof_size
            &&& after.fees == (if F::fee_of(back) <= trader.fees {
                trader.fees - F::fee_of(back)
            } else {
                0
            })
            &&& after.asset == trader.asset
        }),
{
}

/// Prices and refunds are amounts of the asset in which the trader deals.
pub proof fn trader_deals_in_its_asset<F: WeightToFee>(
    trader: LocalAssetTrader<F>,
    amount: Balance,
)
    ensures
        trader.amount_of_asset(amount).id == AssetId::Concrete(trader.asset),
        trader.amount_of_asset(amount).fun == Fungibility::Fungible(amount),
{
}

/// At the end of the trade all the fees that are held are issued, no more and no less.
pub proof fn all_fees_are_issued<F: WeightToFee>(trader: LocalAssetTrader<F>, r: Balance)
    requires
        call_ensures(LocalAssetTrader::<F>::drop, (trader,), r),
    ensures
        r == trader.fees,
{
}

/// An amount of a concrete asset goes to the treasury in full; abstract assets and unique ones
/// lead to no deposit.
pub proof fn treasury_takes_concrete_amounts(
    revenue: MultiAsset,
    treasury: AccountId20,
    r: Option<Deposit>,
)
    requires
        call_ensures(ToTreasury::take_revenue, (revenue, treasury), r),
    ensures
        r is Some <==> revenue.id is Concrete && revenue.fun is Fungible,
        r matches Some(deposit) ==> deposit.account == treasury && revenue.fun
            == Fungibility::Fungible(deposit.amount),
{
}

/// The totals of a series of dealings grow with each purchase by its price and with each refund by
/// what it pays out, and by nothing else.
pub proof fn totals_grow_dealing_by_dealing<F: WeightToFee>(
    asset: MultiLocation,
    dealings: Seq<Dealing>,
    weight: Weight,
)
    ensures
        ({
            let before = state_after::<F>(asset, dealings);
            let bought = dealings.push(Dealing::Purchase(weight));
            let refunded = dealings.push(Dealing::Refund(weight));
            &&& state_after::<F>(asset, bought) == before.after_purchase(weight)
            &&& state_after::<F>(asset, refunded) == before.after_refund(weight)
            &&& total_paid::<F>(bought) == total_paid::<F>(dealings) + F::fee_of(weight)
            &&& total_paid::<F>(refunded) == total_paid::<F>(dealings)
            &&& total_refunded::<F>(asset, bought) == total_refunded::<F>(asset, dealings)
            &&& total_refunded::<F>(asset, refunded) == total_refunded::<F>(asset, dealings)
                + before.refund_of(weight)
        }),
{
    assert(dealings.push(Dealing::Purchase(weight)).drop_last() =~= dealings);
    assert(dealings.push(Dealing::Refund(weight)).drop_last() =~= dealings);
}

/// Weight is sold exactly to those whose payment holds its price in the asset of the trader. The
/// price is what is missing from the payment afterwards, and what the revenue consists of; nothing
/// else is taken. A payment that falls short changes nothing.
pub proof fn purchases_cost_their_price<F: WeightToFee>(
    trader: &mut LocalAssetTrader<F>,
    weight: Weight,
    payment: Assets,
    r: Result<Purchase, XcmError>,
    other: AssetKey,
)
    requires
        call_ensures(LocalAssetTrader::<F>::buy_weight, (trader, weight, payment), r),
        other != AssetKey::Concrete(old(trader).asset@),
    ensures
        ({
            let key = AssetKey::Concrete(old(trader).asset@);
            let held = fungible_in(payment);
            let price = F::fee_of(weight);
            &&& r is Ok <==> held.contains_key(key) && held[key] >= price
            &&& r matches Ok(purchase) ==> {
                let rest = fungible_in(purchase.unused);
                &&& rest.contains_key(key) <==> held[key] > price
                &&& rest.contains_key(key) ==> rest[key] == held[key] - price
                &&& rest.contains_key(other) <==> held.contains_key(other)
                &&& held.contains_key(other) ==> rest[other] == held[other]
                &&& unique_in(purchase.unused) == unique_in(payment)
                &&& purchase.revenue.id == AssetId::Concrete(old(trader).asset)
                &&& purchase.revenue.fun == Fungibility::Fungible(price)
            }
            &&& r matches Err(e) ==> e is TooExpensive && *final(trader) == *old(trader)
        }),
{
}

/// After a purchase the trader has the weight and its price on top of what it had, each up to the
/// largest value.
pub proof fn purchases_are_booked<F: WeightToFee>(
    trader: &mut LocalAssetTrader<F>,
    weight: Weight,
    payment: Assets,
    purchase: Purchase,
)
    requires
        call_ensures(LocalAssetTrader::<F>::buy_weight, (trader, weight, payment), Ok(purchase)),
    ensures
        ({
            let time = old(trader).weight.ref_time + weight.ref_time;
            let size = old(trader).weight.proof_size + weight.proof_size;
            let fees = old(trader).fees + F::fee_of(weight);
            &&& final(trader).weight.ref_time == (if time <= u64::MAX {
                time
            } else {
                u64::MAX as int
            })
            &&& final(trader).weight.proof_size == (if size <= u64::MAX {
                size
            } else {
                u64::MAX as int
            })
            &&& final(trader).fees == (if fees <= u128::MAX {
                fees
            } else {
                u128::MAX as int
            })
            &&& final(trader).asset == old(trader).asset
        }),
{
}

/// A refund takes back as much of the weight as is outstanding, in each component on its own, pays
/// its price in the asset of the trader if it has one, and takes that out of the fees, as far as
/// they reach.
pub proof fn refunds_pay_the_price_of_what_comes_back<F: WeightToFee>(
    trader: &mut LocalAssetTrader<F>,
    weight: Weight,
    r: Option<MultiAsset>,
)
    requires
        call_ensures(LocalAssetTrader::<F>::refund_weight, (trader, weight), r),
    ensures
        ({
            let back = Weight {
                ref_time: if weight.ref_time <= old(trader).weight.ref_time {
                    weight.ref_time
                } else {
                    old(trader).weight.ref_time
                },
                proof_size: if weight.proof_size <= old(trader).weight.proof_size {
                    weight.proof_size
                } else {
                    old(trader).weight.proof_size
                },
            };
            let price = F::fee_of(back);
            &&& r is Some <==> price > 0
            &&& r matches Some(refund) ==> refund.id == AssetId::Concrete(old(trader).asset)
                && refund.fun == Fungibility::Fungible(price)
            &&& final(trader).weight.ref_time + back.ref_time == old(trader).weight.ref_time
            &&& final(trader).weight.proof_size + back.proof_size == old(trader).weight.proof_size
            &&& final(trader).fees == (if price <= old(trader).fees {
                old(trader).fees - price
            } else {
                0
            })
            &&& final(trader).asset == old(trader).asset
        }),
{
}

/// Weight that is bought and then given back in full leaves the trader as it was before, and
/// brings its price back, unless the purchase ran into the largest weight or the largest balance.
pub proof fn giving_back_undoes_buying<F: WeightToFee>(
    buying: &mut LocalAssetTrader<F>,
    refunding: &mut LocalAssetTrader<F>,
    weight: Weight,
    payment: Assets,
    purchase: Purchase,
    r: Option<MultiAsset>,
)
    requires
        call_ensures(LocalAssetTrader::<F>::buy_weight, (buying, weight, payment), Ok(purchase)),
        *old(refunding) == *final(buying),
        call_ensures(LocalAssetTrader::<F>::refund_weight, (refunding, weight), r),
        old(buying).weight.ref_time + weight.ref_time <= u64::MAX,
        old(buying).weight.proof_size + weight.proof_size <= u64::MAX,
        old(buying).fees + F::fee_of(weight) <= u128::MAX,
    ensures
        *final(refunding) == *old(buying),
        F::fee_of(weight) > 0 ==> r == Some(purchase.revenue),
        F::fee_of(weight) == 0 ==> r is None,
{
    refund_undoes_purchase(*old(buying), weight);
}

} // verus!

//! The barrier: which messages may execute.
use crate::xcm_config::location::{
    BodyId, BodyPart, JunctionOf, Junctions, MultiLocation,
};
use crate::xcm_config::weight::Weight;
use core::marker::PhantomData;
use vstd::prelude::*;

verus! {

/// An instruction of a message, as far as the barrier reads it.
#[derive(Clone, Copy, Debug, PartialEq, Eq)]
pub enum Instruction {
    /// Withdraw assets from the local account on a reserve chain.
    InitiateReserveWithdraw { reserve: MultiLocation },
    /// Deposit held assets in the local account of another chain, and notify it.
    DepositReserveAsset { dest: MultiLocation },
    /// Transfer local assets to the account of another chain, and notify it.
    TransferReserveAsset { dest: MultiLocation },
    /// Assets were deposited on a reserve chain for this one.
    ReserveAssetDeposited,
    /// Any other instruction.
    Other,
}

/// What a barrier makes of a message.
pub struct Verdict {
    /// Whether the message may execute.
    pub accepted: bool,
    /// The message afterwards.
    pub message: Seq<Instruction>,
    /// The weight credit that is left.
    pub weight_credit: Weight,
}

/// A rule on which messages may execute.
pub trait ShouldExecute {
    /// What the rule makes of a message.
    spec fn verdict(
        origin: MultiLocation,
        message: Seq<Instruction>,
        max_weight: Weight,
        weight_credit: Weight,
    ) -> Verdict;

    /// Applies the rule. The message is refused by an error.
    fn should_execute(
        origin: &MultiLocation,
        message: &mut [Instruction],
        max_weight: Weight,
        weight_credit: &mut Weight,
    ) -> (r: Result<(), ()>)
        ensures
            Self::verdict(*origin, old(message)@, max_weight, *old(weight_credit)) == (Verdict {
                accepted: r is Ok,
                message: final(message)@,
                weight_credit: *final(weight_credit),
            }),
    ;
}

/// Refuses whatever `Deny` refuses, regardless of anything else; what passes `Deny` is let
/// through if `Allow` accepts it.
pub struct DenyThenTry<Deny, Allow>(PhantomData<Deny>, PhantomData<Allow>);

impl<Deny: ShouldExecute, Allow: ShouldExecute> ShouldExecute for DenyThenTry<Deny, Allow> {
    open spec fn verdict(
        origin: MultiLocation,
        message: Seq<Instruction>,
        max_weight: Weight,
        weight_credit: Weight,
    ) -> Verdict {
        let denied = Deny::verdict(origin, message, max_weight, weight_credit);
        if denied.accepted {
            Allow::verdict(origin, denied.message, max_weight, denied.weight_credit)
        } else {
            denied
        }
    }

    fn should_execute(
        origin: &MultiLocation,
        message: &mut [Instruction],
        max_weight: Weight,
        weight_credit: &mut Weight,
    ) -> (r: Result<(), ()>)
        ensures
            ({
                let first = Deny::verdict(
                    *origin,
                    old(message)@,
                    max_weight,
                    *old(weight_credit),
                );
                let second = Allow::verdict(
                    *origin,
                    first.message,
                    max_weight,
                    first.weight_credit,
                );
                &&& r is Ok <==> first.accepted && second.accepted
                &&& final(message)@ == (if first.accepted {
                    second.message
                } else {
                    first.message
                })
                &&& *final(weight_credit) == (if first.accepted {
                    second.weight_credit
                } else {
                    first.weight_credit
                })
            }),
    {
        match Deny::should_execute(origin, message, max_weight, weight_credit) {
            Ok(()) => Allow::should_execute(origin, message, max_weight, weight_credit),
            Err(()) => Err(()),
        }
    }
}

/// Whether a location is the relay chain: one step up and nothing further.
pub open spec fn is_relay_chain(location: MultiLocation) -> bool {
    location.parents == 1 && location.interior == Junctions::Here
}

/// Whether an instruction moves reserve assets to the relay chain.
pub open spec fn moves_reserve_to_relay_chain(instruction: Instruction) -> bool {
    match instruction {
        Instruction::InitiateReserveWithdraw { reserve } => is_relay_chain(reserve),
        Instruction::DepositReserveAsset { dest } => is_relay_chain(dest),
        Instruction::TransferReserveAsset { dest } => is_relay_chain(dest),
        _ => false,
    }
}

/// Whether some instruction of a message moves reserve assets to the relay chain.
pub open spec fn has_reserve_transfer_to_relay_chain(message: Seq<Instruction>) -> bool {
    exists|i: int|
        0 <= i < message.len() && moves_reserve_to_relay_chain(#[trigger] message[i])
}

/// Refuses messages that move reserve assets to the relay chain.
pub struct DenyReserveTransferToRelayChain;

impl ShouldExecute for DenyReserveTransferToRelayChain {
    open spec fn verdict(
        origin: MultiLocation,
        message: Seq<Instruction>,
        max_weight: Weight,
        weight_credit: Weight,
    ) -> Verdict {
        Verdict { accepted: !has_reserve_transfer_to_relay_chain(message), message, weight_credit }
    }

    fn should_execute(
        _origin: &MultiLocation,
        message: &mut [Instruction],
        _max_weight: Weight,
        _weight_credit: &mut Weight,
    ) -> (r: Result<(), ()>)
        ensures
            ({
                let relay_chain = MultiLocation { parents: 1, interior: Junctions::Here };
                r is Err <==> exists|i: int|
                    0 <= i < old(message)@.len() && ({
                        ||| #[trigger] old(message)@[i] == (Instruction::InitiateReserveWithdraw {
                            reserve: relay_chain,
                        })
                        ||| old(message)@[i] == (Instruction::DepositReserveAsset {
                            dest: relay_chain,
                        })
                        ||| old(message)@[i] == (Instruction::TransferReserveAsset {
                            dest: relay_chain,
                        })
                    })
            }),
            final(message)@ == old(message)@,
            *final(_weight_credit) == *old(_weight_credit),
    {
        let mut i: usize = 0;
        while i < message.len()
            invariant
                i <= message@.len(),
                message@ == old(message)@,
                *_weight_credit == *old(_weight_credit),
                forall|j: int|
                    0 <= j < i ==> !moves_reserve_to_relay_chain(#[trigger] message@[j]),
            decreases message.len() - i,
        {
            let denied = match &message[i] {
                Instruction::InitiateReserveWithdraw { reserve } => reserve.is_relay_chain(),
                Instruction::DepositReserveAsset { dest } => dest.is_relay_chain(),
                Instruction::TransferReserveAsset { dest } => dest.is_relay_chain(),
                _ => false,
            };
            if denied {
                assert(moves_reserve_to_relay_chain(message@[i as int]));
                return Err(());
            }
            i += 1;
        }
        Ok(())
    }
}

impl DenyReserveTransferToRelayChain {
    /// Whether a message is an unexpected reserve transfer from the relay chain. Such a message
    /// is not refused here, but it is worth a warning.
    pub fn is_unexpected_reserve_deposit(origin: &MultiLocation, message: &[Instruction]) -> (r:
        bool)
        ensures
            r <==> is_relay_chain(*origin) && message@.contains(Instruction::ReserveAssetDeposited),
    {
        if !origin.is_relay_chain() {
            return false;
        }
        let mut i: usize = 0;
        while i < message.len()
            invariant
                i <= message@.len(),
                is_relay_chain(*origin),
                forall|j: int|
                    0 <= j < i ==> #[trigger] message@[j] != Instruction::ReserveAssetDeposited,
            decreases message.len() - i,
        {
            if let Instruction::ReserveAssetDeposited = message[i] {
                assert(message@[i as int] == Instruction::ReserveAssetDeposited);
                return true;
            }
            i += 1;
        }
        false
    }
}

impl MultiLocation {
    /// Whether the location is the relay chain.
    pub fn is_relay_chain(&self) -> (r: bool)
        ensures
            r == is_relay_chain(*self),
    {
        match self.interior {
            Junctions::Here => self.parents == 1,
            _ => false,
        }
    }
}

/// The locations of the relay chain and of its executive body.
pub struct ParentOrParentsExecutivePlurality;

impl ParentOrParentsExecutivePlurality {
    /// Whether a location is the relay chain, or a plurality of its executive body.
    pub open spec fn includes(location: MultiLocation) -> bool {
        location.parents == 1 && match location.interior {
            Junctions::Here => true,
            Junctions::X1(JunctionOf::Plurality { id, part }) => id == BodyId::Executive,
            _ => false,
        }
    }

    /// Whether a location is the relay chain, or a plurality of its executive body.
    pub fn contains(location: &MultiLocation) -> (r: bool)
        ensures
            r == Self::includes(*location),
    {
        location.parents == 1 && match location.interior {
            Junctions::Here => true,
            Junctions::X1(JunctionOf::Plurality { id: BodyId::Executive, .. }) => true,
            _ => false,
        }
    }
}

/// A message that `Deny` refuses is refused whatever `Allow` would make of it.
pub proof fn denial_overrides_permission<Deny: ShouldExecute, Allow: ShouldExecute>(
    origin: MultiLocation,
    message: Seq<Instruction>,
    max_weight: Weight,
    weight_credit: Weight,
)
    requires
        !Deny::verdict(origin, message, max_weight, weight_credit).accepted,
    ensures
        !DenyThenTry::<Deny, Allow>::verdict(
            origin,
            message,
            max_weight,
            weight_credit,
        ).accepted,
{
}

/// Behind the reserve transfer rule, a message executes exactly if it moves no reserve assets to
/// the relay chain and the second rule accepts it as it came in, with the credit it came with.
pub proof fn reserve_rule_guards_permission<Allow: ShouldExecute>(
    origin: MultiLocation,
    message: Seq<Instruction>,
    max_weight: Weight,
    weight_credit: Weight,
)
    ensures
        ({
            let verdict = DenyThenTry::<DenyReserveTransferToRelayChain, Allow>::verdict(
                origin,
                message,
                max_weight,
                weight_credit,
            );
            let allowed = Allow::verdict(origin, message, max_weight, weight_credit);
            &&& verdict.accepted <==> !has_reserve_transfer_to_relay_chain(message)
                && allowed.accepted
            &&& has_reserve_transfer_to_relay_chain(message) ==> verdict.message == message
                && verdict.weight_credit == weight_credit
            &&& !has_reserve_transfer_to_relay_chain(message) ==> verdict == allowed
        }),
{
}

/// The reserve transfer rule judges the parts of a message separately: it accepts a message
/// exactly if it accepts what comes before a part, the part, and what comes after it.
pub proof fn reserve_rule_judges_parts_separately(
    origin: MultiLocation,
    before: Seq<Instruction>,
    part: Seq<Instruction>,
    after: Seq<Instruction>,
    max_weight: Weight,
    weight_credit: Weight,
)
    ensures
        DenyReserveTransferToRelayChain::verdict(
            origin,
            before + part + after,
            max_weight,
            weight_credit,
        ).accepted <==> DenyReserveTransferToRelayChain::verdict(
            origin,
            before,
            max_weight,
            weight_credit,
        ).accepted && DenyReserveTransferToRelayChain::verdict(
            origin,
            part,
            max_weight,
            weight_credit,
        ).accepted && DenyReserveTransferToRelayChain::verdict(
            origin,
            after,
            max_weight,
            weight_credit,
        ).accepted,
{
    let whole = before + part + after;
    if has_reserve_transfer_to_relay_chain(before) {
        let i = choose|i: int|
            0 <= i < before.len() && moves_reserve_to_relay_chain(#[trigger] before[i]);
        assert(whole[i] == before[i]);
    }
    if has_reserve_transfer_to_relay_chain(part) {
        let i = choose|i: int|
            0 <= i < part.len() && moves_reserve_to_relay_chain(#[trigger] part[i]);
        assert(whole[before.len() + i] == part[i]);
    }
    if has_reserve_transfer_to_relay_chain(after) {
        let i = choose|i: int|
            0 <= i < after.len() && moves_reserve_to_relay_chain(#[trigger] after[i]);
        assert(whole[before.len() + part.len() + i] == after[i]);
    }
    if has_reserve_transfer_to_relay_chain(whole) {
        let i = choose|i: int|
            0 <= i < whole.len() && moves_reserve_to_relay_chain(#[trigger] whole[i]);
        if i < before.len() {
            assert(before[i] == whole[i]);
        } else if i < before.len() + part.len() {
            assert(part[i - before.len()] == whole[i]);
        } else {
            assert(after[i - before.len() - part.len()] == whole[i]);
        }
    }
}

/// The reserve transfer rule refuses a message exactly if one of its instructions withdraws from,
/// deposits to or transfers to the relay chain: the location with one parent and no step. It
/// changes neither the message nor the weight credit.
pub proof fn reserve_rule_refuses_the_relay_chain_alone(
    origin: MultiLocation,
    message: Seq<Instruction>,
    max_weight: Weight,
    weight_credit: Weight,
)
    ensures
        ({
            let relay_chain = MultiLocation { parents: 1, interior: Junctions::Here };
            let verdict = DenyReserveTransferToRelayChain::verdict(
                origin,
                message,
                max_weight,
                weight_credit,
            );
            &&& !verdict.accepted <==> {
                ||| message.contains(Instruction::InitiateReserveWithdraw { reserve: relay_chain })
                ||| message.contains(Instruction::DepositReserveAsset { dest: relay_chain })
                ||| message.contains(Instruction::TransferReserveAsset { dest: relay_chain })
            }
            &&& verdict.message == message
            &&& verdict.weight_credit == weight_credit
        }),
{
    let relay_chain = MultiLocation { parents: 1, interior: Junctions::Here };
    if has_reserve_transfer_to_relay_chain(message) {
        let i = choose|i: int|
            0 <= i < message.len() && moves_reserve_to_relay_chain(#[trigger] message[i]);
        match message[i] {
            Instruction::InitiateReserveWithdraw { reserve } => {
                assert(reserve == relay_chain);
            },
            Instruction::DepositReserveAsset { dest } => {
                assert(dest == relay_chain);
            },
            Instruction::TransferReserveAsset { dest } => {
                assert(dest == relay_chain);
            },
            _ => {},
        }
        assert(message.contains(message[i]));
    }
}

/// A message of a single instruction is refused exactly if it is a withdrawal from, a deposit to
/// or a transfer to the relay chain.
pub proof fn reserve_rule_on_one_instruction(
    origin: MultiLocation,
    instruction: Instruction,
    max_weight: Weight,
    weight_credit: Weight,
)
    ensures
        ({
            let relay_chain = MultiLocation { parents: 1, interior: Junctions::Here };
            let verdict = DenyReserveTransferToRelayChain::verdict(
                origin,
                seq![instruction],
                max_weight,
                weight_credit,
            );
            !verdict.accepted <==> {
                ||| instruction == (Instruction::InitiateReserveWithdraw { reserve: relay_chain })
                ||| instruction == (Instruction::DepositReserveAsset { dest: relay_chain })
                ||| instruction == (Instruction::TransferReserveAsset { dest: relay_chain })
            }
        }),
{
    let message = seq![instruction];
    reserve_rule_refuses_the_relay_chain_alone(origin, message, max_weight, weight_credit);
    assert(message[0] == instruction);
    assert(message.contains(instruction));
}

/// Reserve assets may be moved to and from every sibling parachain.
pub proof fn reserve_rule_lets_siblings_pass(
    origin: MultiLocation,
    id: u32,
    max_weight: Weight,
    weight_credit: Weight,
)
    ensures
        ({
            let sibling = MultiLocation {
                parents: 1,
                interior: Junctions::X1(JunctionOf::Parachain(id)),
            };
            let message = seq![
                Instruction::InitiateReserveWithdraw { reserve: sibling },
                Instruction::DepositReserveAsset { dest: sibling },
                Instruction::TransferReserveAsset { dest: sibling },
            ];
            DenyReserveTransferToRelayChain::verdict(
                origin,
                message,
                max_weight,
                weight_credit,
            ).accepted
        }),
{
}

/// What the first of two rules refuses is refused as it leaves it; what it accepts is judged by
/// the second, on the message and the weight credit that the first leaves.
pub proof fn second_rule_judges_what_the_first_leaves<Deny: ShouldExecute, Allow: ShouldExecute>(
    origin: MultiLocation,
    message: Seq<Instruction>,
    max_weight: Weight,
    weight_credit: Weight,
)
    ensures
        ({
            let first = Deny::verdict(origin, message, max_weight, weight_credit);
            let second = Allow::verdict(origin, first.message, max_weight, first.weight_credit);
            let both = DenyThenTry::<Deny, Allow>::verdict(
                origin,
                message,
                max_weight,
                weight_credit,
            );
            &&& both.accepted <==> first.accepted && second.accepted
            &&& !first.accepted ==> both == first
            &&& first.accepted ==> both == second
        }),
{
}

/// A reserve deposit is unexpected exactly if the message comes from the relay chain and reports
/// one.
pub proof fn reserve_deposits_of_the_relay_chain_are_unexpected(
    origin: MultiLocation,
    message: &[Instruction],
    r: bool,
)
    requires
        call_ensures(
            DenyReserveTransferToRelayChain::is_unexpected_reserve_deposit,
            (&origin, message),
            r,
        ),
    ensures
        r <==> origin == (MultiLocation { parents: 1, interior: Junctions::Here })
            && message@.contains(Instruction::ReserveAssetDeposited),
{
}

/// The relay chain is the location with one parent and no step, and no other location is.
pub proof fn relay_chain_is_one_location(location: MultiLocation, r: bool)
    requires
        call_ensures(MultiLocation::is_relay_chain, (&location,), r),
    ensures
        r <==> location == (MultiLocation { parents: 1, interior: Junctions::Here }),
{
}

/// Free execution is for the relay chain and for every part of its executive body.
pub proof fn relay_chain_and_its_executive_execute_freely(part: BodyPart, r: bool, s: bool)
    requires
        call_ensures(
            ParentOrParentsExecutivePlurality::contains,
            (&MultiLocation { parents: 1, interior: Junctions::Here },),
            r,
        ),
        call_ensures(
            ParentOrParentsExecutivePlurality::contains,
            (&MultiLocation {
                parents: 1,
                interior: Junctions::X1(JunctionOf::Plurality { id: BodyId::Executive, part }),
            },),
            s,
        ),
    ensures
        r,
        s,
{
}

/// Free execution is for no location but the relay chain and the parts of its executive body.
pub proof fn no_other_location_executes_freely(location: MultiLocation, r: bool)
    requires
        call_ensures(ParentOrParentsExecutivePlurality::contains, (&location,), r),
    ensures
        r <==> ({
            ||| location == (MultiLocation { parents: 1, interior: Junctions::Here })
            ||| location.parents == 1 && (location.interior matches Junctions::X1(
                JunctionOf::Plurality { id, part: _ },
            ) && id == BodyId::Executive)
        }),
{
}

/// A call of the reserve transfer rule fails exactly if an instruction of the message names the
/// relay chain as its reserve or destination. It leaves the message and the credit as they are,
/// whoever sent the message and however heavy it is.
pub proof fn reserve_rule_decides_by_destination(
    origin: MultiLocation,
    message: &mut [Instruction],
    max_weight: Weight,
    weight_credit: &mut Weight,
    r: Result<(), ()>,
)
    requires
        call_ensures(
            <DenyReserveTransferToRelayChain as ShouldExecute>::should_execute,
            (&origin, message, max_weight, weight_credit),
            r,
        ),
    ensures
        ({
            let relay_chain = MultiLocation { parents: 1, interior: Junctions::Here };
            let given = old(message)@;
            r is Err <==> {
                ||| given.contains(Instruction::InitiateReserveWithdraw { reserve: relay_chain })
                ||| given.contains(Instruction::DepositReserveAsset { dest: relay_chain })
                ||| given.contains(Instruction::TransferReserveAsset { dest: relay_chain })
            }
        }),
        final(message)@ == old(message)@,
        *final(weight_credit) == *old(weight_credit),
{
    reserve_rule_refuses_the_relay_chain_alone(
        origin,
        old(message)@,
        max_weight,
        *old(weight_credit),
    );
}

/// A call of two rules succeeds exactly if the first accepts the message and the second accepts
/// what the first leaves of it.
pub proof fn both_rules_must_accept<Deny: ShouldExecute, Allow: ShouldExecute>(
    origin: MultiLocation,
    message: &mut [Instruction],
    max_weight: Weight,
    weight_credit: &mut Weight,
    r: Result<(), ()>,
)
    requires
        call_ensures(
            <DenyThenTry<Deny, Allow> as ShouldExecute>::should_execute,
            (&origin, message, max_weight, weight_credit),
            r,
        ),
    ensures
        ({
            let first = Deny::verdict(origin, old(message)@, max_weight, *old(weight_credit));
            let second = Allow::verdict(origin, first.message, max_weight, first.weight_credit);
            let left = if first.accepted {
                second
            } else {
                first
            };
            &&& r is Ok <==> first.accepted && second.accepted
            &&& final(message)@ == left.message
            &&& *final(weight_credit) == left.weight_credit
        }),
{
}

} // verus!

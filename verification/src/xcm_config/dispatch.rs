//! The origin with which a call from a message is dispatched.
use crate::xcm_config::account::AccountId20;
use vstd::prelude::*;

verus! {

/// A call, as far as the dispatcher reads it.
#[derive(Clone, Copy, Debug, PartialEq, Eq)]
pub enum Call {
    /// An Ethereum transaction, handed to the pallet that executes those that come by XCM.
    EthereumXcmTransact,
    /// Any other call.
    Other,
}

/// The caller of a call, as far as the dispatcher reads it.
#[derive(Clone, Copy, Debug, PartialEq, Eq)]
pub enum Caller {
    /// The system itself.
    Root,
    /// The holder of an account.
    Signed(AccountId20),
    /// No one: an unsigned call.
    Nobody,
    /// An origin of some pallet.
    Pallet,
}

/// The origin with which a call is dispatched.
#[derive(Clone, Copy, Debug, PartialEq, Eq)]
pub enum DispatchOrigin {
    /// The origin with which the call came.
    Given,
    /// The origin of Ethereum transactions that come by XCM, for the address of an account.
    XcmEthereumTransaction([u8; 20]),
}

/// Dispatches calls that come in messages.
pub struct XcmCallDispatcher;

impl XcmCallDispatcher {
    /// The origin with which to dispatch a call: an Ethereum transaction of a signed caller is
    /// dispatched as an Ethereum transaction that came by XCM from the same address, and
    /// everything else with the origin with which it came.
    pub fn dispatch(call: Call, caller: Caller) -> (r: DispatchOrigin)
        ensures
            r == (match (call, caller) {
                (Call::EthereumXcmTransact, Caller::Signed(account)) => {
                    DispatchOrigin::XcmEthereumTransaction(account.0)
                },
                _ => DispatchOrigin::Given,
            }),
    {
        match (call, caller) {
            (Call::EthereumXcmTransact, Caller::Signed(account)) => {
                DispatchOrigin::XcmEthereumTransaction(account.0)
            },
            _ => DispatchOrigin::Given,
        }
    }
}

/// An Ethereum transaction of a signed caller runs under the address of that caller.
pub proof fn ethereum_transactions_run_under_their_signer(account: AccountId20, r: DispatchOrigin)
    requires
        call_ensures(
            XcmCallDispatcher::dispatch,
            (Call::EthereumXcmTransact, Caller::Signed(account)),
            r,
        ),
    ensures
        r == DispatchOrigin::XcmEthereumTransaction(account.0),
{
}

/// Only Ethereum transactions, and only those of signed callers, change their origin.
pub proof fn other_calls_keep_their_origin(call: Call, caller: Caller, r: DispatchOrigin)
    requires
        call_ensures(XcmCallDispatcher::dispatch, (call, caller), r),
    ensures
        r is Given <==> call is Other || !(caller is Signed),
{
}

/// Signed callers with different accounts never share an origin for their Ethereum transactions.
pub proof fn signers_do_not_share_origins(
    a: AccountId20,
    b: AccountId20,
    r: DispatchOrigin,
    s: DispatchOrigin,
)
    requires
        call_ensures(
            XcmCallDispatcher::dispatch,
            (Call::EthereumXcmTransact, Caller::Signed(a)),
            r,
        ),
        call_ensures(
            XcmCallDispatcher::dispatch,
            (Call::EthereumXcmTransact, Caller::Signed(b)),
            s,
        ),
    ensures
        r == s <==> a == b,
{
}

} // verus!

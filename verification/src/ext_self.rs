//! The contract's own callback, as it is called from a promise chain.

use vstd::prelude::*;
use crate::account::AccountId;
use crate::promise::{FunctionCall, FunctionCallView};

verus! {

/// The methods that this contract offers to its own promise chains.
pub trait ExtDemo {
    /// Callback after receiving balances
    fn on_get_balance(&self) -> bool;
}

/// The call of `on_get_balance` on `receiver_id`: the method takes no arguments,
/// so the payload is empty.
pub open spec fn on_get_balance_call(
    receiver_id: Seq<char>,
    deposit: u128,
    gas: u64,
) -> FunctionCallView {
    FunctionCallView {
        receiver_id,
        method_name: "on_get_balance"@,
        arguments: Seq::empty(),
        deposit,
        gas,
    }
}

/// Plans a call of [`ExtDemo::on_get_balance`] on the contract of `receiver_id`.
pub fn on_get_balance(receiver_id: &AccountId, deposit: u128, gas: u64) -> (call: FunctionCall)
    ensures
        call@ == on_get_balance_call(receiver_id@, deposit, gas),
{
    FunctionCall::new(receiver_id.clone(), "on_get_balance", Vec::new(), deposit, gas)
}

} // verus!

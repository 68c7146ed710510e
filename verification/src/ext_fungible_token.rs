//! The balance query of a fungible-token contract, as it is called remotely.

use vstd::prelude::*;
use crate::account::AccountId;
use crate::codec::{encode_string_member, json_string_member};
use crate::promise::{FunctionCall, FunctionCallView};

verus! {

/// The methods of a fungible-token contract that this contract calls.
pub trait FungibleTokenContract {
    /// Returns the balance of the account. If the account doesn't exist must returns `"0"`.
    fn ft_balance_of(&self, account_id: AccountId) -> u128;
}

/// The call of `ft_balance_of` on `receiver_id`: the payload is the JSON object
/// whose member `account_id` names the account asked about.
pub open spec fn ft_balance_of_call(
    account_id: Seq<char>,
    receiver_id: Seq<char>,
    deposit: u128,
    gas: u64,
) -> FunctionCallView {
    FunctionCallView {
        receiver_id,
        method_name: "ft_balance_of"@,
        arguments: json_string_member("account_id"@, account_id),
        deposit,
        gas,
    }
}

/// Plans a call of [`FungibleTokenContract::ft_balance_of`] on the contract of
/// `receiver_id`.
pub fn ft_balance_of(
    account_id: AccountId,
    receiver_id: &AccountId,
    deposit: u128,
    gas: u64,
) -> (call: FunctionCall)
    ensures
        call@ == ft_balance_of_call(account_id@, receiver_id@, deposit, gas),
{
    let arguments: Vec<u8> = encode_string_member("account_id", account_id.as_str());
    FunctionCall::new(receiver_id.clone(), "ft_balance_of", arguments, deposit, gas)
}

} // verus!

//! The contract: the two ways of planning a balance lookup, and its callback.

use std::collections::HashMap;
use vstd::prelude::*;
use crate::account::{AccountId, ValidAccountId};
use crate::callback::{callback_outcome, get_promise_result, CallbackError};
use crate::codec::{encode_string_member, json_string_member};
use crate::ext_fungible_token::{ft_balance_of, ft_balance_of_call};
use crate::ext_self::{on_get_balance, on_get_balance_call};
use crate::promise::{CallChain, CallChainView, FunctionCall, FunctionCallView, PromiseResult};
use crate::report::balance_report;

verus! {

/// The gas attached to the remote call and to the callback alike.
pub const GAS_BASE_COMPUTE: u64 = 5_000_000_000_000;

/// Indicates there are no deposit for a callback for better readability.
pub const NO_DEPOSIT: u128 = 0;

/// The contract's state.
pub struct Welcome {
    records: HashMap<String, String>,
}

impl Default for Welcome {
    fn default() -> (welcome: Welcome)
        ensures
            welcome.records() == Map::<String, String>::empty(),
    {
        Welcome { records: HashMap::new() }
    }
}

impl Welcome {
    /// The records that the contract holds.
    pub closed spec fn records(&self) -> Map<String, String> {
        self.records@
    }

    /// The contract with the given records as its state.
    pub fn from_records(records: HashMap<String, String>) -> (welcome: Welcome)
        ensures
            welcome.records() == records@,
    {
        Welcome { records }
    }

    /// Gives up the contract for the records that it holds.
    pub fn into_records(self) -> (records: HashMap<String, String>)
        ensures
            records@ == self.records(),
    {
        self.records
    }

    /// The chain that is planned by spelling out the remote call: the balance
    /// query on `contract_id` about `account_id`, then the callback on the
    /// contract itself, both with no deposit and the same gas.
    pub open spec fn direct_lookup(
        contract_id: Seq<char>,
        account_id: Seq<char>,
        current: Seq<char>,
    ) -> CallChainView {
        CallChainView {
            call: FunctionCallView {
                receiver_id: contract_id,
                method_name: "ft_balance_of"@,
                arguments: json_string_member("account_id"@, account_id),
                deposit: NO_DEPOSIT,
                gas: GAS_BASE_COMPUTE,
            },
            callback: FunctionCallView {
                receiver_id: current,
                method_name: "on_get_balance"@,
                arguments: Seq::empty(),
                deposit: NO_DEPOSIT,
                gas: GAS_BASE_COMPUTE,
            },
        }
    }

    /// The chain that is planned through the declared interfaces of the token
    /// contract and of the contract itself.
    pub open spec fn bound_lookup(
        contract_id: Seq<char>,
        account_id: Seq<char>,
        current: Seq<char>,
    ) -> CallChainView {
        CallChainView {
            call: ft_balance_of_call(account_id, contract_id, NO_DEPOSIT, GAS_BASE_COMPUTE),
            callback: on_get_balance_call(current, NO_DEPOSIT, GAS_BASE_COMPUTE),
        }
    }

    /// Both ways of planning the lookup schedule the same remote call, with the
    /// same target, method, arguments, deposit and gas, and chain the same
    /// callback.
    pub proof fn lemma_lookups_agree(
        contract_id: Seq<char>,
        account_id: Seq<char>,
        current: Seq<char>,
    )
        ensures
            Self::direct_lookup(contract_id, account_id, current) == Self::bound_lookup(
                contract_id,
                account_id,
                current,
            ),
    {
    }

    /// Plans the balance lookup by spelling out the remote call. `current_account_id`
    /// is the account of the contract itself, on which the callback runs.
    pub fn get_ft_balance1(
        &self,
        contract_id: ValidAccountId,
        account_id: ValidAccountId,
        current_account_id: &AccountId,
    ) -> (chain: CallChain)
        ensures
            chain@ == Self::direct_lookup(contract_id@, account_id@, current_account_id@),
    {
        FunctionCall::new(
            contract_id.as_ref().clone(),
            "ft_balance_of",
            encode_string_member("account_id", account_id.as_ref().as_str()),
            NO_DEPOSIT,
            GAS_BASE_COMPUTE,
        ).with_callback(on_get_balance(current_account_id, NO_DEPOSIT, GAS_BASE_COMPUTE))
    }

    /// Plans the balance lookup through the declared interface of the token
    /// contract. `current_account_id` is the account of the contract itself, on
    /// which the callback runs.
    pub fn get_ft_balance2(
        &self,
        contract_id: ValidAccountId,
        account_id: ValidAccountId,
        current_account_id: &AccountId,
    ) -> (chain: CallChain)
        ensures
            chain@ == Self::bound_lookup(contract_id@, account_id@, current_account_id@),
    {
        ft_balance_of(
            account_id.as_ref().clone(),
            contract_id.as_ref(),
            NO_DEPOSIT,
            GAS_BASE_COMPUTE,
        ).with_callback(on_get_balance(current_account_id, NO_DEPOSIT, GAS_BASE_COMPUTE))
    }

    /// Handles the callback: `predecessor_account_id` called it, the contract runs
    /// as `current_account_id`, and `results` were delivered. Gives the text to
    /// log, or the reason to abort.
    pub fn on_get_balance(
        &self,
        predecessor_account_id: &AccountId,
        current_account_id: &AccountId,
        results: &Vec<PromiseResult>,
    ) -> (report: Result<String, CallbackError>)
        ensures
            match callback_outcome(predecessor_account_id@, current_account_id@, results@) {
                Ok(text) => report matches Ok(logged) && logged@ == text,
                Err(error) => report == Err::<String, CallbackError>(error),
            },
    {
        if !(*predecessor_account_id == *current_account_id) {
            return Err(CallbackError::AuthorizationFailure);
        }
        match get_promise_result(results) {
            Ok(balance) => Ok(balance_report(balance)),
            Err(error) => Err(error),
        }
    }
}

} // verus!

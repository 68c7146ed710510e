//! What the callback makes of the results delivered to it.

use vstd::prelude::*;
use crate::codec::{decode_u128, json_u128};
use crate::promise::{PromiseResult, PromiseResultView};
use crate::report::report_text;

verus! {

/// Why a callback is abandoned.
#[derive(Clone, Copy, Debug, PartialEq, Eq, Structural)]
pub enum CallbackError {
    /// The callback was not called by the contract itself.
    AuthorizationFailure,
    /// The number of delivered results is not one.
    OutcomeShape,
    /// The awaited call did not succeed.
    RemoteFailure,
}

impl CallbackError {
    /// The message with which the execution is aborted.
    pub open spec fn message_text(self) -> Seq<char> {
        match self {
            CallbackError::AuthorizationFailure => "Callback can only be called from the contract"@,
            CallbackError::OutcomeShape => "Contract expected a result on the callback"@,
            CallbackError::RemoteFailure => "Promise was not successful"@,
        }
    }

    /// The message with which the execution is aborted.
    pub fn message(&self) -> (text: &'static str)
        ensures
            text@ == self.message_text(),
    {
        match self {
            CallbackError::AuthorizationFailure => "Callback can only be called from the contract",
            CallbackError::OutcomeShape => "Contract expected a result on the callback",
            CallbackError::RemoteFailure => "Promise was not successful",
        }
    }
}

/// The balance that a decoding attempt stands for: a payload that does not decode
/// counts as zero.
pub open spec fn decoded_or_zero(decoded: Option<u128>) -> u128 {
    match decoded {
        Some(balance) => balance,
        None => 0,
    }
}

/// The balance that a decoding attempt stands for: a payload that does not decode
/// counts as zero.
pub fn balance_or_zero(decoded: Option<u128>) -> (balance: u128)
    ensures
        balance == decoded_or_zero(decoded),
{
    match decoded {
        Some(balance) => balance,
        None => 0,
    }
}

/// The balance carried by the delivered results: there must be exactly one, and
/// it must be successful; its payload is decoded leniently.
pub open spec fn delivered_balance(results: Seq<PromiseResult>) -> Result<u128, CallbackError> {
    if results.len() != 1 {
        Err(CallbackError::OutcomeShape)
    } else {
        match results[0]@ {
            PromiseResultView::Successful(bytes) => Ok(decoded_or_zero(json_u128(bytes))),
            _ => Err(CallbackError::RemoteFailure),
        }
    }
}

/// Reads the balance out of the results delivered to a callback.
pub fn get_promise_result(results: &Vec<PromiseResult>) -> (balance: Result<u128, CallbackError>)
    ensures
        balance == delivered_balance(results@),
{
    if results.len() != 1 {
        return Err(CallbackError::OutcomeShape);
    }
    match &results[0] {
        PromiseResult::Successful(bytes) => Ok(balance_or_zero(decode_u128(bytes.as_slice()))),
        _ => Err(CallbackError::RemoteFailure),
    }
}

/// What a callback comes to: the text to log, or the reason to abort. The caller
/// is checked first, then the results.
pub open spec fn callback_outcome(
    predecessor: Seq<char>,
    current: Seq<char>,
    results: Seq<PromiseResult>,
) -> Result<Seq<char>, CallbackError> {
    if predecessor != current {
        Err(CallbackError::AuthorizationFailure)
    } else {
        match delivered_balance(results) {
            Ok(balance) => Ok(report_text(balance)),
            Err(error) => Err(error),
        }
    }
}

/// A callback that anyone but the contract itself has called is refused,
/// whatever was delivered to it.
pub proof fn lemma_foreign_caller_refused(
    predecessor: Seq<char>,
    current: Seq<char>,
    results: Seq<PromiseResult>,
)
    requires
        predecessor != current,
    ensures
        callback_outcome(predecessor, current, results) == Err::<Seq<char>, CallbackError>(
            CallbackError::AuthorizationFailure,
        ),
{
}

/// With no result, with two, or with any number other than one, reading the
/// balance fails on the shape of the results, and so the callback aborts whoever
/// called it: on the shape when the contract itself did, on the caller otherwise.
pub proof fn lemma_result_count_enforced(
    predecessor: Seq<char>,
    current: Seq<char>,
    results: Seq<PromiseResult>,
)
    requires
        results.len() != 1,
    ensures
        delivered_balance(results) == Err::<u128, CallbackError>(CallbackError::OutcomeShape),
        callback_outcome(predecessor, current, results) is Err,
        predecessor == current ==> callback_outcome(predecessor, current, results) == Err::<
            Seq<char>,
            CallbackError,
        >(CallbackError::OutcomeShape),
{
}

/// A single successful result whose payload decodes to a balance makes the
/// contract's own callback report that balance.
pub proof fn lemma_decoded_balance_reported(
    account: Seq<char>,
    results: Seq<PromiseResult>,
    bytes: Seq<u8>,
    balance: u128,
)
    requires
        results.len() == 1,
        results[0]@ == PromiseResultView::Successful(bytes),
        json_u128(bytes) == Some(balance),
    ensures
        callback_outcome(account, account, results) == Ok::<Seq<char>, CallbackError>(
            report_text(balance),
        ),
{
}

/// A single successful result whose payload does not decode makes the contract's
/// own callback report zero.
pub proof fn lemma_undecodable_payload_reports_zero(
    account: Seq<char>,
    results: Seq<PromiseResult>,
    bytes: Seq<u8>,
)
    requires
        results.len() == 1,
        results[0]@ == PromiseResultView::Successful(bytes),
        json_u128(bytes) is None,
    ensures
        callback_outcome(account, account, results) == Ok::<Seq<char>, CallbackError>(
            report_text(0),
        ),
{
}

/// A single result that is failed, or not ready, aborts the contract's own
/// callback as a remote failure.
pub proof fn lemma_unsuccessful_result_aborts(account: Seq<char>, results: Seq<PromiseResult>)
    requires
        results.len() == 1,
        results[0]@ is Failed || results[0]@ is NotReady,
    ensures
        callback_outcome(account, account, results) == Err::<Seq<char>, CallbackError>(
            CallbackError::RemoteFailure,
        ),
{
}

} // verus!

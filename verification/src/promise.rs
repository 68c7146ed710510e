//! Plain descriptions of what the host is asked to schedule, and of what it
//! delivers to a callback.

use vstd::prelude::*;

verus! {

/// One function call scheduled on another account.
#[derive(Debug, PartialEq, Eq)]
pub struct FunctionCall {
    /// The account whose contract is called.
    pub receiver_id: String,
    /// The name of the called method.
    pub method_name: String,
    /// The encoded arguments.
    pub arguments: Vec<u8>,
    /// The tokens attached to the call.
    pub deposit: u128,
    /// The gas attached to the call.
    pub gas: u64,
}

/// The mathematical content of a [`FunctionCall`].
pub struct FunctionCallView {
    pub receiver_id: Seq<char>,
    pub method_name: Seq<char>,
    pub arguments: Seq<u8>,
    pub deposit: u128,
    pub gas: u64,
}

impl View for FunctionCall {
    type V = FunctionCallView;

    open spec fn view(&self) -> FunctionCallView {
        FunctionCallView {
            receiver_id: self.receiver_id@,
            method_name: self.method_name@,
            arguments: self.arguments@,
            deposit: self.deposit,
            gas: self.gas,
        }
    }
}

/// A remote call followed by the callback that runs once the call has resolved.
#[derive(Debug, PartialEq, Eq)]
pub struct CallChain {
    /// The remote call.
    pub call: FunctionCall,
    /// The call that the host makes when `call` has resolved.
    pub callback: FunctionCall,
}

/// The mathematical content of a [`CallChain`].
pub struct CallChainView {
    pub call: FunctionCallView,
    pub callback: FunctionCallView,
}

impl View for CallChain {
    type V = CallChainView;

    open spec fn view(&self) -> CallChainView {
        CallChainView { call: self.call@, callback: self.callback@ }
    }
}

impl Clone for FunctionCall {
    fn clone(&self) -> (copy: FunctionCall)
        ensures
            copy@ == self@,
    {
        FunctionCall {
            receiver_id: self.receiver_id.clone(),
            method_name: self.method_name.clone(),
            arguments: self.arguments.clone(),
            deposit: self.deposit,
            gas: self.gas,
        }
    }
}

impl Clone for CallChain {
    fn clone(&self) -> (copy: CallChain)
        ensures
            copy@ == self@,
    {
        CallChain { call: self.call.clone(), callback: self.callback.clone() }
    }
}

impl FunctionCall {
    /// The call of `method_name` on the contract of `receiver_id`, with the given
    /// encoded arguments, deposit and gas.
    pub fn new(
        receiver_id: String,
        method_name: &str,
        arguments: Vec<u8>,
        deposit: u128,
        gas: u64,
    ) -> (call: FunctionCall)
        ensures
            call@ == (FunctionCallView {
                receiver_id: receiver_id@,
                method_name: method_name@,
                arguments: arguments@,
                deposit,
                gas,
            }),
    {
        FunctionCall {
            receiver_id,
            method_name: String::from_str(method_name),
            arguments,
            deposit,
            gas,
        }
    }

    /// Chains `callback` to run when this call has resolved.
    pub fn with_callback(self, callback: FunctionCall) -> (chain: CallChain)
        ensures
            chain@ == (CallChainView { call: self@, callback: callback@ }),
    {
        CallChain { call: self, callback }
    }
}

/// What the host delivers to a callback for one call it waited for.
#[derive(Debug, PartialEq, Eq)]
pub enum PromiseResult {
    /// The call has not resolved yet.
    NotReady,
    /// The call returned these bytes.
    Successful(Vec<u8>),
    /// The call failed.
    Failed,
}

/// The mathematical content of a [`PromiseResult`].
pub enum PromiseResultView {
    NotReady,
    Successful(Seq<u8>),
    Failed,
}

impl View for PromiseResult {
    type V = PromiseResultView;

    open spec fn view(&self) -> PromiseResultView {
        match self {
            PromiseResult::NotReady => PromiseResultView::NotReady,
            PromiseResult::Successful(bytes) => PromiseResultView::Successful(bytes@),
            PromiseResult::Failed => PromiseResultView::Failed,
        }
    }
}

impl Clone for PromiseResult {
    fn clone(&self) -> (copy: PromiseResult)
        ensures
            copy@ == self@,
    {
        match self {
            PromiseResult::NotReady => PromiseResult::NotReady,
            PromiseResult::Successful(bytes) => PromiseResult::Successful(bytes.clone()),
            PromiseResult::Failed => PromiseResult::Failed,
        }
    }
}

} // verus!

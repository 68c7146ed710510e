//! Balance lookup on a fungible-token contract, planned as a remote call with a
//! callback that authenticates its caller and decodes the single delivered result.

pub mod account;
pub mod callback;
pub mod codec;
pub mod contract;
pub mod ext_fungible_token;
pub mod ext_self;
pub mod promise;
pub mod report;

pub use account::{AccountId, ValidAccountId};
pub use callback::{balance_or_zero, get_promise_result, CallbackError};
pub use contract::{Welcome, GAS_BASE_COMPUTE, NO_DEPOSIT};
pub use ext_fungible_token::FungibleTokenContract;
pub use ext_self::ExtDemo;
pub use promise::{CallChain, FunctionCall, PromiseResult};
pub use report::{balance_report, decimal_string};

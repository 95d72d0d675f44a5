//! A token-allocation ledger for a CosmWasm chain, verified with Verus.
//!
//! An owner is registered once; every recipient may claim its outstanding
//! amount exactly once; the owner may sweep whatever is still outstanding to
//! the recipients; anyone may ask what an address is still entitled to.
//!
//! The handlers in [`contract`] are verified against a mathematical model of
//! the persistent state: a map from address to amount and an optional owner.
//! The calls into the host (storage and address validation) are the trusted
//! functions of [`state`]; [`theorems`] holds what follows for the handlers
//! taken together.

pub mod contract;
pub mod decimal;
pub mod error;
pub mod ledger;
pub mod msg;
pub mod response;
pub mod state;
pub mod theorems;

pub use contract::{
    allocation_response, authorize_owner, claim_response, claimable_amount, execute,
    execute_claim, execute_withdraw, instantiate, instantiate_response, instantiate_validated,
    query, query_allocation, query_validated, sweep_transfers, validated_address,
    withdraw_response,
};
pub use decimal::to_decimal;
pub use error::ContractError;
pub use ledger::Allocation;
pub use msg::{AllocationResponse, ExecuteMsg, InstantiateMsg, MessageInfo, QueryMsg};
pub use response::{Attribute, Response, Transfer, DENOM};
pub use state::{DepsMut, ALLOCATIONS_KEY, CONTRACT_NAME, CONTRACT_VERSION, OWNER_KEY};

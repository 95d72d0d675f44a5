use vstd::prelude::*;

verus! {

/// What the host passes along about the caller of a handler.
#[derive(Clone, Debug, PartialEq, Eq)]
pub struct MessageInfo {
    /// The address that made the call.
    pub sender: String,
}

/// The message that initialises the contract.
#[derive(Clone, Debug, PartialEq, Eq)]
pub struct InstantiateMsg {
    /// The address that will be allowed to sweep. Validated by the host.
    pub owner: String,
}

/// The state-changing calls.
#[derive(Clone, Debug, PartialEq, Eq)]
pub enum ExecuteMsg {
    /// The caller takes its whole outstanding amount.
    Claim {},
    /// The owner sends every outstanding amount to its recipient.
    Withdraw {},
}

/// The read-only calls.
#[derive(Clone, Debug, PartialEq, Eq)]
pub enum QueryMsg {
    /// Asks for the outstanding amount of `address`.
    Allocation { address: String },
}

/// The answer to [`QueryMsg::Allocation`].
#[derive(Clone, Copy, Debug, PartialEq, Eq)]
pub struct AllocationResponse {
    /// The outstanding amount; zero for an address that holds no entry.
    pub amount: u128,
}

} // verus!

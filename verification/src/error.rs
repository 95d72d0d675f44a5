use vstd::prelude::*;

verus! {

/// The host's own error type. Its values are carried through, never inspected.
#[verifier::external_type_specification]
#[verifier::external_body]
pub struct ExStdError(cosmwasm_std::StdError);

/// Why a call was refused. Every error ends the call.
#[derive(Debug, PartialEq)]
pub enum ContractError {
    /// A privileged call was made by someone other than the owner.
    Unauthorized {},
    /// The caller has nothing outstanding to claim.
    NotClaimable {},
    /// The host rejected an address string as malformed.
    InvalidAddress(cosmwasm_std::StdError),
    /// The persistent store failed; the host's error is passed on as it came.
    Std(cosmwasm_std::StdError),
}

impl From<cosmwasm_std::StdError> for ContractError {
    fn from(e: cosmwasm_std::StdError) -> (error: ContractError) {
        ContractError::Std(e)
    }
}

impl vstd::std_specs::convert::FromSpecImpl<cosmwasm_std::StdError> for ContractError {
    open spec fn obeys_from_spec() -> bool {
        true
    }

    open spec fn from_spec(e: cosmwasm_std::StdError) -> ContractError {
        ContractError::Std(e)
    }
}

impl ContractError {
    /// The message of the error, as a caller would print it.
    pub fn message(&self) -> (text: String)
        ensures
            self is Unauthorized ==> text@ == "Unauthorized"@,
            self is NotClaimable ==> text@ == "NotClaimable"@,
            self matches ContractError::InvalidAddress(e) ==> text@ == std_error_text(*e),
            self matches ContractError::Std(e) ==> text@ == std_error_text(*e),
    {
        match self {
            ContractError::Unauthorized {} => "Unauthorized".to_owned(),
            ContractError::NotClaimable {} => "NotClaimable".to_owned(),
            ContractError::InvalidAddress(e) => describe(e),
            ContractError::Std(e) => describe(e),
        }
    }
}

/// The text that the host's error prints as.
pub uninterp spec fn std_error_text(e: cosmwasm_std::StdError) -> Seq<char>;

/// Calls `to_string` on a `cosmwasm_std::StdError`, which formats it through
/// its `Display` impl. The text depends on the error alone; the contract gives
/// it a name and says nothing more of it.
#[verifier::external_body]
fn describe(e: &cosmwasm_std::StdError) -> (text: String)
    ensures
        text@ == std_error_text(*e),
{
    e.to_string()
}

} // verus!

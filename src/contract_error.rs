use vstd::prelude::*;

use soroban_env_common::Error;

verus! {

#[verifier::external_type_specification]
#[verifier::external_body]
pub struct ExError(Error);

/// Relies on soroban_env_common::Error::from_contract_error: it builds the
/// host error value of type "contract" that carries the given code.
pub assume_specification[ Error::from_contract_error ](code: u32) -> Error;

/// The error codes shared by the built-in contracts.
#[derive(Clone, Copy, Debug, PartialEq, Eq, Structural)]
pub enum ContractError {
    InternalError,
    OperationNotSupportedError,
    AlreadyInitializedError,
    UnauthorizedError,
    AuthenticationError,
    AccountMissingError,
    AccountIsNotClassic,
    NegativeAmountError,
    AllowanceError,
    BalanceError,
    BalanceDeauthorizedError,
    OverflowError,
    TrustlineMissingError,
}

impl ContractError {
    /// The numeric code of each error.
    pub open spec fn spec_code(self) -> u32 {
        match self {
            ContractError::InternalError => 1,
            ContractError::OperationNotSupportedError => 2,
            ContractError::AlreadyInitializedError => 3,
            ContractError::UnauthorizedError => 4,
            ContractError::AuthenticationError => 5,
            ContractError::AccountMissingError => 6,
            ContractError::AccountIsNotClassic => 7,
            ContractError::NegativeAmountError => 8,
            ContractError::AllowanceError => 9,
            ContractError::BalanceError => 10,
            ContractError::BalanceDeauthorizedError => 11,
            ContractError::OverflowError => 12,
            ContractError::TrustlineMissingError => 13,
        }
    }

    /// The numeric code of this error.
    pub fn code(&self) -> (r: u32)
        ensures
            r == self.spec_code(),
            1 <= r <= 13,
    {
        match self {
            ContractError::InternalError => 1,
            ContractError::OperationNotSupportedError => 2,
            ContractError::AlreadyInitializedError => 3,
            ContractError::UnauthorizedError => 4,
            ContractError::AuthenticationError => 5,
            ContractError::AccountMissingError => 6,
            ContractError::AccountIsNotClassic => 7,
            ContractError::NegativeAmountError => 8,
            ContractError::AllowanceError => 9,
            ContractError::BalanceError => 10,
            ContractError::BalanceDeauthorizedError => 11,
            ContractError::OverflowError => 12,
            ContractError::TrustlineMissingError => 13,
        }
    }

    /// The error whose code is `code`, if there is one.
    pub fn from_code(code: u32) -> (r: Option<ContractError>)
        ensures
            r is Some <==> 1 <= code <= 13,
            r matches Some(e) ==> e.spec_code() == code,
    {
        match code {
            1 => Some(ContractError::InternalError),
            2 => Some(ContractError::OperationNotSupportedError),
            3 => Some(ContractError::AlreadyInitializedError),
            4 => Some(ContractError::UnauthorizedError),
            5 => Some(ContractError::AuthenticationError),
            6 => Some(ContractError::AccountMissingError),
            7 => Some(ContractError::AccountIsNotClassic),
            8 => Some(ContractError::NegativeAmountError),
            9 => Some(ContractError::AllowanceError),
            10 => Some(ContractError::BalanceError),
            11 => Some(ContractError::BalanceDeauthorizedError),
            12 => Some(ContractError::OverflowError),
            13 => Some(ContractError::TrustlineMissingError),
            _ => None,
        }
    }

    /// The host error value of type "contract" that carries this error's code.
    pub fn into_error(self) -> Error {
        Error::from_contract_error(self.code())
    }
}

} // verus!

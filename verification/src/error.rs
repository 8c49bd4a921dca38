use vstd::prelude::*;

verus! {

/// Why a call was rejected. A rejected call changes nothing.
#[derive(Clone, Copy, Debug, PartialEq, Eq, PartialOrd, Ord, Structural)]
pub enum ExampleContractError {
    /// The required identity did not prove control, or is not the owner.
    Unauthorized,
    /// A value-moving call was made while the ledger is paused.
    ContractPaused,
    /// The holder owns less than the requested amount.
    InsufficientBalance,
    /// The spender's stored allowance is smaller than the requested amount.
    InsufficientAllowance,
    /// The spender's stored allowance would suffice but is past its expiry.
    AllowanceExpired,
    /// The total supply or a balance would leave the representable range.
    ArithmeticOverflow,
    /// No owner is stored.
    NotInitialized,
}

impl ExampleContractError {
    /// The stable number under which each error is reported to callers.
    pub open spec fn spec_code(self) -> u32 {
        match self {
            ExampleContractError::Unauthorized => 1,
            ExampleContractError::ContractPaused => 2,
            ExampleContractError::InsufficientBalance => 3,
            ExampleContractError::InsufficientAllowance => 4,
            ExampleContractError::AllowanceExpired => 5,
            ExampleContractError::ArithmeticOverflow => 6,
            ExampleContractError::NotInitialized => 7,
        }
    }

    /// The stable number under which this error is reported to callers.
    #[verifier::when_used_as_spec(spec_code)]
    pub fn code(self) -> (n: u32)
        ensures
            n == self.spec_code(),
    {
        match self {
            ExampleContractError::Unauthorized => 1,
            ExampleContractError::ContractPaused => 2,
            ExampleContractError::InsufficientBalance => 3,
            ExampleContractError::InsufficientAllowance => 4,
            ExampleContractError::AllowanceExpired => 5,
            ExampleContractError::ArithmeticOverflow => 6,
            ExampleContractError::NotInitialized => 7,
        }
    }
}

} // verus!

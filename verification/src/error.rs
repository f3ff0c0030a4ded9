//! Why a call is refused.

use vstd::prelude::*;
use vstd::string::*;

verus! {

/// The reasons for which this crate refuses a call. A refused call changes
/// nothing and emits nothing.
#[derive(Clone, Debug, PartialEq, Eq)]
pub enum ContractError {
    /// A deposit that holds none of the base asset.
    InvalidInput { denom: String },
    /// A redemption that the pool cannot pay without touching its reserves.
    InsufficientLiquidity { denom: String },
}

/// What a [`ContractError`] stands for.
pub enum ContractErrorView {
    InvalidInput { denom: Seq<char> },
    InsufficientLiquidity { denom: Seq<char> },
}

impl View for ContractError {
    type V = ContractErrorView;

    open spec fn view(&self) -> ContractErrorView {
        match self {
            ContractError::InvalidInput { denom } => ContractErrorView::InvalidInput {
                denom: denom@,
            },
            ContractError::InsufficientLiquidity {
                denom,
            } => ContractErrorView::InsufficientLiquidity { denom: denom@ },
        }
    }
}

/// The text that a caller is shown for an error.
pub open spec fn message_text(error: ContractErrorView) -> Seq<char> {
    match error {
        ContractErrorView::InvalidInput { denom } => "Deposit amount must be greater than 0 "@
            + denom,
        ContractErrorView::InsufficientLiquidity { denom } => "Not enough "@ + denom
            + " available; borrow demand too high"@,
    }
}

impl ContractError {
    /// The text that a caller is shown; it names the base asset.
    pub fn message(&self) -> (text: String)
        ensures
            text@ == message_text(self@),
    {
        match self {
            ContractError::InvalidInput { denom } => {
                String::from_str("Deposit amount must be greater than 0 ").concat(denom.as_str())
            },
            ContractError::InsufficientLiquidity { denom } => {
                String::from_str("Not enough ").concat(denom.as_str()).concat(
                    " available; borrow demand too high",
                )
            },
        }
    }
}

} // verus!

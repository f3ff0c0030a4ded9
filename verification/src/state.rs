//! The pool's parameters and its ledger.

use vstd::prelude::*;
use crate::address::CanonicalAddr;
use crate::number::{Decimal256, Uint256};

verus! {

/// Parameters of one deployment, fixed when it is created.
#[derive(Clone, Debug, PartialEq, Eq)]
pub struct Config {
    /// The pool's own address.
    pub contract_addr: CanonicalAddr,
    /// The contract that mints and burns the receipt token.
    pub aterra_contract: CanonicalAddr,
    /// Denomination of the base asset.
    pub stable_denom: String,
}

/// The ledger: one row per deployment, changed in place by every call.
#[derive(Clone, Copy, Debug, PartialEq, Eq)]
pub struct State {
    /// What borrowers owe the pool, interest accrued so far included.
    pub total_liabilities: Decimal256,
    /// The share of accrued interest that the protocol keeps; depositors
    /// have no claim on it.
    pub total_reserves: Decimal256,
    /// Block height up to which interest has been accrued. Only the accrual
    /// step moves it.
    pub last_interest_updated: u64,
    /// The receipt token's circulating supply as this ledger has followed
    /// it: raised with every mint command issued, lowered with every burn.
    pub prev_aterra_supply: Uint256,
}

/// What a [`Config`] stands for.
pub struct ConfigView {
    pub contract_addr: Seq<u8>,
    pub aterra_contract: Seq<u8>,
    pub stable_denom: Seq<char>,
}

/// What a [`State`] stands for. The two decimals are counted in atomic
/// units of `10^-18`.
pub struct StateView {
    pub total_liabilities: nat,
    pub total_reserves: nat,
    pub last_interest_updated: nat,
    pub prev_aterra_supply: nat,
}

impl View for Config {
    type V = ConfigView;

    open spec fn view(&self) -> ConfigView {
        ConfigView {
            contract_addr: self.contract_addr@,
            aterra_contract: self.aterra_contract@,
            stable_denom: self.stable_denom@,
        }
    }
}

impl View for State {
    type V = StateView;

    open spec fn view(&self) -> StateView {
        StateView {
            total_liabilities: self.total_liabilities@,
            total_reserves: self.total_reserves@,
            last_interest_updated: self.last_interest_updated as nat,
            prev_aterra_supply: self.prev_aterra_supply@,
        }
    }
}

impl State {
    /// The ledger of a new deployment: nothing lent, nothing kept, nothing
    /// minted.
    pub fn new(height: u64) -> (state: State)
        ensures
            state@ == (StateView {
                total_liabilities: 0,
                total_reserves: 0,
                last_interest_updated: height as nat,
                prev_aterra_supply: 0,
            }),
    {
        State {
            total_liabilities: Decimal256::zero(),
            total_reserves: Decimal256::zero(),
            last_interest_updated: height,
            prev_aterra_supply: Uint256::zero(),
        }
    }
}

} // verus!

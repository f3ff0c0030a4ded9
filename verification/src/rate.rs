//! The exchange rate: what one receipt token is worth in the base asset.

use vstd::prelude::*;
use vstd::arithmetic::div_mod::{
    lemma_div_denominator, lemma_div_is_ordered, lemma_div_multiples_vanish,
    lemma_fundamental_div_mod, lemma_mod_bound,
};
use crate::number::{
    decimal_add, decimal_div, decimal_from_uint256, decimal_gt, decimal_sub, limit, uint_gt,
    uint_sub, unit, Decimal256, Uint256,
};
use crate::state::{State, StateView};

verus! {

/// What the pool holds for its depositors, in atomic units: cash on hand
/// plus loans outstanding, less what the protocol keeps for itself.
pub open spec fn net_assets(state: StateView, balance: nat) -> int {
    balance * unit() + state.total_liabilities - state.total_reserves
}

/// The exchange rate in atomic units. With no receipt token outstanding it
/// is one whole; otherwise it is the net assets per token, rounded down to
/// the 18th digit.
pub open spec fn exchange_rate(state: StateView, supply: nat, balance: nat) -> nat {
    if supply == 0 {
        unit()
    } else {
        (net_assets(state, balance) / (supply as int)) as nat
    }
}

/// Whether the rate can be computed in 256-bit unsigned arithmetic: the net
/// assets are not negative, and neither they, scaled up for the division,
/// nor the supply as a decimal pass 256 bits. With no receipt token
/// outstanding nothing is computed and every ledger will do.
pub open spec fn exchange_rate_defined(state: StateView, supply: nat, balance: nat) -> bool {
    supply > 0 ==> {
        &&& balance * unit() + state.total_liabilities < limit()
        &&& net_assets(state, balance) >= 0
        &&& net_assets(state, balance) * unit() < limit()
        &&& supply * unit() < limit()
    }
}

/// Whether funds that arrived with the call in progress are part of the
/// measured balance and have to be left out of the price.
#[derive(Clone, Copy, Debug, PartialEq, Eq)]
pub enum PricingHint {
    /// The balance is as it was before the call.
    NoPendingDeposit,
    /// The balance already holds this deposit.
    PendingDeposit(Uint256),
}

impl PricingHint {
    /// The amount to leave out of the measured balance.
    pub open spec fn pending(self) -> nat {
        match self {
            PricingHint::NoPendingDeposit => 0,
            PricingHint::PendingDeposit(amount) => amount@,
        }
    }
}

/// Dividing both sides of a quotient by the same scale changes nothing.
proof fn lemma_scaled_quotient(n: int, d: int)
    requires
        n >= 0,
        d > 0,
    ensures
        (n * unit()) / (d * unit()) == n / d,
{
    let u = unit() as int;
    lemma_div_denominator(n * u, u, d);
    lemma_div_multiples_vanish(n, u);
    assert(u * d == d * u) by (nonlinear_arith);
    assert(u * n == n * u) by (nonlinear_arith);
}

/// The rate at which receipt tokens are priced, from the ledger, the
/// receipt token's circulating supply and the pool's balance of the base
/// asset.
pub fn compute_exchange_rate_raw(
    state: &State,
    aterra_supply: Uint256,
    contract_balance: Uint256,
) -> (rate: Decimal256)
    requires
        exchange_rate_defined(state@, aterra_supply@, contract_balance@),
    ensures
        rate@ == exchange_rate(state@, aterra_supply@, contract_balance@),
        aterra_supply@ == 0 ==> rate@ == unit(),
{
    if aterra_supply.is_zero() {
        return Decimal256::one();
    }
    let cash = decimal_from_uint256(contract_balance);
    let gross = decimal_add(cash, state.total_liabilities);
    let net = decimal_sub(gross, state.total_reserves);
    let shares = decimal_from_uint256(aterra_supply);
    proof {
        lemma_scaled_quotient(net@ as int, aterra_supply@ as int);
    }
    decimal_div(net, shares)
}

/// The rate for a call in progress: a pending deposit is taken out of the
/// measured balance first, so that new funds do not raise the price at which
/// they themselves are converted.
pub fn compute_exchange_rate(
    state: &State,
    aterra_supply: Uint256,
    measured_balance: Uint256,
    hint: PricingHint,
) -> (rate: Decimal256)
    requires
        hint.pending() <= measured_balance@,
        exchange_rate_defined(
            state@,
            aterra_supply@,
            (measured_balance@ - hint.pending()) as nat,
        ),
    ensures
        rate@ == exchange_rate(
            state@,
            aterra_supply@,
            (measured_balance@ - hint.pending()) as nat,
        ),
{
    let balance = match hint {
        PricingHint::NoPendingDeposit => measured_balance,
        PricingHint::PendingDeposit(amount) => uint_sub(measured_balance, amount),
    };
    compute_exchange_rate_raw(state, aterra_supply, balance)
}

/// Tests [`exchange_rate_defined`].
pub fn exchange_rate_is_defined(
    state: &State,
    aterra_supply: Uint256,
    contract_balance: Uint256,
) -> (defined: bool)
    ensures
        defined == exchange_rate_defined(state@, aterra_supply@, contract_balance@),
{
    if aterra_supply.is_zero() {
        return true;
    }
    if uint_gt(contract_balance, Uint256::max_whole()) || uint_gt(
        aterra_supply,
        Uint256::max_whole(),
    ) {
        return false;
    }
    let cash = decimal_from_uint256(contract_balance);
    let room = decimal_sub(Decimal256::max_value(), cash);
    if decimal_gt(state.total_liabilities, room) {
        return false;
    }
    let gross = decimal_add(cash, state.total_liabilities);
    if decimal_gt(state.total_reserves, gross) {
        return false;
    }
    let net = decimal_sub(gross, state.total_reserves);
    !decimal_gt(net, Decimal256::max_dividend())
}

/// With no receipt token outstanding the rate is one whole, whatever the
/// ledger and the balance hold.
pub proof fn lemma_rate_of_empty_supply(state: StateView, balance: nat)
    ensures
        exchange_rate(state, 0, balance) == unit(),
{
}

/// With receipt tokens outstanding the rate is the greatest number of atomic
/// units that, paid on every token, the net assets cover.
pub proof fn lemma_rate_is_rounded_down(state: StateView, balance: nat, supply: nat)
    requires
        supply > 0,
        net_assets(state, balance) >= 0,
    ensures
        exchange_rate(state, supply, balance) * supply <= net_assets(state, balance),
        net_assets(state, balance) < (exchange_rate(state, supply, balance) + 1) * supply,
{
    let net = net_assets(state, balance);
    let rate = net / (supply as int);
    lemma_fundamental_div_mod(net, supply as int);
    lemma_mod_bound(net, supply as int);
    assert(rate >= 0) by (nonlinear_arith)
        requires
            net >= 0,
            supply > 0,
            rate == net / (supply as int),
    ;
    assert(rate * supply == supply * rate) by (nonlinear_arith);
    assert((rate + 1) * supply == rate * supply + supply) by (nonlinear_arith);
}

/// For a fixed supply the rate does not fall when the net assets rise.
pub proof fn lemma_rate_monotonic(
    state1: StateView,
    balance1: nat,
    state2: StateView,
    balance2: nat,
    supply: nat,
)
    requires
        supply > 0,
        0 <= net_assets(state1, balance1) <= net_assets(state2, balance2),
    ensures
        exchange_rate(state1, supply, balance1) <= exchange_rate(state2, supply, balance2),
{
    lemma_div_is_ordered(net_assets(state1, balance1), net_assets(state2, balance2), supply as int);
}

} // verus!

//! Burning receipt tokens for the base asset they stand for.

use vstd::prelude::*;
use vstd::arithmetic::div_mod::{lemma_fundamental_div_mod, lemma_mod_bound};
use crate::address::HumanAddr;
use crate::asset::{Coin, CoinView};
use crate::command::{Command, CommandView, LogRecord, LogRecordView, Response, ResponseView};
use crate::deposit::minted;
use crate::error::{ContractError, ContractErrorView};
use crate::number::{
    decimal_add, decimal_from_uint256, decimal_gt, decimal_sub, limit, product_overflows,
    uint_gt, uint_mul_decimal, uint_sub, unit, Decimal256, Uint256,
};
use crate::rate::{
    compute_exchange_rate, compute_exchange_rate_raw, exchange_rate, exchange_rate_defined,
    exchange_rate_is_defined, PricingHint,
};
use crate::state::{Config, ConfigView, State, StateView};

verus! {

/// Base asset owed for burnt receipt tokens at a rate given in atomic units:
/// the tokens times the rate, rounded down.
pub open spec fn redeemed(burn: nat, rate: nat) -> nat {
    (burn * rate) / unit()
}

/// Whether paying `redeem_amount` would leave the pool with less on hand than
/// the reserves it has declared.
pub open spec fn insufficient_liquidity(
    state: StateView,
    current_balance: nat,
    redeem_amount: nat,
) -> bool {
    redeem_amount * unit() + state.total_reserves > current_balance * unit()
}

/// Whether the liquidity test can be made in 256-bit unsigned arithmetic:
/// both sides of the comparison, as decimals, stay below `2^256`.
pub open spec fn liquidity_test_defined(
    state: StateView,
    current_balance: nat,
    redeem_amount: nat,
) -> bool {
    &&& current_balance * unit() < limit()
    &&& redeem_amount * unit() + state.total_reserves < limit()
}

/// Whether a redemption can be settled in 256-bit unsigned arithmetic: the
/// rate can be computed, the amount owed and the liquidity test stay within
/// 256 bits, and, where the pool can pay, the ledger follows at least as
/// many tokens as are burnt and the amount owed fits the 128 bits of a coin.
pub open spec fn redeem_defined(
    state: StateView,
    burn: nat,
    supply: nat,
    balance: nat,
    current_balance: nat,
) -> bool {
    let rate = exchange_rate(state, supply, balance);
    let amount = redeemed(burn, rate);
    &&& exchange_rate_defined(state, supply, balance)
    &&& burn * rate < limit()
    &&& liquidity_test_defined(state, current_balance, amount)
    &&& !insufficient_liquidity(state, current_balance, amount) ==> {
        &&& burn <= state.prev_aterra_supply
        &&& amount <= u128::MAX
    }
}

/// A redemption that the ledger has taken in and that waits for its payout
/// to be fixed.
#[derive(Clone, Debug, PartialEq, Eq)]
pub struct Redemption {
    /// Receipt tokens to burn.
    pub burn_amount: u128,
    /// Base asset that the tokens are worth.
    pub redeem_amount: Uint256,
    /// The same as a coin of the base asset, before any transfer tax.
    pub owed: Coin,
}

/// What a [`Redemption`] stands for.
pub struct RedemptionView {
    pub burn_amount: nat,
    pub redeem_amount: nat,
    pub owed: CoinView,
}

impl View for Redemption {
    type V = RedemptionView;

    open spec fn view(&self) -> RedemptionView {
        RedemptionView {
            burn_amount: self.burn_amount as nat,
            redeem_amount: self.redeem_amount@,
            owed: self.owed@,
        }
    }
}

/// What a settled redemption hands back: the burn command, then the
/// transfer of the payout from the pool to the recipient, and the record.
pub open spec fn redeem_response(
    config: ConfigView,
    pool: Seq<char>,
    recipient: Seq<char>,
    redemption: RedemptionView,
    payout: CoinView,
) -> ResponseView {
    ResponseView {
        commands: seq![
            CommandView::Burn {
                token_contract: config.aterra_contract,
                amount: redemption.burn_amount,
            },
            CommandView::Transfer { from: pool, to: recipient, asset: payout },
        ],
        log: LogRecordView::Redeem {
            burn_amount: redemption.burn_amount,
            redeem_amount: redemption.redeem_amount,
        },
    }
}

/// Refuses a redemption that the pool cannot pay out of what it has on hand
/// beyond its reserves. A redemption that takes exactly what is there
/// passes.
pub fn assert_redeem_amount(
    config: &Config,
    state: &State,
    current_balance: Uint256,
    redeem_amount: Uint256,
) -> (result: Result<(), ContractError>)
    requires
        liquidity_test_defined(state@, current_balance@, redeem_amount@),
    ensures
        result is Err <==> insufficient_liquidity(state@, current_balance@, redeem_amount@),
        result matches Err(error) ==> error@ == (ContractErrorView::InsufficientLiquidity {
            denom: config.stable_denom@,
        }),
{
    let current_balance = decimal_from_uint256(current_balance);
    let redeem_amount = decimal_from_uint256(redeem_amount);
    if decimal_gt(decimal_add(redeem_amount, state.total_reserves), current_balance) {
        return Err(ContractError::InsufficientLiquidity { denom: config.stable_denom.clone() });
    }
    Ok(())
}

/// Tests [`liquidity_test_defined`].
pub fn liquidity_test_is_defined(
    state: &State,
    current_balance: Uint256,
    redeem_amount: Uint256,
) -> (defined: bool)
    ensures
        defined == liquidity_test_defined(state@, current_balance@, redeem_amount@),
{
    if uint_gt(current_balance, Uint256::max_whole()) || uint_gt(
        redeem_amount,
        Uint256::max_whole(),
    ) {
        return false;
    }
    let owed = decimal_from_uint256(redeem_amount);
    let room = decimal_sub(Decimal256::max_value(), owed);
    !decimal_gt(state.total_reserves, room)
}

/// Tests [`redeem_defined`].
pub fn redeem_is_defined(
    state: &State,
    burn_amount: u128,
    aterra_supply: Uint256,
    contract_balance: Uint256,
    current_balance: Uint256,
) -> (defined: bool)
    ensures
        defined == redeem_defined(
            state@,
            burn_amount as nat,
            aterra_supply@,
            contract_balance@,
            current_balance@,
        ),
{
    if !exchange_rate_is_defined(state, aterra_supply, contract_balance) {
        return false;
    }
    let rate = compute_exchange_rate_raw(state, aterra_supply, contract_balance);
    let burnt = Uint256::from_u128(burn_amount);
    if product_overflows(burnt, rate) {
        return false;
    }
    let redeem_amount = uint_mul_decimal(burnt, rate);
    if !liquidity_test_is_defined(state, current_balance, redeem_amount) {
        return false;
    }
    let on_hand = decimal_from_uint256(current_balance);
    let needed = decimal_add(decimal_from_uint256(redeem_amount), state.total_reserves);
    if decimal_gt(needed, on_hand) {
        return true;
    }
    !uint_gt(burnt, state.prev_aterra_supply) && redeem_amount.fits_u128()
}

/// Settles a redemption on the ledger.
///
/// `state` is the ledger with interest accrued up to this call;
/// `aterra_supply` and `contract_balance` are the receipt token's supply and
/// the pool's balance of the base asset as measured for pricing, and
/// `current_balance` is the balance on hand as measured for the liquidity
/// test.
///
/// The tokens are priced at the pool's rate. Where the pool cannot pay the
/// call is refused and the ledger stays as it was. Otherwise the supply
/// that the ledger follows falls by the burnt amount.
pub fn redeem_stable(
    config: &Config,
    state: &mut State,
    burn_amount: u128,
    aterra_supply: Uint256,
    contract_balance: Uint256,
    current_balance: Uint256,
) -> (result: Result<Redemption, ContractError>)
    requires
        redeem_defined(
            old(state)@,
            burn_amount as nat,
            aterra_supply@,
            contract_balance@,
            current_balance@,
        ),
    ensures
        ({
            let rate = exchange_rate(old(state)@, aterra_supply@, contract_balance@);
            let amount = redeemed(burn_amount as nat, rate);
            match result {
                Err(error) => {
                    &&& insufficient_liquidity(old(state)@, current_balance@, amount)
                    &&& error@ == (ContractErrorView::InsufficientLiquidity {
                        denom: config.stable_denom@,
                    })
                    &&& *final(state) == *old(state)
                },
                Ok(redemption) => {
                    &&& !insufficient_liquidity(old(state)@, current_balance@, amount)
                    &&& redemption@ == (RedemptionView {
                        burn_amount: burn_amount as nat,
                        redeem_amount: amount,
                        owed: CoinView { denom: config.stable_denom@, amount },
                    })
                    &&& final(state)@ == (StateView {
                        prev_aterra_supply: (old(state)@.prev_aterra_supply - burn_amount) as nat,
                        ..old(state)@
                    })
                },
            }
        }),
{
    let exchange_rate = compute_exchange_rate(
        state,
        aterra_supply,
        contract_balance,
        PricingHint::NoPendingDeposit,
    );
    let burnt = Uint256::from_u128(burn_amount);
    let redeem_amount = uint_mul_decimal(burnt, exchange_rate);
    match assert_redeem_amount(config, state, current_balance, redeem_amount) {
        Err(error) => {
            return Err(error);
        },
        Ok(()) => {},
    }
    state.prev_aterra_supply = uint_sub(state.prev_aterra_supply, burnt);
    Ok(
        Redemption {
            burn_amount,
            redeem_amount,
            owed: Coin { denom: config.stable_denom.clone(), amount: redeem_amount.to_u128() },
        },
    )
}

/// The response to a settled redemption, once the host has fixed the
/// payout: the coin owed, less the transfer tax that the chain takes.
pub fn finish_redeem(
    config: &Config,
    pool: HumanAddr,
    recipient: HumanAddr,
    redemption: &Redemption,
    payout: Coin,
) -> (response: Response)
    ensures
        response@ == redeem_response(config@, pool@, recipient@, redemption@, payout@),
{
    let burn = Command::Burn {
        token_contract: config.aterra_contract.duplicate(),
        amount: redemption.burn_amount,
    };
    let transfer = Command::Transfer { from: pool, to: recipient, asset: payout };
    let response = Response {
        commands: vec![burn, transfer],
        log: LogRecord::Redeem {
            burn_amount: redemption.burn_amount,
            redeem_amount: redemption.redeem_amount,
        },
    };
    proof {
        assert(response@.commands =~= seq![burn@, transfer@]);
    }
    response
}

/// The amount owed is the greatest whole number of units that the burnt
/// tokens are worth at the rate.
pub proof fn lemma_redeemed_is_rounded_down(burn: nat, rate: nat)
    ensures
        redeemed(burn, rate) * unit() <= burn * rate,
        burn * rate < (redeemed(burn, rate) + 1) * unit(),
{
}

/// A redemption that takes exactly what the pool has on hand beyond its
/// reserves passes the liquidity test; one atomic unit more fails it.
pub proof fn lemma_liquidity_boundary(state: StateView, current_balance: nat, redeem_amount: nat)
    ensures
        redeem_amount * unit() + state.total_reserves == current_balance * unit()
            ==> !insufficient_liquidity(state, current_balance, redeem_amount),
        redeem_amount * unit() + state.total_reserves > current_balance * unit()
            ==> insufficient_liquidity(state, current_balance, redeem_amount),
        redeem_amount * unit() + state.total_reserves <= current_balance * unit()
            ==> !insufficient_liquidity(state, current_balance, redeem_amount),
{
}

/// Depositing and at once redeeming what was minted, at one rate, never
/// pays out more than was paid in, and what it pays out less is rounding
/// alone: less than the rate plus one unit. It is at most one unit exactly
/// when the division that fixed the minted amount left a remainder of no
/// more than one whole, which it always does at a rate of one or less.
pub proof fn lemma_round_trip(deposit: nat, rate: nat)
    requires
        rate > 0,
    ensures
        redeemed(minted(deposit, rate), rate) <= deposit,
        (deposit - redeemed(minted(deposit, rate), rate)) * unit() < rate + unit(),
        deposit - redeemed(minted(deposit, rate), rate) <= 1 <==> (deposit * unit()) % rate
            <= unit(),
        rate <= unit() ==> deposit - redeemed(minted(deposit, rate), rate) <= 1,
{
    let scaled = (deposit * unit()) as int;
    let mint = scaled / (rate as int);
    let rest = scaled % (rate as int);
    assert(rest == (deposit * unit()) % rate);
    assert(mint == minted(deposit, rate));
    lemma_fundamental_div_mod(scaled, rate as int);
    lemma_mod_bound(scaled, rate as int);
    assert(mint >= 0) by (nonlinear_arith)
        requires
            scaled >= 0,
            rate > 0,
            mint == scaled / (rate as int),
    ;
    let paid = mint * rate;
    assert(paid == rate * mint) by (nonlinear_arith)
        requires
            paid == mint * rate,
    ;
    assert(paid == scaled - rest);
    assert(minted(deposit, rate) * rate == paid);
    assert(redeemed(minted(deposit, rate), rate) == paid / (unit() as int));
}

} // verus!

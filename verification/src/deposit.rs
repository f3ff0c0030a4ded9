//! Depositing the base asset for newly minted receipt tokens.

use vstd::prelude::*;
use vstd::arithmetic::div_mod::{lemma_fundamental_div_mod, lemma_mod_bound};
use crate::address::HumanAddr;
use crate::asset::{coins_view, Coin, CoinView};
use crate::command::{Command, CommandView, LogRecord, LogRecordView, Response, ResponseView};
use crate::error::{ContractError, ContractErrorView};
use crate::number::{limit, uint_add, uint_div_decimal, uint_gt, uint_sub, unit, Uint256};
use crate::rate::{
    compute_exchange_rate, compute_exchange_rate_raw, exchange_rate, exchange_rate_defined,
    exchange_rate_is_defined, PricingHint,
};
use crate::state::{Config, ConfigView, State, StateView};

verus! {

/// The deposit that a call carries: the amount of the first attached coin of
/// the given denomination, and zero where no coin has it.
pub open spec fn deposit_amount(denom: Seq<char>, funds: Seq<CoinView>) -> nat
    decreases funds.len(),
{
    if funds.len() == 0 {
        0
    } else if funds.first().denom == denom {
        funds.first().amount
    } else {
        deposit_amount(denom, funds.drop_first())
    }
}

/// Receipt tokens minted for a deposit at a rate given in atomic units: the
/// deposit divided by the rate, rounded down.
pub open spec fn minted(deposit: nat, rate: nat) -> nat {
    (deposit * unit()) / rate
}

/// The rate at which a deposit is priced: that of the pool as it was before
/// the deposit arrived.
pub open spec fn deposit_rate(state: StateView, supply: nat, balance: nat, amount: nat) -> nat {
    exchange_rate(state, supply, (balance - amount) as nat)
}

/// Whether a deposit can be settled in 256-bit unsigned arithmetic. A call
/// without a deposit is refused before anything is computed, so it always
/// can. Otherwise the measured balance holds the deposit, the rate of the
/// pool without it can be computed and is not zero, the minted amount fits
/// the 128 bits of a mint command, and the supply that the ledger follows
/// stays below `2^256`.
pub open spec fn deposit_defined(
    config: ConfigView,
    state: StateView,
    funds: Seq<CoinView>,
    supply: nat,
    balance: nat,
) -> bool {
    let amount = deposit_amount(config.stable_denom, funds);
    let rate = deposit_rate(state, supply, balance, amount);
    amount > 0 ==> {
        &&& amount <= balance
        &&& exchange_rate_defined(state, supply, (balance - amount) as nat)
        &&& rate > 0
        &&& minted(amount, rate) <= u128::MAX
        &&& state.prev_aterra_supply + minted(amount, rate) < limit()
    }
}

/// What a successful deposit hands back: one command, which mints to the
/// depositor, and the record of the deposit.
pub open spec fn deposit_response(
    config: ConfigView,
    depositor: Seq<char>,
    amount: nat,
    mint: nat,
) -> ResponseView {
    ResponseView {
        commands: seq![
            CommandView::Mint {
                token_contract: config.aterra_contract,
                recipient: depositor,
                amount: mint,
            },
        ],
        log: LogRecordView::Deposit { depositor, mint_amount: mint, deposit_amount: amount },
    }
}

/// Coins before the first one of the denomination do not count.
proof fn lemma_deposit_amount_skip(denom: Seq<char>, funds: Seq<CoinView>, n: int)
    requires
        0 <= n <= funds.len(),
        forall|j: int| 0 <= j < n ==> funds[j].denom != denom,
    ensures
        deposit_amount(denom, funds) == deposit_amount(denom, funds.skip(n)),
    decreases n,
{
    if n == 0 {
        assert(funds.skip(0) =~= funds);
    } else {
        lemma_deposit_amount_skip(denom, funds, n - 1);
        let rest = funds.skip(n - 1);
        assert(rest.first() == funds[n - 1]);
        assert(rest.drop_first() =~= funds.skip(n));
    }
}

/// The deposit that a call carries in the pool's base asset.
pub fn received_deposit(config: &Config, sent_funds: &Vec<Coin>) -> (amount: Uint256)
    ensures
        amount@ == deposit_amount(config.stable_denom@, coins_view(sent_funds@)),
        amount@ <= u128::MAX,
{
    let ghost funds = coins_view(sent_funds@);
    let mut i: usize = 0;
    while i < sent_funds.len()
        invariant
            i <= sent_funds.len(),
            funds == coins_view(sent_funds@),
            forall|j: int| 0 <= j < i ==> funds[j].denom != config.stable_denom@,
        decreases sent_funds.len() - i,
    {
        if sent_funds[i].denom == config.stable_denom {
            proof {
                lemma_deposit_amount_skip(config.stable_denom@, funds, i as int);
                assert(funds.skip(i as int).first() == sent_funds[i as int]@);
            }
            return Uint256::from_u128(sent_funds[i].amount);
        }
        i += 1;
    }
    proof {
        lemma_deposit_amount_skip(config.stable_denom@, funds, funds.len() as int);
    }
    Uint256::zero()
}

/// Tests [`deposit_defined`].
pub fn deposit_is_defined(
    config: &Config,
    state: &State,
    sent_funds: &Vec<Coin>,
    aterra_supply: Uint256,
    contract_balance: Uint256,
) -> (defined: bool)
    ensures
        defined == deposit_defined(
            config@,
            state@,
            coins_view(sent_funds@),
            aterra_supply@,
            contract_balance@,
        ),
{
    let amount = received_deposit(config, sent_funds);
    if amount.is_zero() {
        return true;
    }
    if uint_gt(amount, contract_balance) {
        return false;
    }
    let before = uint_sub(contract_balance, amount);
    if !exchange_rate_is_defined(state, aterra_supply, before) {
        return false;
    }
    let rate = compute_exchange_rate_raw(state, aterra_supply, before);
    if rate.is_zero() {
        return false;
    }
    let mint = uint_div_decimal(amount, rate);
    if !mint.fits_u128() {
        return false;
    }
    let room = uint_sub(Uint256::max_value(), state.prev_aterra_supply);
    !uint_gt(mint, room)
}

/// The minted amount is the greatest number of tokens that the deposit pays
/// for at the rate.
pub proof fn lemma_minted_is_rounded_down(deposit: nat, rate: nat)
    requires
        rate > 0,
    ensures
        minted(deposit, rate) * rate <= deposit * unit(),
        deposit * unit() < (minted(deposit, rate) + 1) * rate,
{
    let scaled = (deposit * unit()) as int;
    let mint = scaled / (rate as int);
    lemma_fundamental_div_mod(scaled, rate as int);
    lemma_mod_bound(scaled, rate as int);
    assert(mint >= 0) by (nonlinear_arith)
        requires
            scaled >= 0,
            rate > 0,
            mint == scaled / (rate as int),
    ;
    assert(mint * rate == rate * mint) by (nonlinear_arith);
    assert((mint + 1) * rate == mint * rate + rate) by (nonlinear_arith);
}

/// A call that carries no coin of the base asset carries no deposit.
pub proof fn lemma_other_denominations_carry_no_deposit(denom: Seq<char>, funds: Seq<CoinView>)
    requires
        forall|j: int| 0 <= j < funds.len() ==> funds[j].denom != denom,
    ensures
        deposit_amount(denom, funds) == 0,
{
    lemma_deposit_amount_skip(denom, funds, funds.len() as int);
}

/// Settles a deposit.
///
/// `state` is the ledger with interest accrued up to this call;
/// `aterra_supply` and `contract_balance` are the receipt token's supply and
/// the pool's balance of the base asset as the host has just measured them,
/// the balance with the deposit already in it.
///
/// A call that carries none of the base asset is refused and leaves the
/// ledger as it was. Any other call is priced at the rate of the pool
/// without the deposit, raises the supply that the ledger follows by the
/// minted amount, and hands back the mint command and the record.
pub fn deposit_stable(
    config: &Config,
    state: &mut State,
    depositor: HumanAddr,
    sent_funds: &Vec<Coin>,
    aterra_supply: Uint256,
    contract_balance: Uint256,
) -> (result: Result<Response, ContractError>)
    requires
        deposit_defined(
            config@,
            old(state)@,
            coins_view(sent_funds@),
            aterra_supply@,
            contract_balance@,
        ),
    ensures
        ({
            let amount = deposit_amount(config.stable_denom@, coins_view(sent_funds@));
            let rate = deposit_rate(old(state)@, aterra_supply@, contract_balance@, amount);
            let mint = minted(amount, rate);
            match result {
                Err(error) => {
                    &&& amount == 0
                    &&& error@ == (ContractErrorView::InvalidInput {
                        denom: config.stable_denom@,
                    })
                    &&& *final(state) == *old(state)
                },
                Ok(response) => {
                    &&& amount > 0
                    &&& response@ == deposit_response(config@, depositor@, amount, mint)
                    &&& final(state)@ == (StateView {
                        prev_aterra_supply: old(state)@.prev_aterra_supply + mint,
                        ..old(state)@
                    })
                },
            }
        }),
        (forall|j: int|
            0 <= j < sent_funds@.len() ==> (#[trigger] sent_funds@[j]).denom@
                != config.stable_denom@) ==> result is Err,
{
    proof {
        let funds = coins_view(sent_funds@);
        if forall|j: int|
            0 <= j < sent_funds@.len() ==> (#[trigger] sent_funds@[j]).denom@
                != config.stable_denom@ {
            assert forall|j: int| 0 <= j < funds.len() implies funds[j].denom
                != config.stable_denom@ by {
                assert(funds[j] == sent_funds@[j]@);
            }
            lemma_other_denominations_carry_no_deposit(config.stable_denom@, funds);
        }
    }
    let deposit_amount = received_deposit(config, sent_funds);
    if deposit_amount.is_zero() {
        return Err(ContractError::InvalidInput { denom: config.stable_denom.clone() });
    }
    let exchange_rate = compute_exchange_rate(
        state,
        aterra_supply,
        contract_balance,
        PricingHint::PendingDeposit(deposit_amount),
    );
    let mint_amount = uint_div_decimal(deposit_amount, exchange_rate);
    state.prev_aterra_supply = uint_add(state.prev_aterra_supply, mint_amount);

    let mint = Command::Mint {
        token_contract: config.aterra_contract.duplicate(),
        recipient: depositor.duplicate(),
        amount: mint_amount.to_u128(),
    };
    let response = Response {
        commands: vec![mint],
        log: LogRecord::Deposit { depositor, mint_amount, deposit_amount },
    };
    proof {
        assert(response@.commands =~= seq![mint@]);
    }
    Ok(response)
}

} // verus!

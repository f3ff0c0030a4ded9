//! What a successful call hands back: commands for the host to execute, in
//! order, and one record for observers.

use vstd::prelude::*;
use crate::address::{CanonicalAddr, HumanAddr};
use crate::asset::{Coin, CoinView};
use crate::number::Uint256;

verus! {

/// An effect that a call asks the host to carry out after it has returned.
#[derive(Clone, Debug, PartialEq, Eq)]
pub enum Command {
    /// Has the receipt-token contract mint `amount` to `recipient`.
    Mint { token_contract: CanonicalAddr, recipient: HumanAddr, amount: u128 },
    /// Has the receipt-token contract burn `amount` of what the pool holds.
    Burn { token_contract: CanonicalAddr, amount: u128 },
    /// Sends `asset` from the pool to `to`.
    Transfer { from: HumanAddr, to: HumanAddr, asset: Coin },
}

/// The record of a successful call.
#[derive(Clone, Debug, PartialEq, Eq)]
pub enum LogRecord {
    Deposit { depositor: HumanAddr, mint_amount: Uint256, deposit_amount: Uint256 },
    Redeem { burn_amount: u128, redeem_amount: Uint256 },
}

/// The outcome of a successful call.
#[derive(Clone, Debug, PartialEq, Eq)]
pub struct Response {
    /// Commands in the order in which the host is to execute them.
    pub commands: Vec<Command>,
    pub log: LogRecord,
}

/// What a [`Command`] stands for.
pub enum CommandView {
    Mint { token_contract: Seq<u8>, recipient: Seq<char>, amount: nat },
    Burn { token_contract: Seq<u8>, amount: nat },
    Transfer { from: Seq<char>, to: Seq<char>, asset: CoinView },
}

/// What a [`LogRecord`] stands for.
pub enum LogRecordView {
    Deposit { depositor: Seq<char>, mint_amount: nat, deposit_amount: nat },
    Redeem { burn_amount: nat, redeem_amount: nat },
}

/// What a [`Response`] stands for.
pub struct ResponseView {
    pub commands: Seq<CommandView>,
    pub log: LogRecordView,
}

impl View for Command {
    type V = CommandView;

    open spec fn view(&self) -> CommandView {
        match self {
            Command::Mint { token_contract, recipient, amount } => CommandView::Mint {
                token_contract: token_contract@,
                recipient: recipient@,
                amount: *amount as nat,
            },
            Command::Burn { token_contract, amount } => CommandView::Burn {
                token_contract: token_contract@,
                amount: *amount as nat,
            },
            Command::Transfer { from, to, asset } => CommandView::Transfer {
                from: from@,
                to: to@,
                asset: asset@,
            },
        }
    }
}

impl View for LogRecord {
    type V = LogRecordView;

    open spec fn view(&self) -> LogRecordView {
        match self {
            LogRecord::Deposit { depositor, mint_amount, deposit_amount } => LogRecordView::Deposit {
                depositor: depositor@,
                mint_amount: mint_amount@,
                deposit_amount: deposit_amount@,
            },
            LogRecord::Redeem { burn_amount, redeem_amount } => LogRecordView::Redeem {
                burn_amount: *burn_amount as nat,
                redeem_amount: redeem_amount@,
            },
        }
    }
}

impl View for Response {
    type V = ResponseView;

    open spec fn view(&self) -> ResponseView {
        ResponseView { commands: self.commands@.map_values(|c: Command| c@), log: self.log@ }
    }
}

} // verus!

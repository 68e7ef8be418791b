use vstd::prelude::*;

use crate::state::{Coin, CoinModel, Deal, Ics20Packet};

verus! {

/// Message that sets the contract up; it carries nothing.
#[derive(Clone, Copy, Debug, PartialEq, Eq, Structural)]
pub struct InstantiateMsg {}

/// The operations a caller on this ledger can ask for.
#[derive(Clone, Debug, PartialEq, Eq)]
pub enum ExecuteMsg {
    CreateDeal { seller: String, buyer: String, coin_a: Coin, coin_b: Coin, expiry: u64 },
    Deposit {},
    CompleteDeal {},
    Withdraw {},
    Reset {},
}

/// The operations a packet from another ledger can ask for.
#[derive(Clone, Debug, PartialEq, Eq)]
pub enum IbcExecuteMsg {
    Deposit { packet20: Ics20Packet },
    Withdraw { packet20: Ics20Packet },
    CompleteDeal { packet20: Ics20Packet },
}

/// Holdings of an account.
#[derive(Clone, Debug, PartialEq, Eq)]
pub struct BalancesResponse {
    pub balances: Vec<Coin>,
}

/// One deal, as a query returns it.
#[derive(Clone, Debug, PartialEq, Eq)]
pub struct DealResponse {
    pub deal: Deal,
}

/// The questions the contract answers.
#[derive(Clone, Debug, PartialEq, Eq)]
pub enum QueryMsg {
    GetBalances { address: String },
    GetDeal { id: u64 },
}

/// A transfer on this ledger, from escrow to `to_address`.
#[derive(Clone, Debug, PartialEq, Eq)]
pub struct BankSend {
    pub to_address: String,
    pub amount: Coin,
}

/// Mathematical model of a `BankSend`.
pub struct BankSendModel {
    pub to_address: Seq<char>,
    pub amount: CoinModel,
}

impl View for BankSend {
    type V = BankSendModel;

    open spec fn view(&self) -> BankSendModel {
        BankSendModel { to_address: self.to_address@, amount: self.amount@ }
    }
}

/// A transfer relayed to another ledger over `channel_id`, given up at block time `timeout`
/// (nanoseconds).
#[derive(Clone, Debug, PartialEq, Eq)]
pub struct IbcTransfer {
    pub channel_id: String,
    pub to_address: String,
    pub amount: Coin,
    pub timeout: u64,
}

/// Mathematical model of an `IbcTransfer`.
pub struct IbcTransferModel {
    pub channel_id: Seq<char>,
    pub to_address: Seq<char>,
    pub amount: CoinModel,
    pub timeout: nat,
}

impl View for IbcTransfer {
    type V = IbcTransferModel;

    open spec fn view(&self) -> IbcTransferModel {
        IbcTransferModel {
            channel_id: self.channel_id@,
            to_address: self.to_address@,
            amount: self.amount@,
            timeout: self.timeout as nat,
        }
    }
}

} // verus!

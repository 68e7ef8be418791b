use vstd::prelude::*;

verus! {

/// An amount of one denomination.
#[derive(Clone, Debug, PartialEq, Eq)]
pub struct Coin {
    pub denom: String,
    pub amount: u128,
}

/// Mathematical model of a `Coin`.
pub struct CoinModel {
    pub denom: Seq<char>,
    pub amount: nat,
}

impl View for Coin {
    type V = CoinModel;

    open spec fn view(&self) -> CoinModel {
        CoinModel { denom: self.denom@, amount: self.amount as nat }
    }
}

impl Coin {
    /// Copies the coin, field by field.
    pub fn copy(&self) -> (r: Coin)
        ensures
            r@ == self@,
    {
        Coin { denom: self.denom.clone(), amount: self.amount }
    }
}

/// One proposed exchange of `coin_a` (owed by the seller) for `coin_b` (owed by the buyer).
#[derive(Clone, Debug, PartialEq, Eq)]
pub struct Deal {
    pub seller: String,
    pub buyer: String,
    pub coin_a: Coin,
    pub coin_b: Coin,
    pub expiry: u64,
    pub finished: bool,
    pub seller_deposited: bool,
    pub buyer_deposited: bool,
    pub seller_withdrew: bool,
    pub buyer_withdrew: bool,
    pub channel_id_recieved_a: String,
    pub channel_id_recieved_b: String,
}

/// Mathematical model of a `Deal`.
pub struct DealModel {
    pub seller: Seq<char>,
    pub buyer: Seq<char>,
    pub coin_a: CoinModel,
    pub coin_b: CoinModel,
    pub expiry: nat,
    pub finished: bool,
    pub seller_deposited: bool,
    pub buyer_deposited: bool,
    pub seller_withdrew: bool,
    pub buyer_withdrew: bool,
    pub channel_id_recieved_a: Seq<char>,
    pub channel_id_recieved_b: Seq<char>,
}

impl View for Deal {
    type V = DealModel;

    open spec fn view(&self) -> DealModel {
        DealModel {
            seller: self.seller@,
            buyer: self.buyer@,
            coin_a: self.coin_a@,
            coin_b: self.coin_b@,
            expiry: self.expiry as nat,
            finished: self.finished,
            seller_deposited: self.seller_deposited,
            buyer_deposited: self.buyer_deposited,
            seller_withdrew: self.seller_withdrew,
            buyer_withdrew: self.buyer_withdrew,
            channel_id_recieved_a: self.channel_id_recieved_a@,
            channel_id_recieved_b: self.channel_id_recieved_b@,
        }
    }
}

impl Deal {
    /// Copies the deal, field by field.
    pub fn copy(&self) -> (r: Deal)
        ensures
            r@ == self@,
    {
        Deal {
            seller: self.seller.clone(),
            buyer: self.buyer.clone(),
            coin_a: self.coin_a.copy(),
            coin_b: self.coin_b.copy(),
            expiry: self.expiry,
            finished: self.finished,
            seller_deposited: self.seller_deposited,
            buyer_deposited: self.buyer_deposited,
            seller_withdrew: self.seller_withdrew,
            buyer_withdrew: self.buyer_withdrew,
            channel_id_recieved_a: self.channel_id_recieved_a.clone(),
            channel_id_recieved_b: self.channel_id_recieved_b.clone(),
        }
    }
}

/// The registry: every deal, in order of creation; a deal's id is its position.
#[derive(Clone, Debug, PartialEq, Eq)]
pub struct State {
    pub deals: Vec<Deal>,
}

impl View for State {
    type V = Seq<DealModel>;

    open spec fn view(&self) -> Seq<DealModel> {
        self.deals@.map_values(|d: Deal| d@)
    }
}

impl State {
    /// The registry as it stands before any deal is created.
    pub fn new() -> (r: State)
        ensures
            r@ == Seq::<DealModel>::empty(),
    {
        State { deals: Vec::new() }
    }
}

/// A transfer packet arriving from another ledger.
#[derive(Clone, Debug, PartialEq, Eq, Default)]
pub struct Ics20Packet {
    /// amount of tokens to transfer
    pub amount: u128,
    /// the token denomination to be transferred
    pub denom: String,
    /// the recipient address on the destination chain
    pub receiver: String,
    /// the sender address
    pub sender: String,
    /// optional memo for the transfer
    pub memo: Option<String>,
}

} // verus!

use vstd::prelude::*;

use crate::lookup::{first_party, first_party_with_denom};
use crate::state::{CoinModel, DealModel};

verus! {

/// Nanoseconds in one second: block times are counted in nanoseconds, expiries in seconds.
pub const NANOS_PER_SECOND: u64 = 1_000_000_000;

/// How long, in seconds after the current block time, an outbound cross-ledger transfer may
/// take before the transport gives it up.
pub const IBC_TRANSFER_TIMEOUT_SECONDS: u64 = 100;

/// The ways an operation fails; on each of them the registry is left as it was.
#[derive(Clone, Copy, Debug, PartialEq, Eq, Structural)]
pub enum ContractError {
    /// No deal matches, or a deal id is out of range.
    NotFound,
    /// The caller is neither counterparty, or not the administrator.
    Unauthorized,
    /// The amount offered is not the amount the deal expects, or nothing is offered.
    InvalidAmount,
    /// The deal is expired or finished, or its deposits do not allow the operation.
    InvalidState,
}

/// The deal can no longer take a deposit or a completion at block time `now` (nanoseconds).
pub open spec fn expired_or_finished(d: DealModel, now: nat) -> bool {
    now > d.expiry * (NANOS_PER_SECOND as nat) || d.finished
}

/// Block time (nanoseconds) at which an outbound cross-ledger transfer sent at `now` times out.
pub open spec fn ibc_timeout(now: nat) -> nat {
    (now + IBC_TRANSFER_TIMEOUT_SECONDS * NANOS_PER_SECOND) as nat
}

/// The deal after `sender` put `amount` of `coin_a` (seller) or `coin_b` (buyer) in escrow;
/// `channel`, for a deposit that arrived from another ledger, is where it came from.
pub open spec fn deposit_model(
    deals: Seq<DealModel>,
    now: nat,
    sender: Seq<char>,
    funds: CoinModel,
    channel: Option<Seq<char>>,
) -> Result<Seq<DealModel>, ContractError> {
    match first_party_with_denom(deals, sender, funds.denom) {
        None => Err(ContractError::NotFound),
        Some(k) => {
            let d = deals[k];
            if expired_or_finished(d, now) {
                Err(ContractError::InvalidState)
            } else if sender == d.seller {
                if d.coin_a.amount == funds.amount {
                    let d2 = DealModel { seller_deposited: true, ..d };
                    Ok(
                        deals.update(
                            k,
                            match channel {
                                Some(c) => DealModel { channel_id_recieved_a: c, ..d2 },
                                None => d2,
                            },
                        ),
                    )
                } else {
                    Err(ContractError::InvalidAmount)
                }
            } else if sender == d.buyer {
                if d.coin_b.amount == funds.amount {
                    let d2 = DealModel { buyer_deposited: true, ..d };
                    Ok(
                        deals.update(
                            k,
                            match channel {
                                Some(c) => DealModel { channel_id_recieved_b: c, ..d2 },
                                None => d2,
                            },
                        ),
                    )
                } else {
                    Err(ContractError::InvalidAmount)
                }
            } else {
                Err(ContractError::Unauthorized)
            }
        },
    }
}

/// Which deal a completion by `sender` settles, and whether `sender` is paid as its seller
/// (`true`, receiving `coin_b`) or as its buyer (`false`, receiving `coin_a`). Each side is
/// paid once: a side that has already claimed its leg is refused.
pub open spec fn complete_model(deals: Seq<DealModel>, now: nat, sender: Seq<char>) -> Result<
    (int, bool),
    ContractError,
> {
    match first_party(deals, sender) {
        None => Err(ContractError::NotFound),
        Some(k) => {
            let d = deals[k];
            if expired_or_finished(d, now) {
                Err(ContractError::InvalidState)
            } else if !d.seller_deposited || !d.buyer_deposited {
                Err(ContractError::InvalidState)
            } else if sender == d.seller {
                if d.seller_withdrew {
                    Err(ContractError::InvalidState)
                } else {
                    Ok((k, true))
                }
            } else if sender == d.buyer {
                if d.buyer_withdrew {
                    Err(ContractError::InvalidState)
                } else {
                    Ok((k, false))
                }
            } else {
                Err(ContractError::InvalidState)
            }
        },
    }
}

/// The deal after its seller (`to_seller`) or its buyer claimed the counter-asset; it is
/// finished once both have.
pub open spec fn after_complete(d: DealModel, to_seller: bool) -> DealModel {
    let d2 = if to_seller {
        DealModel { seller_withdrew: true, ..d }
    } else {
        DealModel { buyer_withdrew: true, ..d }
    };
    if d2.seller_withdrew && d2.buyer_withdrew {
        DealModel { finished: true, ..d2 }
    } else {
        d2
    }
}

/// What a completion pays: `coin_b` to the seller, `coin_a` to the buyer.
pub open spec fn complete_payout(d: DealModel, to_seller: bool) -> CoinModel {
    if to_seller {
        d.coin_b
    } else {
        d.coin_a
    }
}

/// The channel a completion pays over: the one on which the paid coin's deposit arrived.
pub open spec fn complete_channel(d: DealModel, to_seller: bool) -> Seq<char> {
    if to_seller {
        d.channel_id_recieved_b
    } else {
        d.channel_id_recieved_a
    }
}

/// Which deal a refund to `sender` comes from, and whether it refunds its seller (`true`,
/// `coin_a`) or its buyer (`false`, `coin_b`).
pub open spec fn withdraw_model(deals: Seq<DealModel>, sender: Seq<char>) -> Result<
    (int, bool),
    ContractError,
> {
    match first_party(deals, sender) {
        None => Err(ContractError::NotFound),
        Some(k) => {
            let d = deals[k];
            if d.finished {
                Err(ContractError::InvalidState)
            } else if d.seller_deposited && d.buyer_deposited {
                Err(ContractError::InvalidState)
            } else if d.seller_deposited {
                if sender == d.seller {
                    Ok((k, true))
                } else {
                    Err(ContractError::Unauthorized)
                }
            } else if d.buyer_deposited {
                if sender == d.buyer {
                    Ok((k, false))
                } else {
                    Err(ContractError::Unauthorized)
                }
            } else {
                Err(ContractError::InvalidState)
            }
        },
    }
}

/// The deal after its seller (`to_seller`) or its buyer took the own deposit back.
pub open spec fn after_withdraw(d: DealModel, to_seller: bool) -> DealModel {
    if to_seller {
        DealModel { seller_deposited: false, ..d }
    } else {
        DealModel { buyer_deposited: false, ..d }
    }
}

/// What a refund pays back: `coin_a` to the seller, `coin_b` to the buyer.
pub open spec fn refund(d: DealModel, to_seller: bool) -> CoinModel {
    if to_seller {
        d.coin_a
    } else {
        d.coin_b
    }
}

/// The channel a refund pays over: the one on which that same deposit arrived.
pub open spec fn refund_channel(d: DealModel, to_seller: bool) -> Seq<char> {
    if to_seller {
        d.channel_id_recieved_a
    } else {
        d.channel_id_recieved_b
    }
}

/// The caller holds the administrator role.
pub open spec fn is_admin(admin: Option<Seq<char>>, sender: Seq<char>) -> bool {
    admin == Some(sender)
}

/// A freshly proposed deal: nothing deposited, nothing paid, no channel recorded.
pub open spec fn new_deal(
    seller: Seq<char>,
    buyer: Seq<char>,
    coin_a: CoinModel,
    coin_b: CoinModel,
    expiry: nat,
) -> DealModel {
    DealModel {
        seller,
        buyer,
        coin_a,
        coin_b,
        expiry,
        finished: false,
        seller_deposited: false,
        buyer_deposited: false,
        seller_withdrew: false,
        buyer_withdrew: false,
        channel_id_recieved_a: Seq::empty(),
        channel_id_recieved_b: Seq::empty(),
    }
}

} // verus!

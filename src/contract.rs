use vstd::prelude::*;

use crate::lookup::{find_deal, find_deal_with_denom};
use crate::model::{
    after_complete, after_withdraw, complete_channel, complete_model, complete_payout,
    deposit_model, expired_or_finished, ibc_timeout, is_admin, new_deal, refund, refund_channel,
    withdraw_model, ContractError, IBC_TRANSFER_TIMEOUT_SECONDS, NANOS_PER_SECOND,
};
use crate::msg::{BankSend, ExecuteMsg, IbcExecuteMsg, IbcTransfer};
use crate::state::{Coin, CoinModel, Deal, DealModel, Ics20Packet, State};

verus! {

/// A completion from the deal at `k`: in range, not finished, funded by both sides, and the
/// side paid (`to_seller`) not yet paid before.
pub open spec fn paid_once(deals: Seq<DealModel>, k: int, to_seller: bool) -> bool {
    &&& 0 <= k < deals.len()
    &&& !deals[k].finished
    &&& deals[k].seller_deposited && deals[k].buyer_deposited
    &&& to_seller ==> !deals[k].seller_withdrew
    &&& !to_seller ==> !deals[k].buyer_withdrew
}

/// A refund from the deal at `k`: in range, not finished, and funded by the refunded side
/// (`to_seller`) alone.
pub open spec fn refunded_alone(deals: Seq<DealModel>, k: int, to_seller: bool) -> bool {
    &&& 0 <= k < deals.len()
    &&& !deals[k].finished
    &&& !(deals[k].seller_deposited && deals[k].buyer_deposited)
    &&& to_seller ==> deals[k].seller_deposited
    &&& !to_seller ==> deals[k].buyer_deposited
}

/// Replaces the deal at `k`.
fn put_deal(state: &mut State, k: usize, d: Deal)
    requires
        k < old(state).deals.len(),
    ensures
        final(state)@ == old(state)@.update(k as int, d@),
        final(state).deals.len() == old(state).deals.len(),
{
    state.deals.set(k, d);
    assert(state@ =~= old(state)@.update(k as int, d@));
}

/// Whether the deal can no longer take a deposit or a completion at block time `now`.
fn deal_expired_or_finished(deal: &Deal, now: u64) -> (r: bool)
    ensures
        r == expired_or_finished(deal@, now as nat),
{
    (now as u128) > (deal.expiry as u128) * (NANOS_PER_SECOND as u128) || deal.finished
}

/// Puts `amount` of `denom` from `sender` in escrow, recording `channel` as where it came from.
fn deposit_funds(
    state: &mut State,
    now: u64,
    sender: &String,
    denom: &String,
    amount: u128,
    channel: Option<&String>,
) -> (r: Result<(), ContractError>)
    ensures
        match deposit_model(
            old(state)@,
            now as nat,
            sender@,
            CoinModel { denom: denom@, amount: amount as nat },
            match channel {
                Some(c) => Some(c@),
                None => None,
            },
        ) {
            Ok(deals) => r is Ok && final(state)@ == deals,
            Err(e) => r == Err::<(), ContractError>(e) && final(state)@ == old(state)@,
        },
{
    let found = find_deal_with_denom(state, sender, denom);
    let k = match found {
        None => {
            return Err(ContractError::NotFound);
        },
        Some(k) => k,
    };
    let mut deal = state.deals[k].copy();
    proof {
        assert(state@[k as int] == deal@);
    }
    if deal_expired_or_finished(&deal, now) {
        return Err(ContractError::InvalidState);
    }
    if *sender == deal.seller {
        if deal.coin_a.amount != amount {
            return Err(ContractError::InvalidAmount);
        }
        deal.seller_deposited = true;
        if let Some(c) = channel {
            deal.channel_id_recieved_a = c.clone();
        }
    } else if *sender == deal.buyer {
        if deal.coin_b.amount != amount {
            return Err(ContractError::InvalidAmount);
        }
        deal.buyer_deposited = true;
        if let Some(c) = channel {
            deal.channel_id_recieved_b = c.clone();
        }
    } else {
        return Err(ContractError::Unauthorized);
    }
    put_deal(state, k, deal);
    Ok(())
}

/// Puts the coin that `sender` attached in escrow, as the seller's `coin_a` or the buyer's
/// `coin_b` of the first deal where `sender` owes that denomination. Exactly one coin must be
/// attached; with none or several the deposit fails with `InvalidAmount`.
pub fn deposit(state: &mut State, now: u64, sender: &String, funds: &Vec<Coin>) -> (r: Result<
    (),
    ContractError,
>)
    ensures
        funds.len() != 1 ==> r == Err::<(), ContractError>(ContractError::InvalidAmount)
            && final(state)@ == old(state)@,
        funds.len() == 1 ==> match deposit_model(old(state)@, now as nat, sender@, funds[0]@, None) {
            Ok(deals) => r is Ok && final(state)@ == deals,
            Err(e) => r == Err::<(), ContractError>(e) && final(state)@ == old(state)@,
        },
{
    if funds.len() != 1 {
        return Err(ContractError::InvalidAmount);
    }
    let coin = &funds[0];
    deposit_funds(state, now, sender, &coin.denom, coin.amount, None)
}

/// Puts the coin that a packet from another ledger carries in escrow, as `deposit` does, and
/// records `channel`, the channel it arrived on, as where that coin goes back to.
pub fn deposit_ibc(state: &mut State, now: u64, channel: &String, packet: &Ics20Packet) -> (r:
    Result<(), ContractError>)
    ensures
        match deposit_model(
            old(state)@,
            now as nat,
            packet.sender@,
            CoinModel { denom: packet.denom@, amount: packet.amount as nat },
            Some(channel@),
        ) {
            Ok(deals) => r is Ok && final(state)@ == deals,
            Err(e) => r == Err::<(), ContractError>(e) && final(state)@ == old(state)@,
        },
{
    deposit_funds(state, now, &packet.sender, &packet.denom, packet.amount, Some(channel))
}

/// Records the completion claimed by `sender`; returns the deal's position and whether
/// `sender` claimed as its seller.
fn settle_completion(state: &mut State, now: u64, sender: &String) -> (r: Result<
    (usize, bool),
    ContractError,
>)
    ensures
        final(state).deals.len() == old(state).deals.len(),
        match complete_model(old(state)@, now as nat, sender@) {
            Ok((k, to_seller)) => r == Ok::<(usize, bool), ContractError>((k as usize, to_seller))
                && 0 <= k < old(state)@.len() && final(state)@ == old(state)@.update(
                k,
                after_complete(old(state)@[k], to_seller),
            ),
            Err(e) => r == Err::<(usize, bool), ContractError>(e) && final(state)@ == old(state)@,
        },
{
    let k = match find_deal(state, sender) {
        None => {
            return Err(ContractError::NotFound);
        },
        Some(k) => k,
    };
    let mut deal = state.deals[k].copy();
    proof {
        assert(state@[k as int] == deal@);
    }
    if deal_expired_or_finished(&deal, now) {
        return Err(ContractError::InvalidState);
    }
    if !deal.seller_deposited || !deal.buyer_deposited {
        return Err(ContractError::InvalidState);
    }
    let to_seller = if *sender == deal.seller {
        if deal.seller_withdrew {
            return Err(ContractError::InvalidState);
        }
        deal.seller_withdrew = true;
        true
    } else if *sender == deal.buyer {
        if deal.buyer_withdrew {
            return Err(ContractError::InvalidState);
        }
        deal.buyer_withdrew = true;
        false
    } else {
        return Err(ContractError::InvalidState);
    };
    if deal.seller_withdrew && deal.buyer_withdrew {
        deal.finished = true;
    }
    put_deal(state, k, deal);
    Ok((k, to_seller))
}

/// Records the refund asked for by `sender`; returns the deal's position and whether
/// `sender` is refunded as its seller.
fn settle_refund(state: &mut State, sender: &String) -> (r: Result<(usize, bool), ContractError>)
    ensures
        final(state).deals.len() == old(state).deals.len(),
        match withdraw_model(old(state)@, sender@) {
            Ok((k, to_seller)) => r == Ok::<(usize, bool), ContractError>((k as usize, to_seller))
                && 0 <= k < old(state)@.len() && final(state)@ == old(state)@.update(
                k,
                after_withdraw(old(state)@[k], to_seller),
            ),
            Err(e) => r == Err::<(usize, bool), ContractError>(e) && final(state)@ == old(state)@,
        },
{
    let k = match find_deal(state, sender) {
        None => {
            return Err(ContractError::NotFound);
        },
        Some(k) => k,
    };
    let mut deal = state.deals[k].copy();
    proof {
        assert(state@[k as int] == deal@);
    }
    if deal.finished {
        return Err(ContractError::InvalidState);
    }
    if deal.seller_deposited && deal.buyer_deposited {
        return Err(ContractError::InvalidState);
    }
    let to_seller = if deal.seller_deposited {
        if *sender != deal.seller {
            return Err(ContractError::Unauthorized);
        }
        deal.seller_deposited = false;
        true
    } else if deal.buyer_deposited {
        if *sender != deal.buyer {
            return Err(ContractError::Unauthorized);
        }
        deal.buyer_deposited = false;
        false
    } else {
        return Err(ContractError::InvalidState);
    };
    put_deal(state, k, deal);
    Ok((k, to_seller))
}

/// Block time at which a transfer sent at `now` times out.
fn transfer_timeout(now: u64) -> (r: u64)
    requires
        now <= u64::MAX - IBC_TRANSFER_TIMEOUT_SECONDS * NANOS_PER_SECOND,
    ensures
        r == ibc_timeout(now as nat),
{
    now + IBC_TRANSFER_TIMEOUT_SECONDS * NANOS_PER_SECOND
}

/// Pays `sender` its leg of the first deal it is a party of, once both sides have deposited:
/// the seller receives `coin_b`, the buyer `coin_a`. A side that has already been paid is
/// refused with `InvalidState`. The deal is finished once both have been paid.
pub fn complete_deal(state: &mut State, now: u64, sender: &String) -> (r: Result<
    BankSend,
    ContractError,
>)
    ensures
        match complete_model(old(state)@, now as nat, sender@) {
            Ok((k, to_seller)) => r is Ok && paid_once(old(state)@, k, to_seller)
                && final(state)@ == old(state)@.update(
                k,
                after_complete(old(state)@[k], to_seller),
            ) && r->Ok_0@.to_address == sender@ && r->Ok_0@.amount == complete_payout(
                old(state)@[k],
                to_seller,
            ),
            Err(e) => r == Err::<BankSend, ContractError>(e) && final(state)@ == old(state)@,
        },
{
    match settle_completion(state, now, sender) {
        Err(e) => Err(e),
        Ok((k, to_seller)) => {
            let deal = &state.deals[k];
            proof {
                assert(state@[k as int] == deal@);
            }
            let amount = if to_seller {
                deal.coin_b.copy()
            } else {
                deal.coin_a.copy()
            };
            Ok(BankSend { to_address: sender.clone(), amount })
        },
    }
}

/// Pays the sender of a packet from another ledger its leg of the first deal it is a party
/// of, as `complete_deal` does, relayed back over the channel on which the paid coin's deposit
/// arrived. `channel`, the one the packet came on, takes no part.
pub fn deal_complete_ibc(
    state: &mut State,
    now: u64,
    channel: &String,
    packet: &Ics20Packet,
) -> (r: Result<IbcTransfer, ContractError>)
    requires
        now <= u64::MAX - IBC_TRANSFER_TIMEOUT_SECONDS * NANOS_PER_SECOND,
    ensures
        match complete_model(old(state)@, now as nat, packet.sender@) {
            Ok((k, to_seller)) => r is Ok && paid_once(old(state)@, k, to_seller)
                && final(state)@ == old(state)@.update(
                k,
                after_complete(old(state)@[k], to_seller),
            ) && r->Ok_0@.to_address == packet.sender@ && r->Ok_0@.amount == complete_payout(
                old(state)@[k],
                to_seller,
            ) && r->Ok_0@.channel_id == complete_channel(old(state)@[k], to_seller)
                && r->Ok_0@.timeout == ibc_timeout(now as nat),
            Err(e) => r == Err::<IbcTransfer, ContractError>(e) && final(state)@ == old(state)@,
        },
{
    match settle_completion(state, now, &packet.sender) {
        Err(e) => Err(e),
        Ok((k, to_seller)) => {
            let deal = &state.deals[k];
            proof {
                assert(state@[k as int] == deal@);
            }
            let (amount, channel_id) = if to_seller {
                (deal.coin_b.copy(), deal.channel_id_recieved_b.clone())
            } else {
                (deal.coin_a.copy(), deal.channel_id_recieved_a.clone())
            };
            Ok(
                IbcTransfer {
                    channel_id,
                    to_address: packet.sender.clone(),
                    amount,
                    timeout: transfer_timeout(now),
                },
            )
        },
    }
}

/// Refunds `sender` its own deposit in the first deal it is a party of, while that deal is
/// not finished and only one side has deposited: the seller gets `coin_a` back, the buyer
/// `coin_b`.
pub fn withdraw(state: &mut State, sender: &String) -> (r: Result<BankSend, ContractError>)
    ensures
        match withdraw_model(old(state)@, sender@) {
            Ok((k, to_seller)) => r is Ok && refunded_alone(old(state)@, k, to_seller)
                && final(state)@ == old(state)@.update(
                k,
                after_withdraw(old(state)@[k], to_seller),
            ) && r->Ok_0@.to_address == sender@ && r->Ok_0@.amount == refund(
                old(state)@[k],
                to_seller,
            ),
            Err(e) => r == Err::<BankSend, ContractError>(e) && final(state)@ == old(state)@,
        },
{
    match settle_refund(state, sender) {
        Err(e) => Err(e),
        Ok((k, to_seller)) => {
            let deal = &state.deals[k];
            proof {
                assert(state@[k as int] == deal@);
            }
            let amount = if to_seller {
                deal.coin_a.copy()
            } else {
                deal.coin_b.copy()
            };
            Ok(BankSend { to_address: sender.clone(), amount })
        },
    }
}

/// Refunds the sender of a packet from another ledger, as `withdraw` does, relayed back over
/// the channel on which that deposit arrived. `channel`, the one the packet came on, takes no
/// part.
pub fn withdraw_ibc(state: &mut State, now: u64, channel: &String, packet: &Ics20Packet) -> (r:
    Result<IbcTransfer, ContractError>)
    requires
        now <= u64::MAX - IBC_TRANSFER_TIMEOUT_SECONDS * NANOS_PER_SECOND,
    ensures
        match withdraw_model(old(state)@, packet.sender@) {
            Ok((k, to_seller)) => r is Ok && refunded_alone(old(state)@, k, to_seller)
                && final(state)@ == old(state)@.update(
                k,
                after_withdraw(old(state)@[k], to_seller),
            ) && r->Ok_0@.to_address == packet.sender@ && r->Ok_0@.amount == refund(
                old(state)@[k],
                to_seller,
            ) && r->Ok_0@.channel_id == refund_channel(old(state)@[k], to_seller)
                && r->Ok_0@.timeout == ibc_timeout(now as nat),
            Err(e) => r == Err::<IbcTransfer, ContractError>(e) && final(state)@ == old(state)@,
        },
{
    match settle_refund(state, &packet.sender) {
        Err(e) => Err(e),
        Ok((k, to_seller)) => {
            let deal = &state.deals[k];
            proof {
                assert(state@[k as int] == deal@);
            }
            let (amount, channel_id) = if to_seller {
                (deal.coin_a.copy(), deal.channel_id_recieved_a.clone())
            } else {
                (deal.coin_b.copy(), deal.channel_id_recieved_b.clone())
            };
            Ok(
                IbcTransfer {
                    channel_id,
                    to_address: packet.sender.clone(),
                    amount,
                    timeout: transfer_timeout(now),
                },
            )
        },
    }
}

/// The administrator as a sequence of characters, if there is one.
pub open spec fn admin_view(admin: &Option<String>) -> Option<Seq<char>> {
    match admin {
        Some(a) => Some(a@),
        None => None,
    }
}

/// Whether `sender` holds the administrator role.
fn check_admin(admin: &Option<String>, sender: &String) -> (r: bool)
    ensures
        r == is_admin(admin_view(admin), sender@),
{
    match admin {
        Some(a) => *a == *sender,
        None => false,
    }
}

/// Sets the contract up: an empty registry, with `sender` as the administrator.
pub fn instantiate(sender: &String) -> (r: (State, Option<String>))
    ensures
        r.0@ == Seq::<DealModel>::empty(),
        admin_view(&r.1) == Some(sender@),
{
    (State::new(), Some(sender.clone()))
}

/// Appends a new deal in which `seller` owes `coin_a` and `buyer` owes `coin_b`, open until
/// `expiry` (seconds). Anyone may propose one; it always succeeds.
pub fn create_deal(
    state: &mut State,
    seller: String,
    buyer: String,
    coin_a: Coin,
    coin_b: Coin,
    expiry: u64,
) -> (r: Result<(), ContractError>)
    ensures
        r is Ok,
        final(state)@ == old(state)@.push(
            new_deal(seller@, buyer@, coin_a@, coin_b@, expiry as nat),
        ),
{
    let deal = Deal {
        seller,
        buyer,
        coin_a,
        coin_b,
        expiry,
        finished: false,
        seller_deposited: false,
        buyer_deposited: false,
        seller_withdrew: false,
        buyer_withdrew: false,
        channel_id_recieved_a: String::new(),
        channel_id_recieved_b: String::new(),
    };
    state.deals.push(deal);
    assert(state@ =~= old(state)@.push(
        new_deal(seller@, buyer@, coin_a@, coin_b@, expiry as nat),
    ));
    Ok(())
}

/// Empties the registry; only the administrator may.
pub fn reset(state: &mut State, admin: &Option<String>, sender: &String) -> (r: Result<
    (),
    ContractError,
>)
    ensures
        is_admin(admin_view(admin), sender@) ==> r is Ok && final(state)@ == Seq::<
            DealModel,
        >::empty(),
        !is_admin(admin_view(admin), sender@) ==> r == Err::<(), ContractError>(
            ContractError::Unauthorized,
        ) && final(state)@ == old(state)@,
{
    if !check_admin(admin, sender) {
        return Err(ContractError::Unauthorized);
    }
    state.deals = Vec::new();
    assert(state@ =~= Seq::<DealModel>::empty());
    Ok(())
}

/// Sets the expiry of the deal at position `deal_id`, with no bound on the new value; only
/// the administrator may.
pub fn change_expiry(
    state: &mut State,
    admin: &Option<String>,
    sender: &String,
    expiry: u64,
    deal_id: u64,
) -> (r: Result<(), ContractError>)
    ensures
        !is_admin(admin_view(admin), sender@) ==> r == Err::<(), ContractError>(
            ContractError::Unauthorized,
        ) && final(state)@ == old(state)@,
        is_admin(admin_view(admin), sender@) && deal_id >= old(state)@.len() ==> r == Err::<
            (),
            ContractError,
        >(ContractError::NotFound) && final(state)@ == old(state)@,
        is_admin(admin_view(admin), sender@) && deal_id < old(state)@.len() ==> r is Ok
            && final(state)@ == old(state)@.update(
            deal_id as int,
            DealModel { expiry: expiry as nat, ..old(state)@[deal_id as int] },
        ),
{
    if !check_admin(admin, sender) {
        return Err(ContractError::Unauthorized);
    }
    if deal_id >= state.deals.len() as u64 {
        return Err(ContractError::NotFound);
    }
    let k = deal_id as usize;
    let mut deal = state.deals[k].copy();
    proof {
        assert(state@[k as int] == deal@);
    }
    deal.expiry = expiry;
    put_deal(state, k, deal);
    Ok(())
}

/// The deal at position `id`.
pub fn get_deal(state: &State, id: u64) -> (r: Result<Deal, ContractError>)
    ensures
        id < state@.len() ==> r is Ok && r->Ok_0@ == state@[id as int],
        id >= state@.len() ==> r == Err::<Deal, ContractError>(ContractError::NotFound),
{
    if id >= state.deals.len() as u64 {
        return Err(ContractError::NotFound);
    }
    let deal = state.deals[id as usize].copy();
    proof {
        assert(state@[id as int] == state.deals@[id as int]@);
    }
    Ok(deal)
}

/// Carries out one operation asked for by `sender` on this ledger, at block time `now`, with
/// the coins `funds` attached; a completion or a refund returns the transfer it makes.
pub fn execute(
    state: &mut State,
    now: u64,
    admin: &Option<String>,
    sender: &String,
    funds: &Vec<Coin>,
    msg: ExecuteMsg,
) -> (r: Result<Option<BankSend>, ContractError>)
    ensures
        match msg {
            ExecuteMsg::CreateDeal { seller, buyer, coin_a, coin_b, expiry } => r
                == Ok::<Option<BankSend>, ContractError>(None) && final(state)@ == old(state)@.push(
                new_deal(seller@, buyer@, coin_a@, coin_b@, expiry as nat),
            ),
            ExecuteMsg::Deposit {  } => if funds.len() != 1 {
                r == Err::<Option<BankSend>, ContractError>(ContractError::InvalidAmount)
                    && final(state)@ == old(state)@
            } else {
                match deposit_model(old(state)@, now as nat, sender@, funds[0]@, None) {
                    Ok(deals) => r == Ok::<Option<BankSend>, ContractError>(None) && final(state)@
                        == deals,
                    Err(e) => r == Err::<Option<BankSend>, ContractError>(e) && final(state)@
                        == old(state)@,
                }
            },
            ExecuteMsg::CompleteDeal {  } => match complete_model(old(state)@, now as nat, sender@) {
                Ok((k, to_seller)) => r matches Ok(Some(m)) && final(state)@ == old(state)@.update(
                    k,
                    after_complete(old(state)@[k], to_seller),
                ) && m@.to_address == sender@ && m@.amount == complete_payout(
                    old(state)@[k],
                    to_seller,
                ),
                Err(e) => r == Err::<Option<BankSend>, ContractError>(e) && final(state)@ == old(
                    state,
                )@,
            },
            ExecuteMsg::Withdraw {  } => match withdraw_model(old(state)@, sender@) {
                Ok((k, to_seller)) => r matches Ok(Some(m)) && final(state)@ == old(state)@.update(
                    k,
                    after_withdraw(old(state)@[k], to_seller),
                ) && m@.to_address == sender@ && m@.amount == refund(old(state)@[k], to_seller),
                Err(e) => r == Err::<Option<BankSend>, ContractError>(e) && final(state)@ == old(
                    state,
                )@,
            },
            ExecuteMsg::Reset {  } => if is_admin(admin_view(admin), sender@) {
                r == Ok::<Option<BankSend>, ContractError>(None) && final(state)@ == Seq::<
                    DealModel,
                >::empty()
            } else {
                r == Err::<Option<BankSend>, ContractError>(ContractError::Unauthorized)
                    && final(state)@ == old(state)@
            },
        },
{
    match msg {
        ExecuteMsg::CreateDeal { seller, buyer, coin_a, coin_b, expiry } => {
            match create_deal(state, seller, buyer, coin_a, coin_b, expiry) {
                Ok(()) => Ok(None),
                Err(e) => Err(e),
            }
        },
        ExecuteMsg::Deposit {  } => match deposit(state, now, sender, funds) {
            Ok(()) => Ok(None),
            Err(e) => Err(e),
        },
        ExecuteMsg::CompleteDeal {  } => match complete_deal(state, now, sender) {
            Ok(m) => Ok(Some(m)),
            Err(e) => Err(e),
        },
        ExecuteMsg::Withdraw {  } => match withdraw(state, sender) {
            Ok(m) => Ok(Some(m)),
            Err(e) => Err(e),
        },
        ExecuteMsg::Reset {  } => match reset(state, admin, sender) {
            Ok(()) => Ok(None),
            Err(e) => Err(e),
        },
    }
}

/// Carries out the operation that a packet from another ledger, arrived on `channel` at block
/// time `now`, asks for; a completion or a refund returns the relayed transfer it makes.
pub fn execute_ibc(state: &mut State, now: u64, channel: &String, msg: IbcExecuteMsg) -> (r:
    Result<Option<IbcTransfer>, ContractError>)
    requires
        !(msg is Deposit) ==> now <= u64::MAX - IBC_TRANSFER_TIMEOUT_SECONDS * NANOS_PER_SECOND,
    ensures
        match msg {
            IbcExecuteMsg::Deposit { packet20 } => match deposit_model(
                old(state)@,
                now as nat,
                packet20.sender@,
                CoinModel { denom: packet20.denom@, amount: packet20.amount as nat },
                Some(channel@),
            ) {
                Ok(deals) => r == Ok::<Option<IbcTransfer>, ContractError>(None) && final(state)@
                    == deals,
                Err(e) => r == Err::<Option<IbcTransfer>, ContractError>(e) && final(state)@
                    == old(state)@,
            },
            IbcExecuteMsg::Withdraw { packet20 } => match withdraw_model(
                old(state)@,
                packet20.sender@,
            ) {
                Ok((k, to_seller)) => r matches Ok(Some(t)) && final(state)@ == old(state)@.update(
                    k,
                    after_withdraw(old(state)@[k], to_seller),
                ) && t@.to_address == packet20.sender@ && t@.amount == refund(
                    old(state)@[k],
                    to_seller,
                ) && t@.channel_id == refund_channel(old(state)@[k], to_seller) && t@.timeout
                    == ibc_timeout(now as nat),
                Err(e) => r == Err::<Option<IbcTransfer>, ContractError>(e) && final(state)@
                    == old(state)@,
            },
            IbcExecuteMsg::CompleteDeal { packet20 } => match complete_model(
                old(state)@,
                now as nat,
                packet20.sender@,
            ) {
                Ok((k, to_seller)) => r matches Ok(Some(t)) && final(state)@ == old(state)@.update(
                    k,
                    after_complete(old(state)@[k], to_seller),
                ) && t@.to_address == packet20.sender@ && t@.amount == complete_payout(
                    old(state)@[k],
                    to_seller,
                ) && t@.channel_id == complete_channel(old(state)@[k], to_seller) && t@.timeout
                    == ibc_timeout(now as nat),
                Err(e) => r == Err::<Option<IbcTransfer>, ContractError>(e) && final(state)@
                    == old(state)@,
            },
        },
{
    match msg {
        IbcExecuteMsg::Deposit { packet20 } => match deposit_ibc(state, now, channel, &packet20) {
            Ok(()) => Ok(None),
            Err(e) => Err(e),
        },
        IbcExecuteMsg::Withdraw { packet20 } => match withdraw_ibc(state, now, channel, &packet20) {
            Ok(t) => Ok(Some(t)),
            Err(e) => Err(e),
        },
        IbcExecuteMsg::CompleteDeal { packet20 } => match deal_complete_ibc(
            state,
            now,
            channel,
            &packet20,
        ) {
            Ok(t) => Ok(Some(t)),
            Err(e) => Err(e),
        },
    }
}

} // verus!

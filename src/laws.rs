use vstd::prelude::*;

use crate::lookup::{first_party_with_denom, lemma_first_party_from, lemma_first_party_with_denom_from};
use crate::model::{
    after_complete, after_withdraw, complete_channel, complete_model, deposit_model,
    refund_channel, withdraw_model, ContractError,
};
use crate::state::{CoinModel, DealModel};

verus! {

/// The deal a completion settles is in range.
proof fn lemma_complete_in_range(deals: Seq<DealModel>, now: nat, sender: Seq<char>)
    ensures
        complete_model(deals, now, sender) matches Ok((k, _)) ==> 0 <= k < deals.len(),
{
    lemma_first_party_from(deals, sender, 0);
}

/// The deal a refund comes from is in range.
proof fn lemma_withdraw_in_range(deals: Seq<DealModel>, sender: Seq<char>)
    ensures
        withdraw_model(deals, sender) matches Ok((k, _)) ==> 0 <= k < deals.len(),
{
    lemma_first_party_from(deals, sender, 0);
}

/// A deposit changes the deal at one position in range, and no other.
proof fn lemma_deposit_in_range(
    deals: Seq<DealModel>,
    now: nat,
    sender: Seq<char>,
    funds: CoinModel,
    channel: Option<Seq<char>>,
)
    ensures
        deposit_model(deals, now, sender, funds, channel) matches Ok(after) ==> {
            &&& first_party_with_denom(deals, sender, funds.denom) matches Some(k)
            &&& 0 <= k < deals.len()
            &&& !deals[k].finished
            &&& after.len() == deals.len()
            &&& forall|i: int| 0 <= i < deals.len() && i != k ==> after[i] == deals[i]
        },
{
    lemma_first_party_with_denom_from(deals, sender, funds.denom, 0);
}

/// A completion pays out only from a deal to which both the seller and the buyer have
/// deposited.
pub proof fn lemma_completion_needs_both_deposits(deals: Seq<DealModel>, now: nat, sender: Seq<char>)
    ensures
        complete_model(deals, now, sender) matches Ok((k, _)) ==> 0 <= k < deals.len()
            && deals[k].seller_deposited && deals[k].buyer_deposited,
{
    lemma_complete_in_range(deals, now, sender);
}

/// A refund pays out only from a deal to which at most one side has deposited.
pub proof fn lemma_refund_needs_single_deposit(deals: Seq<DealModel>, sender: Seq<char>)
    ensures
        withdraw_model(deals, sender) matches Ok((k, _)) ==> 0 <= k < deals.len() && !(
        deals[k].seller_deposited && deals[k].buyer_deposited),
{
    lemma_withdraw_in_range(deals, sender);
}

/// Once set, the seller's and the buyer's paid-out marks stay set through every deposit,
/// completion and refund; and a completion that pays a side sets that side's mark.
pub proof fn lemma_paid_marks_only_rise(
    deals: Seq<DealModel>,
    now: nat,
    sender: Seq<char>,
    funds: CoinModel,
    channel: Option<Seq<char>>,
    i: int,
)
    requires
        0 <= i < deals.len(),
    ensures
        deposit_model(deals, now, sender, funds, channel) matches Ok(after) ==> (
        deals[i].seller_withdrew ==> after[i].seller_withdrew) && (deals[i].buyer_withdrew
            ==> after[i].buyer_withdrew),
        complete_model(deals, now, sender) matches Ok((k, to_seller)) ==> {
            let after = deals.update(k, after_complete(deals[k], to_seller));
            &&& deals[i].seller_withdrew ==> after[i].seller_withdrew
            &&& deals[i].buyer_withdrew ==> after[i].buyer_withdrew
            &&& to_seller ==> after[k].seller_withdrew
            &&& !to_seller ==> after[k].buyer_withdrew
        },
        withdraw_model(deals, sender) matches Ok((k, to_seller)) ==> {
            let after = deals.update(k, after_withdraw(deals[k], to_seller));
            &&& after[i].seller_withdrew == deals[i].seller_withdrew
            &&& after[i].buyer_withdrew == deals[i].buyer_withdrew
        },
{
    lemma_deposit_in_range(deals, now, sender, funds, channel);
    lemma_complete_in_range(deals, now, sender);
    lemma_withdraw_in_range(deals, sender);
}

/// A finished deal is left exactly as it is by every deposit, completion and refund.
pub proof fn lemma_finished_is_final(
    deals: Seq<DealModel>,
    now: nat,
    sender: Seq<char>,
    funds: CoinModel,
    channel: Option<Seq<char>>,
    i: int,
)
    requires
        0 <= i < deals.len(),
        deals[i].finished,
    ensures
        deposit_model(deals, now, sender, funds, channel) matches Ok(after) ==> after[i]
            == deals[i],
        complete_model(deals, now, sender) matches Ok((k, to_seller)) ==> deals.update(
            k,
            after_complete(deals[k], to_seller),
        )[i] == deals[i],
        withdraw_model(deals, sender) matches Ok((k, to_seller)) ==> deals.update(
            k,
            after_withdraw(deals[k], to_seller),
        )[i] == deals[i],
{
    lemma_deposit_in_range(deals, now, sender, funds, channel);
    lemma_complete_in_range(deals, now, sender);
    lemma_withdraw_in_range(deals, sender);
}

/// The recorded return channels change only by a deposit that arrived from another ledger,
/// which records its arrival channel for its own side of the one deal it goes to; deposits
/// on this ledger, completions and refunds keep every recorded channel.
pub proof fn lemma_channels_recorded_only_by_remote_deposit(
    deals: Seq<DealModel>,
    now: nat,
    sender: Seq<char>,
    funds: CoinModel,
    channel: Seq<char>,
    i: int,
)
    requires
        0 <= i < deals.len(),
    ensures
        deposit_model(deals, now, sender, funds, None) matches Ok(after) ==> after[i].channel_id_recieved_a
            == deals[i].channel_id_recieved_a && after[i].channel_id_recieved_b
            == deals[i].channel_id_recieved_b,
        deposit_model(deals, now, sender, funds, Some(channel)) matches Ok(after) ==> {
            let k = first_party_with_denom(deals, sender, funds.denom)->Some_0;
            &&& i != k ==> after[i] == deals[i]
            &&& i == k && sender == deals[k].seller ==> after[k].channel_id_recieved_a == channel
                && after[k].channel_id_recieved_b == deals[k].channel_id_recieved_b
            &&& i == k && sender != deals[k].seller ==> after[k].channel_id_recieved_b == channel
                && after[k].channel_id_recieved_a == deals[k].channel_id_recieved_a
        },
        complete_model(deals, now, sender) matches Ok((k, to_seller)) ==> {
            let after = deals.update(k, after_complete(deals[k], to_seller));
            &&& after[i].channel_id_recieved_a == deals[i].channel_id_recieved_a
            &&& after[i].channel_id_recieved_b == deals[i].channel_id_recieved_b
        },
        withdraw_model(deals, sender) matches Ok((k, to_seller)) ==> {
            let after = deals.update(k, after_withdraw(deals[k], to_seller));
            &&& after[i].channel_id_recieved_a == deals[i].channel_id_recieved_a
            &&& after[i].channel_id_recieved_b == deals[i].channel_id_recieved_b
        },
{
    lemma_deposit_in_range(deals, now, sender, funds, None);
    lemma_deposit_in_range(deals, now, sender, funds, Some(channel));
    lemma_complete_in_range(deals, now, sender);
    lemma_withdraw_in_range(deals, sender);
}

/// A refund that follows a deposit from another ledger into the same deal goes back over
/// the channel on which that deposit arrived.
pub proof fn lemma_refund_returns_over_deposit_channel(
    deals: Seq<DealModel>,
    now: nat,
    sender: Seq<char>,
    funds: CoinModel,
    channel: Seq<char>,
)
    requires
        deposit_model(deals, now, sender, funds, Some(channel)) is Ok,
    ensures
        ({
            let after = deposit_model(deals, now, sender, funds, Some(channel))->Ok_0;
            match withdraw_model(after, sender) {
                Ok((k, to_seller)) => first_party_with_denom(deals, sender, funds.denom) == Some(k)
                    ==> refund_channel(after[k], to_seller) == channel,
                Err(_) => true,
            }
        }),
{
    lemma_deposit_in_range(deals, now, sender, funds, Some(channel));
}

/// A completion that pays out a coin deposited from another ledger, right after that
/// deposit, goes back over the channel on which the deposit arrived.
pub proof fn lemma_completion_returns_over_deposit_channel(
    deals: Seq<DealModel>,
    now: nat,
    depositor: Seq<char>,
    funds: CoinModel,
    channel: Seq<char>,
    claimant: Seq<char>,
)
    requires
        deposit_model(deals, now, depositor, funds, Some(channel)) is Ok,
    ensures
        ({
            let after = deposit_model(deals, now, depositor, funds, Some(channel))->Ok_0;
            let k = first_party_with_denom(deals, depositor, funds.denom)->Some_0;
            complete_model(after, now, claimant) == Ok::<(int, bool), ContractError>(
                (k, depositor != deals[k].seller),
            ) ==> complete_channel(after[k], depositor != deals[k].seller) == channel
        }),
{
    lemma_deposit_in_range(deals, now, depositor, funds, Some(channel));
}

/// Each side is paid its leg at most once: a completion pays only a side whose paid-out mark
/// is not yet set, and once it has paid a side of a deal, no later completion pays that side
/// of that deal again.
pub proof fn lemma_completion_pays_each_side_once(
    deals: Seq<DealModel>,
    now: nat,
    sender: Seq<char>,
    later_now: nat,
    later_sender: Seq<char>,
)
    ensures
        complete_model(deals, now, sender) matches Ok((k, to_seller)) ==> {
            &&& to_seller ==> !deals[k].seller_withdrew
            &&& !to_seller ==> !deals[k].buyer_withdrew
        },
        complete_model(deals, now, sender) matches Ok((k, to_seller)) ==> {
            let after = deals.update(k, after_complete(deals[k], to_seller));
            complete_model(after, later_now, later_sender) != Ok::<(int, bool), ContractError>(
                (k, to_seller),
            )
        },
{
    lemma_complete_in_range(deals, now, sender);
}

} // verus!

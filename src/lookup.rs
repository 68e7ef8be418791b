use vstd::prelude::*;

use crate::state::{DealModel, State};

verus! {

/// `account` is the seller or the buyer of `d`.
pub open spec fn is_party(d: DealModel, account: Seq<char>) -> bool {
    d.seller == account || d.buyer == account
}

/// `account` owes `denom` in `d`: as seller of `coin_a` or as buyer of `coin_b`.
pub open spec fn is_party_with_denom(d: DealModel, account: Seq<char>, denom: Seq<char>) -> bool {
    (d.seller == account && d.coin_a.denom == denom) || (d.buyer == account && d.coin_b.denom
        == denom)
}

/// Position of the first deal at or after `i` in which `account` is a party.
pub open spec fn first_party_from(deals: Seq<DealModel>, account: Seq<char>, i: int) -> Option<
    int,
>
    decreases deals.len() - i,
{
    if i < 0 || i >= deals.len() {
        None
    } else if is_party(deals[i], account) {
        Some(i)
    } else {
        first_party_from(deals, account, i + 1)
    }
}

/// Position of the first deal in which `account` is a party.
pub open spec fn first_party(deals: Seq<DealModel>, account: Seq<char>) -> Option<int> {
    first_party_from(deals, account, 0)
}

/// Position of the first deal at or after `i` in which `account` owes `denom`.
pub open spec fn first_party_with_denom_from(
    deals: Seq<DealModel>,
    account: Seq<char>,
    denom: Seq<char>,
    i: int,
) -> Option<int>
    decreases deals.len() - i,
{
    if i < 0 || i >= deals.len() {
        None
    } else if is_party_with_denom(deals[i], account, denom) {
        Some(i)
    } else {
        first_party_with_denom_from(deals, account, denom, i + 1)
    }
}

/// Position of the first deal in which `account` owes `denom`.
pub open spec fn first_party_with_denom(
    deals: Seq<DealModel>,
    account: Seq<char>,
    denom: Seq<char>,
) -> Option<int> {
    first_party_with_denom_from(deals, account, denom, 0)
}

/// What the first match from `i` on is: a position of a match with none before it.
pub proof fn lemma_first_party_from(deals: Seq<DealModel>, account: Seq<char>, i: int)
    requires
        0 <= i,
    ensures
        match first_party_from(deals, account, i) {
            Some(k) => i <= k < deals.len() && is_party(deals[k], account) && forall|j: int|
                i <= j < k ==> !is_party(#[trigger] deals[j], account),
            None => forall|j: int| i <= j < deals.len() ==> !is_party(#[trigger] deals[j], account),
        },
    decreases deals.len() - i,
{
    if i < deals.len() && !is_party(deals[i], account) {
        lemma_first_party_from(deals, account, i + 1);
    }
}

/// What the first match from `i` on is: a position of a match with none before it.
pub proof fn lemma_first_party_with_denom_from(
    deals: Seq<DealModel>,
    account: Seq<char>,
    denom: Seq<char>,
    i: int,
)
    requires
        0 <= i,
    ensures
        match first_party_with_denom_from(deals, account, denom, i) {
            Some(k) => i <= k < deals.len() && is_party_with_denom(deals[k], account, denom)
                && forall|j: int|
                i <= j < k ==> !is_party_with_denom(#[trigger] deals[j], account, denom),
            None => forall|j: int|
                i <= j < deals.len() ==> !is_party_with_denom(#[trigger] deals[j], account, denom),
        },
    decreases deals.len() - i,
{
    if i < deals.len() && !is_party_with_denom(deals[i], account, denom) {
        lemma_first_party_with_denom_from(deals, account, denom, i + 1);
    }
}

/// Finds the first deal, in order of creation, whose seller or buyer is `sender`.
pub fn find_deal(state: &State, sender: &String) -> (r: Option<usize>)
    ensures
        r matches Some(k) ==> k < state.deals.len(),
        match r {
            Some(k) => first_party(state@, sender@) == Some(k as int),
            None => first_party(state@, sender@) is None,
        },
{
    let mut i: usize = 0;
    while i < state.deals.len()
        invariant
            i <= state.deals.len(),
            first_party_from(state@, sender@, i as int) == first_party(state@, sender@),
        decreases state.deals.len() - i,
    {
        let deal = &state.deals[i];
        proof {
            assert(state@[i as int] == deal@);
        }
        if deal.seller == *sender || deal.buyer == *sender {
            return Some(i);
        }
        i = i + 1;
    }
    None
}

/// Finds the first deal, in order of creation, where `sender` is the seller and `denom` the
/// denomination of `coin_a`, or `sender` is the buyer and `denom` the denomination of `coin_b`.
pub fn find_deal_with_denom(state: &State, sender: &String, denom: &String) -> (r: Option<usize>)
    ensures
        r matches Some(k) ==> k < state.deals.len(),
        match r {
            Some(k) => first_party_with_denom(state@, sender@, denom@) == Some(k as int),
            None => first_party_with_denom(state@, sender@, denom@) is None,
        },
{
    let mut i: usize = 0;
    while i < state.deals.len()
        invariant
            i <= state.deals.len(),
            first_party_with_denom_from(state@, sender@, denom@, i as int)
                == first_party_with_denom(state@, sender@, denom@),
        decreases state.deals.len() - i,
    {
        let deal = &state.deals[i];
        proof {
            assert(state@[i as int] == deal@);
        }
        if (deal.seller == *sender && deal.coin_a.denom == *denom) || (deal.buyer == *sender
            && deal.coin_b.denom == *denom) {
            return Some(i);
        }
        i = i + 1;
    }
    None
}

} // verus!

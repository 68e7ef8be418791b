use otc_escrow::contract::{
    change_expiry, complete_deal, create_deal, deal_complete_ibc, deposit, deposit_ibc, execute,
    execute_ibc, get_deal, instantiate, reset, withdraw, withdraw_ibc,
};
use otc_escrow::lookup::{find_deal, find_deal_with_denom};
use otc_escrow::model::ContractError;
use otc_escrow::msg::{BankSend, ExecuteMsg, IbcExecuteMsg, IbcTransfer};
use otc_escrow::state::{Coin, Ics20Packet, State};

const S: &str = "seller";
const B: &str = "buyer";
const D1: &str = "denom1";
const D2: &str = "denom2";
const EXPIRY: u64 = 2_000;
/// 1000 s, in nanoseconds: before `EXPIRY`.
const NOW: u64 = 1_000_000_000_000;

fn coin(amount: u128, denom: &str) -> Coin {
    Coin { denom: denom.to_string(), amount }
}

fn s(x: &str) -> String {
    x.to_string()
}

fn one_deal(expiry: u64) -> State {
    let (mut state, _) = instantiate(&s("admin"));
    create_deal(&mut state, s(S), s(B), coin(100, D1), coin(200, D2), expiry).unwrap();
    state
}

fn packet(sender: &str, denom: &str, amount: u128) -> Ics20Packet {
    Ics20Packet {
        amount,
        denom: s(denom),
        receiver: s("contract"),
        sender: s(sender),
        memo: None,
    }
}

#[test]
fn create_deal_starts_blank() {
    let state = one_deal(EXPIRY);
    let d = get_deal(&state, 0).unwrap();
    assert_eq!(d.seller, S);
    assert_eq!(d.buyer, B);
    assert_eq!(d.coin_a, coin(100, D1));
    assert_eq!(d.coin_b, coin(200, D2));
    assert_eq!(d.expiry, EXPIRY);
    assert!(!d.finished && !d.seller_deposited && !d.buyer_deposited);
    assert!(!d.seller_withdrew && !d.buyer_withdrew);
    assert_eq!(d.channel_id_recieved_a, "");
    assert_eq!(d.channel_id_recieved_b, "");
}

#[test]
fn full_swap_pays_both_sides() {
    let mut state = one_deal(EXPIRY);
    deposit(&mut state, NOW, &s(S), &vec![coin(100, D1)]).unwrap();
    deposit(&mut state, NOW, &s(B), &vec![coin(200, D2)]).unwrap();
    let m = complete_deal(&mut state, NOW, &s(S)).unwrap();
    assert_eq!(m, BankSend { to_address: s(S), amount: coin(200, D2) });
    let d = get_deal(&state, 0).unwrap();
    assert!(d.seller_withdrew && !d.finished);
    let m = complete_deal(&mut state, NOW, &s(B)).unwrap();
    assert_eq!(m, BankSend { to_address: s(B), amount: coin(100, D1) });
    let d = get_deal(&state, 0).unwrap();
    assert!(d.buyer_withdrew && d.finished);
}

#[test]
fn withdraw_before_deposit_is_invalid_state() {
    let mut state = one_deal(EXPIRY);
    assert_eq!(withdraw(&mut state, &s(S)), Err(ContractError::InvalidState));
}

#[test]
fn withdraw_after_both_deposits_is_invalid_state() {
    let mut state = one_deal(EXPIRY);
    deposit(&mut state, NOW, &s(S), &vec![coin(100, D1)]).unwrap();
    deposit(&mut state, NOW, &s(B), &vec![coin(200, D2)]).unwrap();
    let before = state.clone();
    assert_eq!(withdraw(&mut state, &s(S)), Err(ContractError::InvalidState));
    assert_eq!(state, before);
}

#[test]
fn single_sided_refunds() {
    let mut state = one_deal(EXPIRY);
    deposit(&mut state, NOW, &s(S), &vec![coin(100, D1)]).unwrap();
    assert_eq!(withdraw(&mut state, &s(B)), Err(ContractError::Unauthorized));
    let m = withdraw(&mut state, &s(S)).unwrap();
    assert_eq!(m, BankSend { to_address: s(S), amount: coin(100, D1) });
    assert!(!get_deal(&state, 0).unwrap().seller_deposited);
    deposit(&mut state, NOW, &s(B), &vec![coin(200, D2)]).unwrap();
    let m = withdraw(&mut state, &s(B)).unwrap();
    assert_eq!(m, BankSend { to_address: s(B), amount: coin(200, D2) });
    assert!(!get_deal(&state, 0).unwrap().buyer_deposited);
}

#[test]
fn expired_deal_refuses_deposit_and_completion() {
    // expiry 500 s, block time 1000 s
    let mut state = one_deal(500);
    assert_eq!(
        deposit(&mut state, NOW, &s(S), &vec![coin(100, D1)]),
        Err(ContractError::InvalidState)
    );
    assert_eq!(complete_deal(&mut state, NOW, &s(S)), Err(ContractError::InvalidState));
}

#[test]
fn expiry_is_inclusive() {
    let mut state = one_deal(1_000);
    assert_eq!(deposit(&mut state, NOW, &s(S), &vec![coin(100, D1)]), Ok(()));
    assert_eq!(
        deposit(&mut state, NOW + 1, &s(B), &vec![coin(200, D2)]),
        Err(ContractError::InvalidState)
    );
}

#[test]
fn deposit_errors() {
    let mut state = one_deal(EXPIRY);
    assert_eq!(deposit(&mut state, NOW, &s(S), &vec![]), Err(ContractError::InvalidAmount));
    assert_eq!(
        deposit(&mut state, NOW, &s(S), &vec![coin(100, D1), coin(5, D2)]),
        Err(ContractError::InvalidAmount)
    );
    assert_eq!(
        deposit(&mut state, NOW, &s(S), &vec![coin(99, D1)]),
        Err(ContractError::InvalidAmount)
    );
    assert_eq!(
        deposit(&mut state, NOW, &s(S), &vec![coin(100, D2)]),
        Err(ContractError::NotFound)
    );
    assert_eq!(
        deposit(&mut state, NOW, &s("other"), &vec![coin(100, D1)]),
        Err(ContractError::NotFound)
    );
    assert_eq!(state, one_deal(EXPIRY));
}

#[test]
fn completion_needs_both_deposits() {
    let mut state = one_deal(EXPIRY);
    deposit(&mut state, NOW, &s(S), &vec![coin(100, D1)]).unwrap();
    assert_eq!(complete_deal(&mut state, NOW, &s(S)), Err(ContractError::InvalidState));
    assert_eq!(complete_deal(&mut state, NOW, &s("other")), Err(ContractError::NotFound));
    assert_eq!(withdraw(&mut state, &s("other")), Err(ContractError::NotFound));
}

#[test]
fn finished_deal_is_frozen() {
    let mut state = one_deal(EXPIRY);
    deposit(&mut state, NOW, &s(S), &vec![coin(100, D1)]).unwrap();
    deposit(&mut state, NOW, &s(B), &vec![coin(200, D2)]).unwrap();
    complete_deal(&mut state, NOW, &s(S)).unwrap();
    complete_deal(&mut state, NOW, &s(B)).unwrap();
    let before = state.clone();
    assert_eq!(
        deposit(&mut state, NOW, &s(S), &vec![coin(100, D1)]),
        Err(ContractError::InvalidState)
    );
    assert_eq!(complete_deal(&mut state, NOW, &s(B)), Err(ContractError::InvalidState));
    assert_eq!(withdraw(&mut state, &s(S)), Err(ContractError::InvalidState));
    assert_eq!(state, before);
}

#[test]
fn first_matching_deal_wins() {
    let mut state = one_deal(EXPIRY);
    create_deal(&mut state, s(S), s("b2"), coin(5, D1), coin(6, "d3"), EXPIRY).unwrap();
    create_deal(&mut state, s(S), s("b3"), coin(7, "d4"), coin(8, "d5"), EXPIRY).unwrap();
    assert_eq!(find_deal(&state, &s(S)), Some(0));
    assert_eq!(find_deal(&state, &s("b3")), Some(2));
    assert_eq!(find_deal(&state, &s("none")), None);
    assert_eq!(find_deal_with_denom(&state, &s(S), &s(D1)), Some(0));
    assert_eq!(find_deal_with_denom(&state, &s(S), &s("d4")), Some(2));
    assert_eq!(find_deal_with_denom(&state, &s("b2"), &s("d3")), Some(1));
    assert_eq!(find_deal_with_denom(&state, &s("b2"), &s(D1)), None);
}

#[test]
fn admin_only_operations() {
    let (mut state, admin) = instantiate(&s("admin"));
    create_deal(&mut state, s(S), s(B), coin(100, D1), coin(200, D2), EXPIRY).unwrap();
    assert_eq!(reset(&mut state, &admin, &s(S)), Err(ContractError::Unauthorized));
    assert_eq!(reset(&mut state, &None, &s("admin")), Err(ContractError::Unauthorized));
    assert_eq!(change_expiry(&mut state, &admin, &s(B), 7, 0), Err(ContractError::Unauthorized));
    assert_eq!(get_deal(&state, 0).unwrap().expiry, EXPIRY);
    assert_eq!(change_expiry(&mut state, &admin, &s("admin"), 7, 1), Err(ContractError::NotFound));
    assert_eq!(change_expiry(&mut state, &admin, &s("admin"), 7, 0), Ok(()));
    assert_eq!(get_deal(&state, 0).unwrap().expiry, 7);
    assert_eq!(reset(&mut state, &admin, &s("admin")), Ok(()));
    assert_eq!(state.deals.len(), 0);
    assert_eq!(get_deal(&state, 0), Err(ContractError::NotFound));
}

#[test]
fn remote_deposit_and_refund_use_arrival_channel() {
    let mut state = one_deal(EXPIRY);
    assert_eq!(
        deposit_ibc(&mut state, NOW, &s("channel-7"), &packet(S, D1, 101)),
        Err(ContractError::InvalidAmount)
    );
    deposit_ibc(&mut state, NOW, &s("channel-7"), &packet(S, D1, 100)).unwrap();
    let d = get_deal(&state, 0).unwrap();
    assert!(d.seller_deposited);
    assert_eq!(d.channel_id_recieved_a, "channel-7");
    assert_eq!(d.channel_id_recieved_b, "");
    let t = withdraw_ibc(&mut state, NOW, &s("channel-9"), &packet(S, D1, 0)).unwrap();
    assert_eq!(
        t,
        IbcTransfer {
            channel_id: s("channel-7"),
            to_address: s(S),
            amount: coin(100, D1),
            timeout: NOW + 100_000_000_000,
        }
    );
    assert!(!get_deal(&state, 0).unwrap().seller_deposited);
}

#[test]
fn remote_completion_routes_over_paid_coin_channel() {
    let mut state = one_deal(EXPIRY);
    deposit_ibc(&mut state, NOW, &s("chan-a"), &packet(S, D1, 100)).unwrap();
    deposit_ibc(&mut state, NOW, &s("chan-b"), &packet(B, D2, 200)).unwrap();
    let t = deal_complete_ibc(&mut state, NOW, &s("other"), &packet(S, "", 0)).unwrap();
    assert_eq!(t.channel_id, "chan-b");
    assert_eq!(t.amount, coin(200, D2));
    assert_eq!(t.to_address, S);
    assert_eq!(t.timeout, NOW + 100_000_000_000);
    let t = deal_complete_ibc(&mut state, NOW, &s("other"), &packet(B, "", 0)).unwrap();
    assert_eq!(t.channel_id, "chan-a");
    assert_eq!(t.amount, coin(100, D1));
    assert!(get_deal(&state, 0).unwrap().finished);
}

#[test]
fn execute_dispatches() {
    let (mut state, admin) = instantiate(&s("admin"));
    let create = ExecuteMsg::CreateDeal {
        seller: s(S),
        buyer: s(B),
        coin_a: coin(100, D1),
        coin_b: coin(200, D2),
        expiry: EXPIRY,
    };
    assert_eq!(execute(&mut state, NOW, &admin, &s("x"), &vec![], create), Ok(None));
    let dep = execute(&mut state, NOW, &admin, &s(S), &vec![coin(100, D1)], ExecuteMsg::Deposit {});
    assert_eq!(dep, Ok(None));
    let w = execute(&mut state, NOW, &admin, &s(S), &vec![], ExecuteMsg::Withdraw {});
    assert_eq!(w, Ok(Some(BankSend { to_address: s(S), amount: coin(100, D1) })));
    let c = execute(&mut state, NOW, &admin, &s(S), &vec![], ExecuteMsg::CompleteDeal {});
    assert_eq!(c, Err(ContractError::InvalidState));
    let r = execute(&mut state, NOW, &admin, &s(S), &vec![], ExecuteMsg::Reset {});
    assert_eq!(r, Err(ContractError::Unauthorized));
    let r = execute(&mut state, NOW, &admin, &s("admin"), &vec![], ExecuteMsg::Reset {});
    assert_eq!(r, Ok(None));
    assert!(state.deals.is_empty());
}

#[test]
fn execute_ibc_dispatches() {
    let mut state = one_deal(EXPIRY);
    let dep = IbcExecuteMsg::Deposit { packet20: packet(B, D2, 200) };
    assert_eq!(execute_ibc(&mut state, NOW, &s("chan-b"), dep), Ok(None));
    let c = IbcExecuteMsg::CompleteDeal { packet20: packet(B, D2, 0) };
    assert_eq!(execute_ibc(&mut state, NOW, &s("x"), c), Err(ContractError::InvalidState));
    let w = IbcExecuteMsg::Withdraw { packet20: packet(B, D2, 0) };
    let t = execute_ibc(&mut state, NOW, &s("x"), w).unwrap().unwrap();
    assert_eq!(t.channel_id, "chan-b");
    assert_eq!(t.amount, coin(200, D2));
    let w = IbcExecuteMsg::Withdraw { packet20: packet(B, D2, 0) };
    assert_eq!(execute_ibc(&mut state, NOW, &s("x"), w), Err(ContractError::InvalidState));
}

#[test]
fn second_claim_by_same_side_is_refused() {
    let mut state = one_deal(EXPIRY);
    deposit(&mut state, NOW, &s(S), &vec![coin(100, D1)]).unwrap();
    deposit(&mut state, NOW, &s(B), &vec![coin(200, D2)]).unwrap();
    let m = complete_deal(&mut state, NOW, &s(S)).unwrap();
    assert_eq!(m.amount, coin(200, D2));
    let before = state.clone();
    assert_eq!(complete_deal(&mut state, NOW, &s(S)), Err(ContractError::InvalidState));
    assert_eq!(state, before);
    assert_eq!(
        deal_complete_ibc(&mut state, NOW, &s("c"), &packet(S, "", 0)),
        Err(ContractError::InvalidState)
    );
    assert_eq!(state, before);
    assert!(!get_deal(&state, 0).unwrap().finished);
}

#[test]
fn second_remote_claim_by_buyer_is_refused() {
    let mut state = one_deal(EXPIRY);
    deposit_ibc(&mut state, NOW, &s("chan-a"), &packet(S, D1, 100)).unwrap();
    deposit_ibc(&mut state, NOW, &s("chan-b"), &packet(B, D2, 200)).unwrap();
    let t = deal_complete_ibc(&mut state, NOW, &s("x"), &packet(B, "", 0)).unwrap();
    assert_eq!(t.channel_id, "chan-a");
    let before = state.clone();
    assert_eq!(
        deal_complete_ibc(&mut state, NOW, &s("x"), &packet(B, "", 0)),
        Err(ContractError::InvalidState)
    );
    assert_eq!(complete_deal(&mut state, NOW, &s(B)), Err(ContractError::InvalidState));
    assert_eq!(state, before);
}

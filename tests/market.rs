use std::collections::BTreeMap;

use fx_game::{
    Betting, Coin, ContractError, ExecuteMsg, InstantiateMsg, Instruction, Market, Payout,
    Position, LOOKBACK,
};

fn s(x: &str) -> String {
    x.to_string()
}

fn setup(pull_payout: bool, deadline: Option<u64>) -> Market {
    let msg = InstantiateMsg {
        denom: s("uconst"),
        fee_late: 3,
        minimum_amount: 10,
        bank_contract_address: s("pool"),
        betting_deadline_height: deadline,
        pull_payout,
    };
    Market::instantiate(s("admin"), msg).unwrap()
}

fn funds(amount: u128) -> Vec<Coin> {
    vec![Coin { denom: s("uconst"), amount }]
}

fn place(m: &mut Market, who: &str, position: &str, amount: u128, duration: u64, height: u64) -> Vec<Instruction> {
    m.betting(&s(who), &funds(amount), position, duration, height).unwrap()
}

fn publish(m: &mut Market, height: u64, price: u128) -> Vec<Instruction> {
    m.setting(&s("admin"), height, price, None).unwrap()
}

#[test]
fn instantiate_sets_config() {
    let m = setup(false, None);
    let st = m.query_state();
    assert_eq!(st.admin, vec![s("admin")]);
    assert_eq!(st.fee_late, 3);
    assert_eq!(st.minimum_amount, 10);
    assert_eq!(st.latest_price, 0);
    assert!(!m.query_state_lock());
    assert_eq!(m.query_get_latest_price(), 0);
    assert!(m.prices().is_empty());
    assert!(m.bettings().is_empty());
}

#[test]
fn instantiate_refuses_fee_over_hundred() {
    let msg = InstantiateMsg {
        denom: s("uconst"),
        fee_late: 101,
        minimum_amount: 1,
        bank_contract_address: s("pool"),
        betting_deadline_height: None,
        pull_payout: false,
    };
    assert_eq!(Market::instantiate(s("admin"), msg).err(), Some(ContractError::InvalidFeeRate {}));
}

#[test]
fn instantiate_refuses_zero_minimum_stake() {
    let msg = InstantiateMsg {
        denom: s("uconst"),
        fee_late: 3,
        minimum_amount: 0,
        bank_contract_address: s("pool"),
        betting_deadline_height: None,
        pull_payout: false,
    };
    assert_eq!(
        Market::instantiate(s("admin"), msg).err(),
        Some(ContractError::InvalidMinimumAmount {})
    );
}

#[test]
fn latest_price_follows_publications() {
    let mut m = setup(false, None);
    assert_eq!(m.query_get_latest_price(), 0);
    publish(&mut m, 5, 321);
    assert_eq!(m.query_get_latest_price(), 321);
}

#[test]
fn placing_a_wager_borrows_and_forwards_fee() {
    let mut m = setup(false, None);
    let out = place(&mut m, "alice", "long", 100000, 30, 100);
    assert_eq!(
        out,
        vec![Instruction::Borrow { amount: 97000 }, Instruction::ProvideFee { amount: 3000 }]
    );
    let bucket = m.query_get_height_betting_list(130);
    assert_eq!(
        bucket,
        vec![Betting::new(s("alice"), Position::Long, 97000, 194000, 0, 100, 130)]
    );
    assert_eq!(m.query_state().borrowed_balance, 97000);
}

#[test]
fn wager_uses_round_price_when_published() {
    let mut m = setup(false, None);
    publish(&mut m, 99, 1234);
    assert_eq!(m.query_get_round_price(100), Some(1234));
    place(&mut m, "bob", "short", 1000, 50, 100);
    assert_eq!(m.query_get_height_betting_list(150)[0].base_price, 1234);
}

#[test]
fn scenario_long_loses_against_lower_price() {
    let mut m = setup(false, None);
    publish(&mut m, 99, 1000);
    place(&mut m, "alice", "long", 100000, 30, 100);
    publish(&mut m, 129, 900);
    assert_eq!(m.query_get_round_price(130), Some(900));
    let out = publish(&mut m, 130, 950);
    assert_eq!(out, vec![Instruction::PayBack { amount: 194000 }]);
    assert!(m.query_get_height_betting_list(130).is_empty());
    assert_eq!(m.query_state().borrowed_balance, 0);
    assert_eq!(m.query_state().latest_price, 950);
    assert_eq!(m.query_state().latest_settled_height, 130);
}

#[test]
fn winners_are_paid_and_losers_returned() {
    let mut m = setup(false, None);
    publish(&mut m, 99, 1000);
    place(&mut m, "alice", "short", 100000, 30, 100);
    place(&mut m, "bob", "long", 1000, 30, 100);
    place(&mut m, "carol", "equal", 100, 30, 100);
    publish(&mut m, 129, 900);
    let out = publish(&mut m, 130, 950);
    assert_eq!(
        out,
        vec![
            Instruction::Transfer { recipient: s("alice"), amount: 194000 },
            Instruction::PayBack { amount: 1940 + 194 },
        ]
    );
}

#[test]
fn second_publication_at_same_height_is_a_no_op() {
    let mut m = setup(false, None);
    publish(&mut m, 99, 1000);
    place(&mut m, "alice", "long", 100000, 30, 100);
    publish(&mut m, 129, 900);
    publish(&mut m, 130, 950);
    let borrowed = m.query_state().borrowed_balance;
    let out = publish(&mut m, 130, 960);
    assert!(out.is_empty());
    assert_eq!(m.query_state().borrowed_balance, borrowed);
    assert!(m.bettings().is_empty());
}

#[test]
fn catch_up_refunds_missed_rounds() {
    let mut m = setup(false, None);
    place(&mut m, "old", "long", 100000, 30, 90);
    place(&mut m, "c", "long", 100000, 30, 97);
    place(&mut m, "b", "short", 100000, 30, 98);
    place(&mut m, "a", "equal", 100000, 30, 99);
    let out = publish(&mut m, 130, 1000);
    assert_eq!(
        out,
        vec![
            Instruction::Transfer { recipient: s("a"), amount: 100000 },
            Instruction::Transfer { recipient: s("b"), amount: 100000 },
            Instruction::Transfer { recipient: s("c"), amount: 100000 },
            Instruction::PayBack { amount: 9000 },
        ]
    );
    for h in 127..130 {
        assert!(m.query_get_height_betting_list(h).is_empty());
    }
    assert_eq!(m.query_get_height_betting_list(120).len(), 1);
    assert_eq!(m.query_state().borrowed_balance, 4 * 97000 - 9000);
    let again = publish(&mut m, 130, 1000);
    assert!(again.is_empty());
}

#[test]
fn catch_up_reaches_back_lookback_rounds_only() {
    let mut m = setup(false, None);
    place(&mut m, "in", "long", 1000, 30, 95);
    place(&mut m, "out", "long", 1000, 30, 94);
    let out = publish(&mut m, 130, 1000);
    assert_eq!(LOOKBACK, 5);
    assert_eq!(out[0], Instruction::Transfer { recipient: s("in"), amount: 1000 });
    assert_eq!(out.len(), 2);
    assert_eq!(m.query_get_height_betting_list(124).len(), 1);
}

#[test]
fn catch_up_near_height_zero() {
    let mut m = setup(false, None);
    let out = publish(&mut m, 2, 1000);
    assert!(out.is_empty());
    assert_eq!(m.query_get_round_price(3), Some(1000));
}

#[test]
fn published_price_is_never_overwritten() {
    let mut m = setup(false, None);
    publish(&mut m, 10, 500);
    publish(&mut m, 10, 700);
    assert_eq!(m.query_get_round_price(11), Some(500));
    assert_eq!(m.query_get_latest_price(), 700);
}

#[test]
fn non_admin_cannot_publish_or_set_fee() {
    let mut m = setup(false, None);
    place(&mut m, "alice", "long", 1000, 30, 100);
    let before_state = m.query_state().clone();
    let before_book = m.bettings().clone();
    assert_eq!(
        m.setting(&s("mallory"), 129, 1, Some(true)),
        Err(ContractError::OnlyOwner {})
    );
    assert_eq!(m.set_fee_late(&s("mallory"), 50), Err(ContractError::OnlyOwner {}));
    assert_eq!(m.query_state(), &before_state);
    assert_eq!(m.bettings(), &before_book);
    assert!(m.prices().is_empty());
}

#[test]
fn bad_duration_moves_nothing() {
    let mut m = setup(false, None);
    let r = m.betting(&s("alice"), &funds(1000), "long", 40, 100);
    assert_eq!(r, Err(ContractError::InvalidDuration {}));
    assert!(m.bettings().is_empty());
    assert_eq!(m.query_state().borrowed_balance, 0);
}

#[test]
fn placement_errors() {
    let mut m = setup(false, Some(140));
    assert_eq!(
        m.betting(&s("a"), &vec![], "long", 30, 100),
        Err(ContractError::MustSendCoin {})
    );
    let two = vec![Coin { denom: s("uconst"), amount: 50 }, Coin { denom: s("x"), amount: 50 }];
    assert_eq!(m.betting(&s("a"), &two, "long", 30, 100), Err(ContractError::InvalidOneTypeCoin {}));
    let other = vec![Coin { denom: s("uatom"), amount: 50 }];
    assert_eq!(m.betting(&s("a"), &other, "long", 30, 100), Err(ContractError::InvalidDenom {}));
    assert_eq!(
        m.betting(&s("a"), &funds(9), "long", 30, 100),
        Err(ContractError::InvalidMinimumAmount {})
    );
    assert_eq!(m.betting(&s("a"), &funds(50), "up", 30, 100), Err(ContractError::InvalidPosition {}));
    assert_eq!(m.betting(&s("a"), &funds(50), "long", 50, 100), Err(ContractError::OverDeadline {}));
    assert_eq!(
        m.betting(&s("a"), &funds(50), "long", 30, u64::MAX - 10),
        Err(ContractError::InvalidHeight {})
    );
    assert!(m.betting(&s("a"), &funds(50), "long", 30, 110).is_ok());
    m.setting(&s("admin"), 111, 1000, Some(true)).unwrap();
    assert!(m.query_state_lock());
    assert_eq!(m.betting(&s("a"), &funds(50), "long", 30, 112), Err(ContractError::Lock {}));
}

#[test]
fn publish_at_largest_height_is_refused() {
    let mut m = setup(false, None);
    assert_eq!(m.setting(&s("admin"), u64::MAX, 1, None), Err(ContractError::InvalidHeight {}));
}

#[test]
fn admin_settings() {
    let mut m = setup(false, None);
    assert_eq!(m.set_fee_late(&s("admin"), 101), Err(ContractError::InvalidFeeRate {}));
    assert_eq!(m.set_fee_late(&s("admin"), 100), Ok(vec![]));
    assert_eq!(m.query_state().fee_late, 100);
    assert_eq!(
        m.set_minimum_amount(&s("admin"), 0),
        Err(ContractError::InvalidMinimumAmount {})
    );
    assert_eq!(m.query_state().minimum_amount, 10);
    assert_eq!(m.set_minimum_amount(&s("admin"), 77), Ok(vec![]));
    assert_eq!(m.query_state().minimum_amount, 77);
    assert_eq!(m.set_bank_contract(&s("admin"), s("pool2")), Ok(vec![]));
    assert_eq!(m.query_state().bank_contract, s("pool2"));
    assert_eq!(m.add_admin(&s("bob"), s("eve")), Err(ContractError::OnlyOwner {}));
    assert_eq!(m.add_admin(&s("admin"), s("bob")), Ok(vec![]));
    assert_eq!(m.set_minimum_amount(&s("bob"), 5), Ok(vec![]));
    assert_eq!(m.query_state().admin, vec![s("admin"), s("bob")]);
}

#[test]
fn full_fee_rate_refunds_the_stake() {
    let mut m = setup(false, None);
    m.set_fee_late(&s("admin"), 100).unwrap();
    let out = place(&mut m, "a", "long", 1000, 30, 97);
    assert_eq!(out, vec![Instruction::Borrow { amount: 0 }, Instruction::ProvideFee { amount: 1000 }]);
    let refunds = publish(&mut m, 130, 1);
    assert_eq!(refunds, vec![Instruction::Transfer { recipient: s("a"), amount: 0 }]);
}

#[test]
fn pull_policy_credits_and_claims() {
    let mut m = setup(true, None);
    publish(&mut m, 99, 1000);
    place(&mut m, "alice", "short", 100000, 30, 100);
    place(&mut m, "alice", "short", 100000, 30, 100);
    publish(&mut m, 129, 900);
    let out = publish(&mut m, 130, 950);
    assert!(out.is_empty());
    assert_eq!(m.query_get_account_balance("alice"), 388000);
    assert_eq!(m.query_get_account_balance("bob"), 0);
    let claim = m.claim_balance(&s("alice")).unwrap();
    assert_eq!(claim, vec![Instruction::Transfer { recipient: s("alice"), amount: 388000 }]);
    assert_eq!(m.query_get_account_balance("alice"), 0);
    let empty = m.claim_balance(&s("alice")).unwrap();
    assert_eq!(empty, vec![Instruction::Transfer { recipient: s("alice"), amount: 0 }]);
}

#[test]
fn recent_betting_list_reads_six_rounds() {
    let mut m = setup(false, None);
    place(&mut m, "h", "long", 100, 30, 100);
    place(&mut m, "h5", "long", 100, 30, 95);
    place(&mut m, "h6", "long", 100, 30, 94);
    let recent = m.query_get_recent_betting_list(130);
    let names: Vec<String> = recent.iter().map(|b| b.address.clone()).collect();
    assert_eq!(names, vec![s("h"), s("h5")]);
    assert_eq!(m.bettings().len(), 3);
    assert!(m.query_get_recent_betting_list(3).is_empty());
}

#[test]
fn execute_dispatches() {
    let mut m = setup(false, None);
    m.execute(&s("admin"), &vec![], 99, ExecuteMsg::Setting { price: 1000, lock: None }).unwrap();
    let out = m
        .execute(&s("alice"), &funds(1000), 100, ExecuteMsg::Betting { position: s("equal"), duration: 50 })
        .unwrap();
    assert_eq!(out, vec![Instruction::Borrow { amount: 970 }, Instruction::ProvideFee { amount: 30 }]);
    assert_eq!(
        m.execute(&s("alice"), &vec![], 100, ExecuteMsg::SetFeeLate { fee_late: 1 }),
        Err(ContractError::OnlyOwner {})
    );
    m.execute(&s("admin"), &vec![], 149, ExecuteMsg::Setting { price: 1000, lock: None }).unwrap();
    let settled =
        m.execute(&s("admin"), &vec![], 150, ExecuteMsg::Setting { price: 1, lock: None }).unwrap();
    assert_eq!(settled, vec![Instruction::Transfer { recipient: s("alice"), amount: 1940 }]);
    assert_eq!(m.execute(&s("admin"), &vec![], 1, ExecuteMsg::AddAdmin { address: s("x") }), Ok(vec![]));
    assert_eq!(
        m.execute(&s("x"), &vec![], 1, ExecuteMsg::ClaimBalance {}),
        Ok(vec![Instruction::Transfer { recipient: s("x"), amount: 0 }])
    );
}

#[test]
fn restore_round_trips_and_merges_balances() {
    let mut m = setup(true, None);
    place(&mut m, "alice", "long", 1000, 30, 100);
    let state = m.query_state().clone();
    let prices = m.prices().clone();
    let book = m.bettings().clone();
    let entries = vec![
        Payout { recipient: s("a"), amount: 5 },
        Payout { recipient: s("b"), amount: 7 },
        Payout { recipient: s("a"), amount: 6 },
    ];
    let r = Market::restore(state.clone(), prices.clone(), book.clone(), entries).unwrap();
    assert_eq!(r.query_state(), &state);
    assert_eq!(r.bettings(), &book);
    assert_eq!(r.query_get_account_balance("a"), 11);
    assert_eq!(r.query_get_account_balance("b"), 7);
    assert_eq!(r.balance_entries().len(), 2);
    let mut bad = state.clone();
    bad.fee_late = 200;
    assert_eq!(
        Market::restore(bad, BTreeMap::new(), BTreeMap::new(), vec![]).err(),
        Some(ContractError::InvalidFeeRate {})
    );
    let mut no_minimum = state;
    no_minimum.minimum_amount = 0;
    assert_eq!(
        Market::restore(no_minimum, BTreeMap::new(), BTreeMap::new(), vec![]).err(),
        Some(ContractError::InvalidMinimumAmount {})
    );
}

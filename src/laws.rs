use vstd::prelude::*;

use crate::contract::{
    bucket, fee_rate_result, place_result, publish_result, transfers, window_keys, window_wagers,
    MarketModel, LOOKBACK,
};
use crate::error::ContractError;
use crate::fee::{fee_of, refund_of, stake_after_fee};
use crate::helper::{denom_check, duration_allowed};
use crate::ledger::credit_all;
use crate::msg::Instruction;
use crate::settle::{
    losing_total, payout_total, refund_payouts, win_total, winner_payouts, Payout,
};
use crate::state::{is_admin, Betting, Coin};

verus! {

/// The fee on a stake is the stake times the rate over one hundred, rounded
/// down; fee and stake after fee add up to the stake, and neither is
/// negative.
pub proof fn lemma_fee_split(amount: u128, rate: u8)
    requires
        rate <= 100,
    ensures
        fee_of(amount as int, rate as int) == (amount as int * rate as int) / 100,
        0 <= fee_of(amount as int, rate as int) <= amount,
        fee_of(amount as int, rate as int) + stake_after_fee(amount as int, rate as int) == amount,
{
    assert(0 <= (amount as int * rate as int) / 100 <= amount) by (nonlinear_arith)
        requires
            0 <= rate <= 100,
            amount >= 0,
    ;
}

/// Settling a bucket hands out every win amount exactly once: what the
/// winners are paid and what the losers return to the pool add up to the
/// win amounts of the whole bucket.
pub proof fn lemma_settlement_conserves(bs: Seq<Betting>, round_price: u128)
    ensures
        payout_total(winner_payouts(bs, round_price)) + losing_total(bs, round_price) == win_total(
            bs,
        ),
    decreases bs.len(),
{
    if bs.len() > 0 {
        lemma_settlement_conserves(bs.drop_last(), round_price);
        let rest = winner_payouts(bs.drop_last(), round_price);
        let b = bs.last();
        let p = Payout { recipient: b.address, amount: b.win_amount };
        assert(rest.push(p).drop_last() =~= rest);
    }
}

/// Each refund of voided wagers goes to the wager's participant and is the
/// principal reconstructed from its stake after fee.
pub proof fn lemma_refund_payouts(bs: Seq<Betting>, rate: u8)
    ensures
        refund_payouts(bs, rate).len() == bs.len(),
        forall|i: int|
            0 <= i < bs.len() ==> #[trigger] refund_payouts(bs, rate)[i] == (Payout {
                recipient: bs[i].address,
                amount: refund_of(bs[i].amount as int, rate as int) as u128,
            }),
    decreases bs.len(),
{
    if bs.len() > 0 {
        lemma_refund_payouts(bs.drop_last(), rate);
        assert forall|i: int| 0 <= i < bs.len() - 1 implies bs.drop_last()[i] == bs[i] by {}
    }
}

proof fn lemma_window_cleared(book: Map<u64, Seq<Betting>>, height: u64, n: nat)
    requires
        n <= LOOKBACK,
        forall|k: u64| window_keys(height).contains(k) ==> !book.contains_key(k),
    ensures
        window_wagers(book, height, n) == Seq::<Betting>::empty(),
    decreases n,
{
    if n > 0 {
        lemma_window_cleared(book, height, (n - 1) as nat);
        if n <= height {
            assert(window_keys(height).contains((height - n) as u64));
        }
        assert(window_wagers(book, height, n) =~= Seq::<Betting>::empty());
    }
}

/// Publishing at the same height a second time, once the first publication
/// has consumed the buckets, pays nobody, returns nothing to the pool and
/// leaves the book, the balances and the borrowed balance as they were.
pub proof fn lemma_publish_idempotent(
    m: MarketModel,
    sender: Seq<char>,
    height: u64,
    price: u128,
    lock: Option<bool>,
    price2: u128,
    lock2: Option<bool>,
)
    requires
        publish_result(m, sender, height, price, lock) is Ok,
    ensures
        ({
            let m1 = publish_result(m, sender, height, price, lock)->Ok_0.0;
            let second = publish_result(m1, sender, height, price2, lock2);
            &&& second is Ok
            &&& second->Ok_0.1 == Seq::<Instruction>::empty()
            &&& second->Ok_0.0.state.borrowed_balance == m1.state.borrowed_balance
            &&& second->Ok_0.0.book == m1.book
            &&& second->Ok_0.0.balances == m1.balances
        }),
{
    let m1 = publish_result(m, sender, height, price, lock)->Ok_0.0;
    assert(m1.state.admin == m.state.admin);
    assert(is_admin(m1.state, sender));
    assert(m1.prices.contains_key(height) == m.prices.contains_key(height));
    if m.prices.contains_key(height) {
        assert(bucket(m1.book, height) =~= Seq::<Betting>::empty());
        assert(m1.book.remove(height) =~= m1.book);
    } else {
        lemma_window_cleared(m1.book, height, LOOKBACK as nat);
        assert(m1.book.remove_keys(window_keys(height)) =~= m1.book);
    }
    assert(transfers(Seq::<Payout>::empty()) =~= Seq::<Instruction>::empty());
    assert(credit_all(m1.balances, Seq::<Payout>::empty()) == m1.balances);
}

/// A publication at a height whose round has no price voids the buckets of
/// the lookback window: each is removed, every wager in them is refunded
/// once with its reconstructed principal, and every other bucket is left as
/// it was.
pub proof fn lemma_catch_up(
    m: MarketModel,
    sender: Seq<char>,
    height: u64,
    price: u128,
    lock: Option<bool>,
)
    requires
        is_admin(m.state, sender),
        height < u64::MAX,
        !m.prices.contains_key(height),
    ensures
        ({
            let r = publish_result(m, sender, height, price, lock);
            let ws = window_wagers(m.book, height, LOOKBACK as nat);
            let rate = m.state.fee_late;
            let ps = refund_payouts(ws, rate);
            &&& r is Ok
            &&& forall|k: u64|
                window_keys(height).contains(k) ==> !(#[trigger] r->Ok_0.0.book.contains_key(k))
            &&& forall|k: u64|
                !window_keys(height).contains(k) ==> (#[trigger] r->Ok_0.0.book.contains_key(k)
                    == m.book.contains_key(k) && (m.book.contains_key(k) ==> r->Ok_0.0.book[k]
                    == m.book[k]))
            &&& ps.len() == ws.len()
            &&& forall|i: int|
                0 <= i < ws.len() ==> #[trigger] ps[i] == (Payout {
                    recipient: ws[i].address,
                    amount: refund_of(ws[i].amount as int, rate as int) as u128,
                })
            &&& !m.state.pull_payout ==> r->Ok_0.1.take(ws.len() as int) == transfers(ps)
            &&& m.state.pull_payout ==> r->Ok_0.0.balances == credit_all(m.balances, ps)
        }),
{
    let ws = window_wagers(m.book, height, LOOKBACK as nat);
    let rate = m.state.fee_late;
    lemma_refund_payouts(ws, rate);
    let r = publish_result(m, sender, height, price, lock);
    let ps = refund_payouts(ws, rate);
    if !m.state.pull_payout {
        assert(transfers(ps).len() == ws.len());
        assert(r->Ok_0.1.take(ws.len() as int) =~= transfers(ps));
    }
}

/// A caller who is not an administrator can neither publish a price nor set
/// the fee rate: both are refused as unauthorized.
pub proof fn lemma_non_admin_rejected(
    m: MarketModel,
    sender: Seq<char>,
    height: u64,
    price: u128,
    lock: Option<bool>,
    fee_late: u8,
)
    requires
        !is_admin(m.state, sender),
    ensures
        publish_result(m, sender, height, price, lock) == Err::<
            (MarketModel, Seq<Instruction>),
            ContractError,
        >(ContractError::OnlyOwner {}),
        fee_rate_result(m, sender, fee_late) == Err::<
            (MarketModel, Seq<Instruction>),
            ContractError,
        >(ContractError::OnlyOwner {}),
{
}

/// A wager with a duration outside the allowed set is refused, and, once the
/// lock and the attached funds have passed, refused for its duration.
pub proof fn lemma_bad_duration_rejected(
    m: MarketModel,
    sender: String,
    funds: Seq<Coin>,
    position: Seq<char>,
    duration: u64,
    height: u64,
)
    requires
        !duration_allowed(duration),
    ensures
        place_result(m, sender, funds, position, duration, height) is Err,
        !m.state.lock && denom_check(funds, m.state) is Ok ==> place_result(
            m,
            sender,
            funds,
            position,
            duration,
            height,
        ) == Err::<(MarketModel, Seq<Instruction>), ContractError>(
            ContractError::InvalidDuration {},
        ),
{
}

/// A placed wager holds the stake less the fee, the fee rounded down, and
/// the fee forwarded to the pool and the stake kept add up to the coin that
/// was attached.
pub proof fn lemma_placement_splits_stake(
    m: MarketModel,
    sender: String,
    funds: Seq<Coin>,
    position: Seq<char>,
    duration: u64,
    height: u64,
)
    requires
        m.state.wf(),
        place_result(m, sender, funds, position, duration, height) is Ok,
    ensures
        ({
            let v = place_result(m, sender, funds, position, duration, height)->Ok_0;
            let amount = funds[0].amount;
            let rate = m.state.fee_late;
            let target = (height + duration) as u64;
            let w = v.0.book[target].last();
            &&& v.0.book.contains_key(target)
            &&& w.amount == amount - (amount * rate) / 100
            &&& v.1[1] == Instruction::ProvideFee { amount: ((amount * rate) / 100) as u128 }
            &&& ((amount * rate) / 100) + w.amount == amount
        }),
{
    lemma_fee_split(funds[0].amount, m.state.fee_late);
}

} // verus!

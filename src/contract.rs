use vstd::prelude::*;

use std::collections::BTreeMap;

use crate::error::ContractError;
use crate::fee::{capped, compute_fee, fee_of, stake_after_fee, win_amount, win_amount_of};
use crate::helper::{
    check_admin, check_denom, check_duration, check_lock, denom_check, duration_allowed,
};
use crate::ledger::{balance_in, credit_all, entries_map, unique_recipients, BalanceLedger};
use crate::msg::{ExecuteMsg, InstantiateMsg, Instruction};
use crate::settle::{
    losing_total, refund_payouts, refund_round, refunded_fees, settle_round, winner_payouts, Payout,
};
use crate::state::{is_admin, position_of, Betting, Coin, Position, State};

verus! {

/// How many rounds before a publication the catch-up path reaches back.
pub const LOOKBACK: u64 = 5;

/// The whole market as values: configuration, the price of each round, the
/// wagers waiting for each round in submission order, and the claimable
/// balance of each participant.
pub struct MarketModel {
    pub state: State,
    pub prices: Map<u64, u128>,
    pub book: Map<u64, Seq<Betting>>,
    pub balances: Map<Seq<char>, u128>,
}

/// The wagers waiting for round `h`; none where it has no bucket.
pub open spec fn bucket(book: Map<u64, Seq<Betting>>, h: u64) -> Seq<Betting> {
    if book.contains_key(h) {
        book[h]
    } else {
        Seq::empty()
    }
}

/// The rounds that a catch-up at `height` voids: the `LOOKBACK` rounds
/// before it.
pub open spec fn window_keys(height: u64) -> Set<u64> {
    Set::new(|k: u64| k < height && height - k <= LOOKBACK)
}

/// The wagers of the rounds `height - 1` down to `height - n`, nearest
/// round first, each bucket in submission order.
pub open spec fn window_wagers(book: Map<u64, Seq<Betting>>, height: u64, n: nat) -> Seq<Betting>
    decreases n,
{
    if n == 0 {
        Seq::empty()
    } else {
        window_wagers(book, height, (n - 1) as nat) + if n <= height {
            bucket(book, (height - n) as u64)
        } else {
            Seq::empty()
        }
    }
}

/// The instruction that sends a payout.
pub open spec fn transfer_of(p: Payout) -> Instruction {
    Instruction::Transfer { recipient: p.recipient, amount: p.amount }
}

/// The instructions that send each payout, in order.
pub open spec fn transfers(ps: Seq<Payout>) -> Seq<Instruction> {
    ps.map_values(|p: Payout| transfer_of(p))
}

/// Where payouts go: under the pull policy into the balance ledger, else
/// out as transfers. Gives the new balances and the instructions.
pub open spec fn delivered(pull: bool, balances: Map<Seq<char>, u128>, ps: Seq<Payout>) -> (
    Map<Seq<char>, u128>,
    Seq<Instruction>,
) {
    if pull {
        (credit_all(balances, ps), Seq::empty())
    } else {
        (balances, transfers(ps))
    }
}

/// `a - b`, or zero where `b` is larger.
pub open spec fn sub_floor(a: int, b: int) -> int {
    if a >= b {
        a - b
    } else {
        0
    }
}

/// What a price publication by `sender` at `height` does to `m`: the new
/// market and the instructions, or the error.
///
/// The price is recorded for round `height + 1` unless that round already
/// has one. If round `height` has a price, its bucket is settled against
/// it; otherwise the buckets of the lookback window are voided and refunded.
pub open spec fn publish_result(
    m: MarketModel,
    sender: Seq<char>,
    height: u64,
    price: u128,
    lock: Option<bool>,
) -> Result<(MarketModel, Seq<Instruction>), ContractError> {
    if !is_admin(m.state, sender) {
        Err(ContractError::OnlyOwner {})
    } else if height == u64::MAX {
        Err(ContractError::InvalidHeight {})
    } else {
        let next = (height + 1) as u64;
        let prices = if m.prices.contains_key(next) {
            m.prices
        } else {
            m.prices.insert(next, price)
        };
        let rate = m.state.fee_late;
        let found = m.prices.contains_key(height);
        let ws = window_wagers(m.book, height, LOOKBACK as nat);
        let book = if found {
            m.book.remove(height)
        } else {
            m.book.remove_keys(window_keys(height))
        };
        let payouts = if found {
            winner_payouts(bucket(m.book, height), m.prices[height])
        } else {
            refund_payouts(ws, rate)
        };
        let returned = if found {
            capped(losing_total(bucket(m.book, height), m.prices[height]))
        } else {
            capped(refunded_fees(ws, rate))
        };
        let d = delivered(m.state.pull_payout, m.balances, payouts);
        let state = State {
            lock: match lock {
                Some(l) => l,
                None => m.state.lock,
            },
            latest_price: price,
            latest_settled_height: height,
            borrowed_balance: sub_floor(m.state.borrowed_balance as int, returned) as u128,
            ..m.state
        };
        let out = if returned > 0 {
            d.1.push(Instruction::PayBack { amount: returned as u128 })
        } else {
            d.1
        };
        Ok((MarketModel { state, prices, book, balances: d.0 }, out))
    }
}

/// The wager that a placement stores, once every check has passed.
pub open spec fn placed_wager(
    m: MarketModel,
    sender: String,
    amount: u128,
    position: Position,
    duration: u64,
    height: u64,
) -> Betting {
    let stake = stake_after_fee(amount as int, m.state.fee_late as int);
    Betting {
        address: sender,
        start_height: height,
        target_height: (height + duration) as u64,
        position,
        base_price: if m.prices.contains_key(height) {
            m.prices[height]
        } else {
            m.state.latest_price
        },
        amount: stake as u128,
        win_amount: win_amount_of(stake) as u128,
    }
}

/// What a wager placement by `sender` at `height` does to `m`: the new
/// market and the instructions, or the first check that fails.
///
/// The stake after fee is stored with the round's reference price (the
/// published one, else the latest) under the target round; the matched share
/// is borrowed from the funding pool and the fee forwarded to it.
pub open spec fn place_result(
    m: MarketModel,
    sender: String,
    funds: Seq<Coin>,
    position: Seq<char>,
    duration: u64,
    height: u64,
) -> Result<(MarketModel, Seq<Instruction>), ContractError> {
    if m.state.lock {
        Err(ContractError::Lock {})
    } else if denom_check(funds, m.state) is Err {
        Err(denom_check(funds, m.state)->Err_0)
    } else if !duration_allowed(duration) {
        Err(ContractError::InvalidDuration {})
    } else if height + duration > u64::MAX {
        Err(ContractError::InvalidHeight {})
    } else if m.state.betting_deadline_height is Some && height + duration
        > m.state.betting_deadline_height->Some_0 {
        Err(ContractError::OverDeadline {})
    } else if position_of(position) is None {
        Err(ContractError::InvalidPosition {})
    } else {
        let amount = funds[0].amount;
        let fee = fee_of(amount as int, m.state.fee_late as int);
        let w = placed_wager(m, sender, amount, position_of(position)->Some_0, duration, height);
        let borrowed = w.win_amount - w.amount;
        let state = State {
            borrowed_balance: capped(m.state.borrowed_balance + borrowed) as u128,
            ..m.state
        };
        let book = m.book.insert(w.target_height, bucket(m.book, w.target_height).push(w));
        Ok(
            (
                MarketModel { state, book, ..m },
                seq![
                    Instruction::Borrow { amount: borrowed as u128 },
                    Instruction::ProvideFee { amount: fee as u128 },
                ],
            ),
        )
    }
}

/// What setting the fee rate does: administrators only, at most one hundred
/// percent.
pub open spec fn fee_rate_result(m: MarketModel, sender: Seq<char>, fee_late: u8) -> Result<
    (MarketModel, Seq<Instruction>),
    ContractError,
> {
    if !is_admin(m.state, sender) {
        Err(ContractError::OnlyOwner {})
    } else if fee_late > 100 {
        Err(ContractError::InvalidFeeRate {})
    } else {
        Ok((MarketModel { state: State { fee_late, ..m.state }, ..m }, Seq::empty()))
    }
}

/// What setting the minimum stake does: administrators only, and the
/// minimum stake stays positive.
pub open spec fn minimum_result(m: MarketModel, sender: Seq<char>, amount: u64) -> Result<
    (MarketModel, Seq<Instruction>),
    ContractError,
> {
    if !is_admin(m.state, sender) {
        Err(ContractError::OnlyOwner {})
    } else if amount == 0 {
        Err(ContractError::InvalidMinimumAmount {})
    } else {
        Ok(
            (
                MarketModel { state: State { minimum_amount: amount as u128, ..m.state }, ..m },
                Seq::empty(),
            ),
        )
    }
}

/// What setting the funding pool does: administrators only.
pub open spec fn bank_contract_result(m: MarketModel, sender: Seq<char>, address: String) -> Result<
    (MarketModel, Seq<Instruction>),
    ContractError,
> {
    if !is_admin(m.state, sender) {
        Err(ContractError::OnlyOwner {})
    } else {
        Ok((MarketModel { state: State { bank_contract: address, ..m.state }, ..m }, Seq::empty()))
    }
}

/// What a claim by `sender` does: the whole balance is removed from the
/// ledger and sent, zero where there is none.
pub open spec fn claim_result(m: MarketModel, sender: String) -> Result<
    (MarketModel, Seq<Instruction>),
    ContractError,
> {
    Ok(
        (
            MarketModel { balances: m.balances.remove(sender@), ..m },
            seq![
                Instruction::Transfer {
                    recipient: sender,
                    amount: balance_in(m.balances, sender@) as u128,
                },
            ],
        ),
    )
}

/// Whether a call to add `address` as administrator did its work: refused
/// with no change unless `sender` is one, else `address` appended to the
/// administrators and nothing else changed.
pub open spec fn admin_added(
    r: Result<Vec<Instruction>, ContractError>,
    after: MarketModel,
    before: MarketModel,
    sender: Seq<char>,
    address: String,
) -> bool {
    if !is_admin(before.state, sender) {
        r == Err::<Vec<Instruction>, ContractError>(ContractError::OnlyOwner {}) && after == before
    } else {
        &&& r is Ok
        &&& r->Ok_0@ == Seq::<Instruction>::empty()
        &&& after.state.admin@ == before.state.admin@.push(address)
        &&& after == MarketModel {
            state: State { admin: after.state.admin, ..before.state },
            ..before
        }
    }
}

/// The wagers of rounds `height`, `height - 1`, ... back over `n` rounds,
/// nearest first.
pub open spec fn recent_wagers(book: Map<u64, Seq<Betting>>, height: u64, n: nat) -> Seq<Betting>
    decreases n,
{
    if n == 0 {
        Seq::empty()
    } else {
        recent_wagers(book, height, (n - 1) as nat) + if n - 1 <= height {
            bucket(book, (height - (n - 1)) as u64)
        } else {
            Seq::empty()
        }
    }
}

/// The configuration that a new market starts from, but for its
/// administrators.
pub open spec fn initial_state(admin: Vec<String>, msg: InstantiateMsg) -> State {
    State {
        admin,
        fee_late: msg.fee_late,
        denom: msg.denom,
        minimum_amount: msg.minimum_amount as u128,
        bank_contract: msg.bank_contract_address,
        latest_price: 0,
        lock: false,
        pull_payout: msg.pull_payout,
        betting_deadline_height: msg.betting_deadline_height,
        latest_settled_height: 0,
        borrowed_balance: 0,
    }
}

/// Whether a call that returned `r` and left the market at `after`, having
/// found it at `before`, did what `expected` says: on success the new market
/// and the instructions, on failure that error and no change.
pub open spec fn outcome(
    r: Result<Vec<Instruction>, ContractError>,
    after: MarketModel,
    before: MarketModel,
    expected: Result<(MarketModel, Seq<Instruction>), ContractError>,
) -> bool {
    match expected {
        Ok(v) => r is Ok && r->Ok_0@ == v.1 && after == v.0,
        Err(e) => r == Err::<Vec<Instruction>, ContractError>(e) && after == before,
    }
}

/// The book as the model sees it: each bucket as a sequence.
pub open spec fn book_view(b: Map<u64, Vec<Betting>>) -> Map<u64, Seq<Betting>> {
    b.map_values(|v: Vec<Betting>| v@)
}

/// The market: configuration, price ledger, pending-wager book and balance
/// ledger.
pub struct Market {
    state: State,
    prices: BTreeMap<u64, u128>,
    bettings: BTreeMap<u64, Vec<Betting>>,
    balances: BalanceLedger,
}

impl View for Market {
    type V = MarketModel;

    closed spec fn view(&self) -> MarketModel {
        MarketModel {
            state: self.state,
            prices: self.prices@,
            book: book_view(self.bettings@),
            balances: self.balances@,
        }
    }
}

/// The instructions that send each payout, in order.
fn transfers_of(payouts: &Vec<Payout>) -> (r: Vec<Instruction>)
    ensures
        r@ == transfers(payouts@),
{
    let mut out: Vec<Instruction> = Vec::new();
    let mut i: usize = 0;
    while i < payouts.len()
        invariant
            i <= payouts@.len(),
            out@ == transfers(payouts@.take(i as int)),
        decreases payouts@.len() - i,
    {
        let p = &payouts[i];
        out.push(Instruction::Transfer { recipient: p.recipient.clone(), amount: p.amount });
        assert(transfers(payouts@.take(i + 1)) =~= transfers(payouts@.take(i as int)).push(
            transfer_of(payouts@[i as int]),
        ));
        i = i + 1;
    }
    assert(payouts@.take(i as int) =~= payouts@);
    out
}

impl Market {
    /// The configuration is valid and the balance ledger is well formed.
    pub closed spec fn wf(&self) -> bool {
        self.state.wf() && self.balances.wf()
    }

    /// Sends the payouts or credits them, as the payout policy says.
    fn deliver(&mut self, payouts: Vec<Payout>) -> (out: Vec<Instruction>)
        requires
            old(self).wf(),
        ensures
            final(self).wf(),
            final(self).state == old(self).state,
            final(self).prices@ == old(self).prices@,
            final(self).bettings@ == old(self).bettings@,
            (final(self).balances@, out@) == delivered(
                old(self).state.pull_payout,
                old(self).balances@,
                payouts@,
            ),
    {
        if self.state.pull_payout {
            self.balances.credit_each(payouts);
            Vec::new()
        } else {
            transfers_of(&payouts)
        }
    }

    /// Removes the buckets of the lookback window before `height` and
    /// returns their wagers, nearest round first.
    fn take_window(&mut self, height: u64) -> (r: Vec<Betting>)
        ensures
            final(self).state == old(self).state,
            final(self).prices@ == old(self).prices@,
            final(self).balances == old(self).balances,
            r@ == window_wagers(book_view(old(self).bettings@), height, LOOKBACK as nat),
            book_view(final(self).bettings@) == book_view(old(self).bettings@).remove_keys(
                window_keys(height),
            ),
    {
        let ghost book0 = book_view(self.bettings@);
        let mut wagers: Vec<Betting> = Vec::new();
        let mut i: u64 = 1;
        while i <= LOOKBACK
            invariant
                1 <= i <= LOOKBACK + 1,
                self.state == old(self).state,
                self.prices@ == old(self).prices@,
                self.balances == old(self).balances,
                book0 == book_view(old(self).bettings@),
                wagers@ == window_wagers(book0, height, (i - 1) as nat),
                book_view(self.bettings@) == book0.remove_keys(
                    Set::new(|k: u64| k < height && height - k < i),
                ),
            decreases LOOKBACK + 1 - i,
        {
            let ghost before = self.bettings@;
            let ghost w0 = wagers@;
            if i <= height {
                let key = height - i;
                assert(book_view(before).contains_key(key) == book0.contains_key(key));
                assert(book_view(before).contains_key(key) ==> book_view(before)[key]
                    == book0[key]);
                match self.bettings.remove(&key) {
                    Some(mut v) => {
                        assert(before.contains_key(key) && before[key] == v);
                        assert(book_view(before)[key] == v@);
                        assert(bucket(book0, key) == v@);
                        wagers.append(&mut v);
                    },
                    None => {
                        assert(bucket(book0, key) =~= Seq::<Betting>::empty());
                        assert(wagers@ =~= w0 + Seq::<Betting>::empty());
                    },
                }
                assert(book_view(self.bettings@) =~= book_view(before).remove(key));
                assert(book_view(self.bettings@) =~= book0.remove_keys(
                    Set::new(|k: u64| k < height && height - k < i + 1),
                ));
            } else {
                assert(wagers@ =~= w0 + Seq::<Betting>::empty());
                assert(book_view(self.bettings@) =~= book0.remove_keys(
                    Set::new(|k: u64| k < height && height - k < i + 1),
                ));
            }
            i = i + 1;
        }
        assert(book_view(self.bettings@) =~= book0.remove_keys(window_keys(height)));
        wagers
    }

    /// Places a wager of the single attached coin on `position`, maturing
    /// `duration` rounds after `height`; see `place_result`.
    pub fn betting(
        &mut self,
        sender: &String,
        funds: &Vec<Coin>,
        position: &str,
        duration: u64,
        height: u64,
    ) -> (r: Result<Vec<Instruction>, ContractError>)
        requires
            old(self).wf(),
        ensures
            final(self).wf(),
            outcome(
                r,
                final(self)@,
                old(self)@,
                place_result(old(self)@, *sender, funds@, position@, duration, height),
            ),
    {
        match check_lock(&self.state) {
            Ok(()) => {},
            Err(e) => {
                return Err(e);
            },
        }
        match check_denom(funds, &self.state) {
            Ok(()) => {},
            Err(e) => {
                return Err(e);
            },
        }
        match check_duration(duration) {
            Ok(()) => {},
            Err(e) => {
                return Err(e);
            },
        }
        if duration > u64::MAX - height {
            return Err(ContractError::InvalidHeight {});
        }
        let target_height = height + duration;
        match self.state.betting_deadline_height {
            Some(deadline) => {
                if target_height > deadline {
                    return Err(ContractError::OverDeadline {});
                }
            },
            None => {},
        }
        let position = match Position::new(position) {
            Ok(p) => p,
            Err(e) => {
                return Err(e);
            },
        };
        let ghost m = self@;
        let amount = funds[0].amount;
        let fee = compute_fee(amount, self.state.fee_late);
        let stake = amount - fee;
        let win = win_amount(stake);
        let borrowed = win - stake;
        let base_price = match self.prices.get(&height) {
            Some(p) => *p,
            None => self.state.latest_price,
        };
        let wager = Betting::new(
            sender.clone(),
            position,
            stake,
            win,
            base_price,
            height,
            target_height,
        );
        let mut due = match self.bettings.remove(&target_height) {
            Some(v) => v,
            None => Vec::new(),
        };
        assert(due@ == bucket(m.book, target_height));
        due.push(wager);
        self.bettings.insert(target_height, due);
        assert(book_view(self.bettings@) =~= m.book.insert(
            target_height,
            bucket(m.book, target_height).push(wager),
        ));
        self.state.borrowed_balance = if self.state.borrowed_balance > u128::MAX - borrowed {
            u128::MAX
        } else {
            self.state.borrowed_balance + borrowed
        };
        let mut out: Vec<Instruction> = Vec::new();
        out.push(Instruction::Borrow { amount: borrowed });
        out.push(Instruction::ProvideFee { amount: fee });
        assert(out@ =~= seq![
            Instruction::Borrow { amount: borrowed },
            Instruction::ProvideFee { amount: fee },
        ]);
        Ok(out)
    }

    /// Publishes the price of the next round and settles the round at
    /// `height`; see `publish_result`. Only an administrator may publish.
    pub fn setting(
        &mut self,
        sender: &String,
        height: u64,
        price: u128,
        lock: Option<bool>,
    ) -> (r: Result<Vec<Instruction>, ContractError>)
        requires
            old(self).wf(),
        ensures
            final(self).wf(),
            outcome(
                r,
                final(self)@,
                old(self)@,
                publish_result(old(self)@, sender@, height, price, lock),
            ),
    {
        match check_admin(sender.as_str(), &self.state) {
            Ok(()) => {},
            Err(e) => {
                return Err(e);
            },
        }
        if height == u64::MAX {
            return Err(ContractError::InvalidHeight {});
        }
        let ghost m = self@;
        match lock {
            Some(l) => {
                self.state.lock = l;
            },
            None => {},
        }
        let next = height + 1;
        if !self.prices.contains_key(&next) {
            self.prices.insert(next, price);
        }
        let rate = self.state.fee_late;
        let round_price = match self.prices.get(&height) {
            Some(p) => Some(*p),
            None => None,
        };
        let (payouts, returned) = match round_price {
            Some(p) => {
                let due = match self.bettings.remove(&height) {
                    Some(v) => v,
                    None => Vec::new(),
                };
                assert(due@ == bucket(m.book, height));
                assert(book_view(self.bettings@) =~= m.book.remove(height));
                settle_round(&due, p)
            },
            None => {
                let wagers = self.take_window(height);
                refund_round(&wagers, rate)
            },
        };
        let mut out = self.deliver(payouts);
        self.state.borrowed_balance = if self.state.borrowed_balance >= returned {
            self.state.borrowed_balance - returned
        } else {
            0
        };
        self.state.latest_price = price;
        self.state.latest_settled_height = height;
        if returned > 0 {
            out.push(Instruction::PayBack { amount: returned });
        }
        Ok(out)
    }
}

/// A copy of a bucket.
fn copy_bucket(v: &Vec<Betting>) -> (r: Vec<Betting>)
    ensures
        r@ == v@,
{
    let mut out: Vec<Betting> = Vec::new();
    let mut i: usize = 0;
    while i < v.len()
        invariant
            i <= v@.len(),
            out@ == v@.take(i as int),
        decreases v@.len() - i,
    {
        out.push(v[i].duplicate());
        assert(v@.take(i + 1) =~= v@.take(i as int).push(v@[i as int]));
        i = i + 1;
    }
    assert(v@.take(i as int) =~= v@);
    out
}

impl Market {
    /// Creates a market administered by `sender`, with no prices, wagers or
    /// balances, and a latest price of zero. Refuses a fee rate above one
    /// hundred percent, then a minimum stake of zero.
    pub fn instantiate(sender: String, msg: InstantiateMsg) -> (r: Result<Market, ContractError>)
        ensures
            match r {
                Ok(mk) => {
                    &&& msg.fee_late <= 100
                    &&& msg.minimum_amount > 0
                    &&& mk.wf()
                    &&& mk@.state.admin@ == seq![sender]
                    &&& mk@.state == initial_state(mk@.state.admin, msg)
                    &&& mk@.prices == Map::<u64, u128>::empty()
                    &&& mk@.book == Map::<u64, Seq<Betting>>::empty()
                    &&& mk@.balances == Map::<Seq<char>, u128>::empty()
                },
                Err(e) => {
                    &&& msg.fee_late > 100 || msg.minimum_amount == 0
                    &&& e == if msg.fee_late > 100 {
                        ContractError::InvalidFeeRate {}
                    } else {
                        ContractError::InvalidMinimumAmount {}
                    }
                },
            },
    {
        if msg.fee_late > 100 {
            return Err(ContractError::InvalidFeeRate {});
        }
        if msg.minimum_amount == 0 {
            return Err(ContractError::InvalidMinimumAmount {});
        }
        let mut admin: Vec<String> = Vec::new();
        admin.push(sender);
        let state = State {
            admin,
            fee_late: msg.fee_late,
            denom: msg.denom,
            minimum_amount: msg.minimum_amount as u128,
            bank_contract: msg.bank_contract_address,
            latest_price: 0,
            lock: false,
            pull_payout: msg.pull_payout,
            betting_deadline_height: msg.betting_deadline_height,
            latest_settled_height: 0,
            borrowed_balance: 0,
        };
        let mk = Market {
            state,
            prices: BTreeMap::new(),
            bettings: BTreeMap::new(),
            balances: BalanceLedger::new(),
        };
        assert(mk@.state.admin@ =~= seq![sender]);
        assert(mk@.book =~= Map::<u64, Seq<Betting>>::empty());
        Ok(mk)
    }

    /// Rebuilds a market from stored parts; balance entries of one
    /// participant are added up. Refuses a fee rate above one hundred percent,
    /// then a minimum stake of zero.
    pub fn restore(
        state: State,
        prices: BTreeMap<u64, u128>,
        bettings: BTreeMap<u64, Vec<Betting>>,
        balances: Vec<Payout>,
    ) -> (r: Result<Market, ContractError>)
        ensures
            match r {
                Ok(mk) => {
                    &&& state.wf()
                    &&& mk.wf()
                    &&& mk@ == MarketModel {
                        state,
                        prices: prices@,
                        book: book_view(bettings@),
                        balances: credit_all(Map::empty(), balances@),
                    }
                },
                Err(e) => {
                    &&& !state.wf()
                    &&& e == if state.fee_late > 100 {
                        ContractError::InvalidFeeRate {}
                    } else {
                        ContractError::InvalidMinimumAmount {}
                    }
                },
            },
    {
        if state.fee_late > 100 {
            return Err(ContractError::InvalidFeeRate {});
        }
        if state.minimum_amount == 0 {
            return Err(ContractError::InvalidMinimumAmount {});
        }
        let mut ledger = BalanceLedger::new();
        ledger.credit_each(balances);
        Ok(Market { state, prices, bettings, balances: ledger })
    }

    /// The configuration and counters.
    pub fn state(&self) -> (r: &State)
        ensures
            *r == self@.state,
    {
        &self.state
    }

    /// The price ledger.
    pub fn prices(&self) -> (r: &BTreeMap<u64, u128>)
        ensures
            r@ == self@.prices,
    {
        &self.prices
    }

    /// The pending-wager book.
    pub fn bettings(&self) -> (r: &BTreeMap<u64, Vec<Betting>>)
        ensures
            book_view(r@) == self@.book,
    {
        &self.bettings
    }

    /// The balance ledger's entries, one per participant with a balance.
    pub fn balance_entries(&self) -> (r: &Vec<Payout>)
        requires
            self.wf(),
        ensures
            unique_recipients(r@),
            entries_map(r@) == self@.balances,
    {
        self.balances.entries()
    }

    /// Sets the fee rate; see `fee_rate_result`.
    pub fn set_fee_late(&mut self, sender: &String, fee_late: u8) -> (r: Result<
        Vec<Instruction>,
        ContractError,
    >)
        requires
            old(self).wf(),
        ensures
            final(self).wf(),
            outcome(r, final(self)@, old(self)@, fee_rate_result(old(self)@, sender@, fee_late)),
    {
        match check_admin(sender.as_str(), &self.state) {
            Ok(()) => {},
            Err(e) => {
                return Err(e);
            },
        }
        if fee_late > 100 {
            return Err(ContractError::InvalidFeeRate {});
        }
        self.state.fee_late = fee_late;
        Ok(Vec::new())
    }

    /// Sets the minimum stake; see `minimum_result`.
    pub fn set_minimum_amount(&mut self, sender: &String, amount: u64) -> (r: Result<
        Vec<Instruction>,
        ContractError,
    >)
        requires
            old(self).wf(),
        ensures
            final(self).wf(),
            outcome(r, final(self)@, old(self)@, minimum_result(old(self)@, sender@, amount)),
    {
        match check_admin(sender.as_str(), &self.state) {
            Ok(()) => {},
            Err(e) => {
                return Err(e);
            },
        }
        if amount == 0 {
            return Err(ContractError::InvalidMinimumAmount {});
        }
        self.state.minimum_amount = amount as u128;
        Ok(Vec::new())
    }

    /// Sets the funding pool, an address already validated; see
    /// `bank_contract_result`.
    pub fn set_bank_contract(&mut self, sender: &String, address: String) -> (r: Result<
        Vec<Instruction>,
        ContractError,
    >)
        requires
            old(self).wf(),
        ensures
            final(self).wf(),
            outcome(
                r,
                final(self)@,
                old(self)@,
                bank_contract_result(old(self)@, sender@, address),
            ),
    {
        match check_admin(sender.as_str(), &self.state) {
            Ok(()) => {},
            Err(e) => {
                return Err(e);
            },
        }
        self.state.bank_contract = address;
        Ok(Vec::new())
    }

    /// Adds an administrator, an address already validated; see
    /// `admin_added`.
    pub fn add_admin(&mut self, sender: &String, address: String) -> (r: Result<
        Vec<Instruction>,
        ContractError,
    >)
        requires
            old(self).wf(),
        ensures
            final(self).wf(),
            admin_added(r, final(self)@, old(self)@, sender@, address),
    {
        match check_admin(sender.as_str(), &self.state) {
            Ok(()) => {},
            Err(e) => {
                return Err(e);
            },
        }
        self.state.admin.push(address);
        Ok(Vec::new())
    }

    /// Withdraws the caller's claimable balance; see `claim_result`.
    pub fn claim_balance(&mut self, sender: &String) -> (r: Result<Vec<Instruction>, ContractError>)
        requires
            old(self).wf(),
        ensures
            final(self).wf(),
            outcome(r, final(self)@, old(self)@, claim_result(old(self)@, *sender)),
    {
        let amount = self.balances.claim(sender.as_str());
        let mut out: Vec<Instruction> = Vec::new();
        out.push(Instruction::Transfer { recipient: sender.clone(), amount });
        assert(out@ =~= seq![Instruction::Transfer { recipient: *sender, amount }]);
        Ok(out)
    }

    /// Carries out one action of `sender` at block `height`, with the coins
    /// `funds` attached.
    pub fn execute(
        &mut self,
        sender: &String,
        funds: &Vec<Coin>,
        height: u64,
        msg: ExecuteMsg,
    ) -> (r: Result<Vec<Instruction>, ContractError>)
        requires
            old(self).wf(),
        ensures
            final(self).wf(),
            match msg {
                ExecuteMsg::Betting { position, duration } => outcome(
                    r,
                    final(self)@,
                    old(self)@,
                    place_result(old(self)@, *sender, funds@, position@, duration, height),
                ),
                ExecuteMsg::Setting { price, lock } => outcome(
                    r,
                    final(self)@,
                    old(self)@,
                    publish_result(old(self)@, sender@, height, price, lock),
                ),
                ExecuteMsg::SetFeeLate { fee_late } => outcome(
                    r,
                    final(self)@,
                    old(self)@,
                    fee_rate_result(old(self)@, sender@, fee_late),
                ),
                ExecuteMsg::SetMinimumAmount { amount } => outcome(
                    r,
                    final(self)@,
                    old(self)@,
                    minimum_result(old(self)@, sender@, amount),
                ),
                ExecuteMsg::SetBankContract { address } => outcome(
                    r,
                    final(self)@,
                    old(self)@,
                    bank_contract_result(old(self)@, sender@, address),
                ),
                ExecuteMsg::AddAdmin { address } => admin_added(
                    r,
                    final(self)@,
                    old(self)@,
                    sender@,
                    address,
                ),
                ExecuteMsg::ClaimBalance {  } => outcome(
                    r,
                    final(self)@,
                    old(self)@,
                    claim_result(old(self)@, *sender),
                ),
            },
    {
        match msg {
            ExecuteMsg::Betting { position, duration } => self.betting(
                sender,
                funds,
                position.as_str(),
                duration,
                height,
            ),
            ExecuteMsg::Setting { price, lock } => self.setting(sender, height, price, lock),
            ExecuteMsg::SetFeeLate { fee_late } => self.set_fee_late(sender, fee_late),
            ExecuteMsg::SetMinimumAmount { amount } => self.set_minimum_amount(sender, amount),
            ExecuteMsg::SetBankContract { address } => self.set_bank_contract(sender, address),
            ExecuteMsg::AddAdmin { address } => self.add_admin(sender, address),
            ExecuteMsg::ClaimBalance {  } => self.claim_balance(sender),
        }
    }

    /// The configuration and counters.
    pub fn query_state(&self) -> (r: &State)
        ensures
            *r == self@.state,
    {
        &self.state
    }

    /// The claimable balance of `address`, zero where it has none.
    pub fn query_get_account_balance(&self, address: &str) -> (r: u128)
        requires
            self.wf(),
        ensures
            r == balance_in(self@.balances, address@),
    {
        self.balances.balance_of(address)
    }

    /// The price published for round `height`, if any.
    pub fn query_get_round_price(&self, height: u64) -> (r: Option<u128>)
        ensures
            r == if self@.prices.contains_key(height) {
                Some(self@.prices[height])
            } else {
                None::<u128>
            },
    {
        match self.prices.get(&height) {
            Some(p) => Some(*p),
            None => None,
        }
    }

    /// The most recently published price.
    pub fn query_get_latest_price(&self) -> (r: u128)
        ensures
            r == self@.state.latest_price,
    {
        self.state.latest_price
    }

    /// The wagers waiting for round `target_height`, in submission order.
    pub fn query_get_height_betting_list(&self, target_height: u64) -> (r: Vec<Betting>)
        ensures
            r@ == bucket(self@.book, target_height),
    {
        match self.bettings.get(&target_height) {
            Some(v) => copy_bucket(v),
            None => Vec::new(),
        }
    }

    /// The wagers waiting for round `target_height` and the `LOOKBACK`
    /// rounds before it, nearest first. Changes nothing.
    pub fn query_get_recent_betting_list(&self, target_height: u64) -> (r: Vec<Betting>)
        ensures
            r@ == recent_wagers(self@.book, target_height, (LOOKBACK + 1) as nat),
    {
        let mut out: Vec<Betting> = Vec::new();
        let mut i: u64 = 0;
        while i <= LOOKBACK
            invariant
                i <= LOOKBACK + 1,
                out@ == recent_wagers(book_view(self.bettings@), target_height, i as nat),
            decreases LOOKBACK + 1 - i,
        {
            let ghost o0 = out@;
            if i <= target_height {
                let key = target_height - i;
                match self.bettings.get(&key) {
                    Some(v) => {
                        let mut c = copy_bucket(v);
                        out.append(&mut c);
                    },
                    None => {
                        assert(out@ =~= o0 + Seq::<Betting>::empty());
                    },
                }
            } else {
                assert(out@ =~= o0 + Seq::<Betting>::empty());
            }
            i = i + 1;
        }
        out
    }

    /// Whether the market is locked against new wagers.
    pub fn query_state_lock(&self) -> (r: bool)
        ensures
            r == self@.state.lock,
    {
        self.state.lock
    }
}

} // verus!

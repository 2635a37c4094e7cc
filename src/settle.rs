use vstd::prelude::*;

use crate::fee::{capped, refund_amount, refund_of};
use crate::state::{Betting, Position};

verus! {

/// An amount owed to a participant.
#[derive(Clone, Debug, PartialEq, Eq)]
pub struct Payout {
    pub recipient: String,
    pub amount: u128,
}

impl Payout {
    /// A field-by-field copy.
    pub fn duplicate(&self) -> (r: Self)
        ensures
            r == *self,
    {
        Payout { recipient: self.recipient.clone(), amount: self.amount }
    }
}

/// The position that wins when a wager struck at `base_price` meets the
/// round price.
pub open spec fn winning_position(base_price: u128, round_price: u128) -> Position {
    if base_price < round_price {
        Position::Long
    } else if base_price == round_price {
        Position::Equal
    } else {
        Position::Short
    }
}

/// Whether the wager wins against the round price.
pub open spec fn wins(b: Betting, round_price: u128) -> bool {
    ||| (b.base_price < round_price && b.position == Position::Long)
    ||| (b.base_price > round_price && b.position == Position::Short)
    ||| (b.base_price == round_price && b.position == Position::Equal)
}

/// The payouts of a settled bucket: each winner's win amount, in order.
pub open spec fn winner_payouts(bs: Seq<Betting>, round_price: u128) -> Seq<Payout>
    decreases bs.len(),
{
    if bs.len() == 0 {
        Seq::empty()
    } else {
        let rest = winner_payouts(bs.drop_last(), round_price);
        let b = bs.last();
        if wins(b, round_price) {
            rest.push(Payout { recipient: b.address, amount: b.win_amount })
        } else {
            rest
        }
    }
}

/// The win amounts of the losers of a settled bucket, added up: capital that
/// goes back to the funding pool.
pub open spec fn losing_total(bs: Seq<Betting>, round_price: u128) -> int
    decreases bs.len(),
{
    if bs.len() == 0 {
        0
    } else {
        let b = bs.last();
        losing_total(bs.drop_last(), round_price) + if wins(b, round_price) {
            0
        } else {
            b.win_amount as int
        }
    }
}

/// The refunds of voided wagers: each participant's reconstructed principal.
pub open spec fn refund_payouts(bs: Seq<Betting>, rate: u8) -> Seq<Payout>
    decreases bs.len(),
{
    if bs.len() == 0 {
        Seq::empty()
    } else {
        let b = bs.last();
        refund_payouts(bs.drop_last(), rate).push(
            Payout { recipient: b.address, amount: refund_of(b.amount as int, rate as int) as u128 },
        )
    }
}

/// The fee portions of the refunds of voided wagers, added up: what goes
/// back to the funding pool.
pub open spec fn refunded_fees(bs: Seq<Betting>, rate: u8) -> int
    decreases bs.len(),
{
    if bs.len() == 0 {
        0
    } else {
        let b = bs.last();
        refunded_fees(bs.drop_last(), rate) + (refund_of(b.amount as int, rate as int)
            - b.amount)
    }
}

/// `a + b`, or the largest amount if that would not fit.
fn add_capped(a: u128, b: u128) -> (r: u128)
    ensures
        r == capped(a + b),
{
    if a > u128::MAX - b {
        u128::MAX
    } else {
        a + b
    }
}

/// Settles one bucket against its round price: the winners' payouts in
/// bucket order, and the losers' win amounts added up (capped).
pub fn settle_round(bettings: &Vec<Betting>, round_price: u128) -> (r: (Vec<Payout>, u128))
    ensures
        r.0@ == winner_payouts(bettings@, round_price),
        r.1 == capped(losing_total(bettings@, round_price)),
{
    let mut payouts: Vec<Payout> = Vec::new();
    let mut returned: u128 = 0;
    let mut i: usize = 0;
    while i < bettings.len()
        invariant
            i <= bettings@.len(),
            payouts@ == winner_payouts(bettings@.take(i as int), round_price),
            returned == capped(losing_total(bettings@.take(i as int), round_price)),
            losing_total(bettings@.take(i as int), round_price) >= 0,
        decreases bettings@.len() - i,
    {
        let b = &bettings[i];
        assert(bettings@.take(i + 1).drop_last() =~= bettings@.take(i as int));
        assert(bettings@.take(i + 1).last() == *b);
        let win_position = if b.base_price < round_price {
            Position::Long
        } else if b.base_price == round_price {
            Position::Equal
        } else {
            Position::Short
        };
        if win_position == b.position {
            payouts.push(Payout { recipient: b.address.clone(), amount: b.win_amount });
        } else {
            returned = add_capped(returned, b.win_amount);
        }
        i = i + 1;
    }
    assert(bettings@.take(i as int) =~= bettings@);
    (payouts, returned)
}

/// Voids a list of wagers: each participant's refund in list order, and the
/// fee portions of the refunds added up (capped).
pub fn refund_round(bettings: &Vec<Betting>, fee_rate: u8) -> (r: (Vec<Payout>, u128))
    ensures
        r.0@ == refund_payouts(bettings@, fee_rate),
        r.1 == capped(refunded_fees(bettings@, fee_rate)),
{
    let mut payouts: Vec<Payout> = Vec::new();
    let mut returned: u128 = 0;
    let mut i: usize = 0;
    while i < bettings.len()
        invariant
            i <= bettings@.len(),
            payouts@ == refund_payouts(bettings@.take(i as int), fee_rate),
            returned == capped(refunded_fees(bettings@.take(i as int), fee_rate)),
            refunded_fees(bettings@.take(i as int), fee_rate) >= 0,
        decreases bettings@.len() - i,
    {
        let b = &bettings[i];
        assert(bettings@.take(i + 1).drop_last() =~= bettings@.take(i as int));
        assert(bettings@.take(i + 1).last() == *b);
        let refund = refund_amount(b.amount, fee_rate);
        payouts.push(Payout { recipient: b.address.clone(), amount: refund });
        returned = add_capped(returned, refund - b.amount);
        i = i + 1;
    }
    assert(bettings@.take(i as int) =~= bettings@);
    (payouts, returned)
}

/// The amounts of a list of payouts, added up.
pub open spec fn payout_total(ps: Seq<Payout>) -> int
    decreases ps.len(),
{
    if ps.len() == 0 {
        0
    } else {
        payout_total(ps.drop_last()) + ps.last().amount
    }
}

/// The win amounts of a list of wagers, added up.
pub open spec fn win_total(bs: Seq<Betting>) -> int
    decreases bs.len(),
{
    if bs.len() == 0 {
        0
    } else {
        win_total(bs.drop_last()) + bs.last().win_amount
    }
}

} // verus!

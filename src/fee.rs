use vstd::prelude::*;

verus! {

/// The fee taken from a stake of `amount` at `rate` percent, rounded down.
pub open spec fn fee_of(amount: int, rate: int) -> int {
    amount * rate / 100
}

/// What is left of a stake once the fee is taken.
pub open spec fn stake_after_fee(amount: int, rate: int) -> int {
    amount - fee_of(amount, rate)
}

/// `x`, or the largest amount an account can hold if `x` is larger.
pub open spec fn capped(x: int) -> int {
    if x > u128::MAX {
        u128::MAX as int
    } else {
        x
    }
}

/// What a winning wager pays: twice its stake after fee, capped.
pub open spec fn win_amount_of(stake: int) -> int {
    capped(2 * stake)
}

/// The principal of a voided wager, reconstructed from its stake after fee
/// at the fee rate in force; at a rate of one hundred percent nothing can be
/// reconstructed and the stake itself is returned.
pub open spec fn refund_of(stake: int, rate: int) -> int {
    if rate < 100 {
        capped(stake * 100 / (100 - rate))
    } else {
        stake
    }
}

/// The fee on a stake: `amount * rate / 100` rounded down, computed without
/// overflow for every amount.
pub fn compute_fee(amount: u128, rate: u8) -> (fee: u128)
    requires
        rate <= 100,
    ensures
        fee == fee_of(amount as int, rate as int),
        fee <= amount,
{
    let q = amount / 100;
    let m = amount % 100;
    let r = rate as u128;
    proof {
        let qi = q as int;
        let mi = m as int;
        let ri = r as int;
        assert(amount as int == 100 * qi + mi);
        assert(qi * ri <= qi * 100) by (nonlinear_arith)
            requires
                ri <= 100,
                qi >= 0,
        ;
        assert(mi * ri <= mi * 100) by (nonlinear_arith)
            requires
                ri <= 100,
                mi >= 0,
        ;
        assert((amount as int) * ri == 100 * (qi * ri) + mi * ri) by (nonlinear_arith)
            requires
                amount as int == 100 * qi + mi,
        ;
        assert((100 * (qi * ri) + mi * ri) / 100 == qi * ri + (mi * ri) / 100) by (nonlinear_arith)
            requires
                qi * ri >= 0,
                mi * ri >= 0,
        ;
        assert((mi * ri) / 100 <= mi) by (nonlinear_arith)
            requires
                mi * ri <= mi * 100,
                mi >= 0,
        ;
    }
    q * r + m * r / 100
}

/// Twice the stake, or the largest amount if that would not fit.
pub fn win_amount(stake: u128) -> (w: u128)
    ensures
        w == win_amount_of(stake as int),
{
    if stake > u128::MAX / 2 {
        u128::MAX
    } else {
        stake * 2
    }
}

/// The refund of a voided wager, see `refund_of`.
pub fn refund_amount(stake: u128, rate: u8) -> (r: u128)
    ensures
        r == refund_of(stake as int, rate as int),
        r >= stake,
{
    if rate >= 100 {
        return stake;
    }
    let d = 100 - rate as u128;
    let a = stake / d;
    let rem = stake % d;
    let b = rem * 100 / d;
    proof {
        let s = stake as int;
        let di = d as int;
        let ai = a as int;
        let ri = rem as int;
        assert(s == di * ai + ri) by {
            vstd::arithmetic::div_mod::lemma_fundamental_div_mod(s, di);
        }
        assert(s * 100 == di * (100 * ai) + ri * 100) by (nonlinear_arith)
            requires
                s == di * ai + ri,
        ;
        assert((di * (100 * ai) + ri * 100) / di == 100 * ai + (ri * 100) / di) by (nonlinear_arith)
            requires
                di > 0,
                ai >= 0,
                ri >= 0,
        ;
        assert(s * 100 / di >= s) by (nonlinear_arith)
            requires
                1 <= di <= 100,
                s >= 0,
        ;
    }
    if a > (u128::MAX - b) / 100 {
        proof {
            assert((a as int) * 100 + b as int > u128::MAX) by (nonlinear_arith)
                requires
                    a as int > (u128::MAX - b as int) / 100,
                    b <= u128::MAX,
            ;
        }
        u128::MAX
    } else {
        proof {
            assert((a as int) * 100 + b as int <= u128::MAX) by (nonlinear_arith)
                requires
                    a as int <= (u128::MAX - b as int) / 100,
                    b <= u128::MAX,
            ;
        }
        a * 100 + b
    }
}

} // verus!

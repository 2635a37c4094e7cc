use vstd::prelude::*;

use crate::error::ContractError;

verus! {

/// The direction of a wager.
#[derive(Clone, Copy, Debug, PartialEq, Eq, Structural)]
pub enum Position {
    /// The price will rise.
    Long,
    /// The price will fall.
    Short,
    /// The price will stay the same.
    Equal,
}

/// The position that a tag names, if any.
pub open spec fn position_of(tag: Seq<char>) -> Option<Position> {
    if tag == seq!['l', 'o', 'n', 'g'] {
        Some(Position::Long)
    } else if tag == seq!['s', 'h', 'o', 'r', 't'] {
        Some(Position::Short)
    } else if tag == seq!['e', 'q', 'u', 'a', 'l'] {
        Some(Position::Equal)
    } else {
        None
    }
}

/// Whether two strings hold the same characters.
pub(crate) fn same_text(a: &str, b: &str) -> (r: bool)
    ensures
        r == (a@ == b@),
{
    let n = a.unicode_len();
    if n != b.unicode_len() {
        return false;
    }
    let mut i: usize = 0;
    while i < n
        invariant
            n == a@.len(),
            n == b@.len(),
            i <= n,
            a@.take(i as int) == b@.take(i as int),
        decreases n - i,
    {
        if a.get_char(i) != b.get_char(i) {
            assert(a@[i as int] != b@[i as int]);
            return false;
        }
        assert(a@.take(i + 1) =~= a@.take(i as int).push(a@[i as int]));
        assert(b@.take(i + 1) =~= b@.take(i as int).push(b@[i as int]));
        i = i + 1;
    }
    assert(a@ =~= a@.take(n as int));
    assert(b@ =~= b@.take(n as int));
    true
}

impl Position {
    /// Reads a position tag: `long`, `short` or `equal`.
    pub fn new(position: &str) -> (r: Result<Self, ContractError>)
        ensures
            r == match position_of(position@) {
                Some(p) => Ok::<Position, ContractError>(p),
                None => Err(ContractError::InvalidPosition {}),
            },
    {
        proof {
            reveal_strlit("long");
            reveal_strlit("short");
            reveal_strlit("equal");
        }
        assert("long"@ =~= seq!['l', 'o', 'n', 'g']);
        assert("short"@ =~= seq!['s', 'h', 'o', 'r', 't']);
        assert("equal"@ =~= seq!['e', 'q', 'u', 'a', 'l']);
        if same_text(position, "long") {
            Ok(Position::Long)
        } else if same_text(position, "short") {
            Ok(Position::Short)
        } else if same_text(position, "equal") {
            Ok(Position::Equal)
        } else {
            Err(ContractError::InvalidPosition {})
        }
    }
}

/// A wager waiting in the book for its target round.
#[derive(Clone, Debug, PartialEq, Eq)]
pub struct Betting {
    /// Who placed the wager, and who is paid.
    pub address: String,
    /// The height at which the wager was placed.
    pub start_height: u64,
    /// The round at which the wager settles.
    pub target_height: u64,
    /// The direction wagered on.
    pub position: Position,
    /// The reference price at placement, the wager's strike.
    pub base_price: u128,
    /// The stake after the fee was taken.
    pub amount: u128,
    /// What a win pays: the stake after fee and the matched borrowed share.
    pub win_amount: u128,
}

impl Betting {
    /// Builds a wager from its parts.
    pub fn new(
        address: String,
        position: Position,
        amount: u128,
        win_amount: u128,
        base_price: u128,
        start_height: u64,
        target_height: u64,
    ) -> (r: Self)
        ensures
            r == (Betting {
                address,
                start_height,
                target_height,
                position,
                base_price,
                amount,
                win_amount,
            }),
    {
        Betting { address, position, amount, base_price, start_height, target_height, win_amount }
    }

    /// A field-by-field copy of the wager.
    pub fn duplicate(&self) -> (r: Self)
        ensures
            r == *self,
    {
        Betting {
            address: self.address.clone(),
            start_height: self.start_height,
            target_height: self.target_height,
            position: self.position,
            base_price: self.base_price,
            amount: self.amount,
            win_amount: self.win_amount,
        }
    }
}

/// A coin attached to a call: a denomination and an amount.
#[derive(Clone, Debug, PartialEq, Eq)]
pub struct Coin {
    pub denom: String,
    pub amount: u128,
}

/// The market's configuration and counters.
#[derive(Clone, Debug, PartialEq, Eq)]
pub struct State {
    /// The identities allowed to administer the market; never shrinks.
    pub admin: Vec<String>,
    /// The fee, in percent of each stake.
    pub fee_late: u8,
    /// The only denomination that wagers may be placed in.
    pub denom: String,
    /// The smallest stake accepted; positive.
    pub minimum_amount: u128,
    /// The funding pool that lends the matched share and takes fees.
    pub bank_contract: String,
    /// The most recently published price.
    pub latest_price: u128,
    /// When set, no wager is accepted.
    pub lock: bool,
    /// When set, winnings are credited to the balance ledger instead of sent.
    pub pull_payout: bool,
    /// The latest round at which a wager may mature, if bounded.
    pub betting_deadline_height: Option<u64>,
    /// The height of the latest price publication.
    pub latest_settled_height: u64,
    /// What the market owes the funding pool, as far as it keeps count.
    pub borrowed_balance: u128,
}

impl State {
    /// The fee rate is a percentage and the minimum stake is positive.
    pub open spec fn wf(&self) -> bool {
        self.fee_late <= 100 && self.minimum_amount > 0
    }
}

/// Whether `who` is among the administrators of `state`.
pub open spec fn is_admin(state: State, who: Seq<char>) -> bool {
    exists|i: int| 0 <= i < state.admin@.len() && (#[trigger] state.admin@[i])@ == who
}

} // verus!

use vstd::prelude::*;

verus! {

/// The parameters a market is created with.
#[derive(Clone, Debug, PartialEq, Eq)]
pub struct InstantiateMsg {
    pub denom: String,
    /// The fee, in percent; at most one hundred.
    pub fee_late: u8,
    /// The smallest stake accepted; positive.
    pub minimum_amount: u64,
    /// The funding pool, already validated as an address.
    pub bank_contract_address: String,
    /// The latest round at which a wager may mature, if bounded.
    pub betting_deadline_height: Option<u64>,
    /// Credit winnings to the balance ledger instead of sending them.
    pub pull_payout: bool,
}

/// The state-changing actions.
#[derive(Clone, Debug, PartialEq, Eq)]
pub enum ExecuteMsg {
    /// Place a wager with the attached coin.
    Betting { position: String, duration: u64 },
    /// Publish the price of the next round and settle the round that matured.
    Setting { price: u128, lock: Option<bool> },
    SetFeeLate { fee_late: u8 },
    SetMinimumAmount { amount: u64 },
    SetBankContract { address: String },
    AddAdmin { address: String },
    /// Withdraw the caller's claimable balance.
    ClaimBalance {},
}

/// The read-only queries.
#[derive(Clone, Debug, PartialEq, Eq)]
pub enum QueryMsg {
    GetState {},
    GetBalance { address: String },
    GetRoundPrice { height: u64 },
    GetLatestPrice {},
    GetHeightBettingList { target_height: u64 },
    GetisLock {},
    GetRecentBettingList { target_height: u64 },
}

/// An instruction that the host commits together with the state change that
/// produced it.
#[derive(Clone, Debug, PartialEq, Eq)]
pub enum Instruction {
    /// Borrow the matched share of a wager from the funding pool.
    Borrow { amount: u128 },
    /// Forward a collected fee to the funding pool.
    ProvideFee { amount: u128 },
    /// Return released capital to the funding pool.
    PayBack { amount: u128 },
    /// Send coins to a participant.
    Transfer { recipient: String, amount: u128 },
}

} // verus!

//! Round-based binary-option settlement engine.
//!
//! Participants wager that a reference price will be higher, lower or
//! unchanged at a future round; an administrator publishes the price of each
//! round, and the engine settles every wager that matures then, or voids and
//! refunds the wagers of rounds whose price was never published. All
//! bookkeeping is kept in a [`contract::Market`] value, and every action
//! returns the outbound instructions that the host commits with it.

pub mod contract;
pub mod error;
pub mod fee;
pub mod helper;
pub mod laws;
pub mod ledger;
pub mod msg;
pub mod settle;
pub mod state;

pub use contract::{Market, MarketModel, LOOKBACK};
pub use error::ContractError;
pub use helper::{check_admin, check_denom, check_duration, check_lock};
pub use msg::{ExecuteMsg, InstantiateMsg, Instruction, QueryMsg};
pub use settle::{refund_round, settle_round, Payout};
pub use state::{Betting, Coin, Position, State};

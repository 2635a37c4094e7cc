use vstd::prelude::*;

verus! {

/// Why an operation was refused. A refused operation changes nothing.
#[derive(Clone, Copy, Debug, PartialEq, Eq, Structural)]
pub enum ContractError {
    /// No coin was attached to a wager.
    MustSendCoin {},
    /// More than one coin was attached to a wager.
    InvalidOneTypeCoin {},
    /// The caller is not an administrator.
    OnlyOwner {},
    /// The position tag is not one of `long`, `short`, `equal`.
    InvalidPosition {},
    /// The attached coin is not of the configured denomination.
    InvalidDenom {},
    /// The attached amount is below the configured minimum stake.
    InvalidMinimumAmount {},
    /// The wager duration is not an allowed one.
    InvalidDuration {},
    /// A height does not fit the height counter.
    InvalidHeight {},
    /// A fee rate above one hundred percent.
    InvalidFeeRate {},
    /// The wager would mature after the configured deadline height.
    OverDeadline {},
    /// The market is locked against new wagers.
    Lock {},
}

} // verus!

use vstd::prelude::*;

use crate::error::ContractError;
use crate::state::{is_admin, same_text, Coin, State};

verus! {

/// The wager durations, in rounds, that the market accepts.
pub open spec fn duration_allowed(duration: u64) -> bool {
    duration == 30 || duration == 50
}

/// What the checks of attached funds decide, in the order they are made.
pub open spec fn denom_check(funds: Seq<Coin>, state: State) -> Result<(), ContractError> {
    if funds.len() == 0 {
        Err(ContractError::MustSendCoin {})
    } else if funds.len() > 1 {
        Err(ContractError::InvalidOneTypeCoin {})
    } else if funds[0].denom@ != state.denom@ {
        Err(ContractError::InvalidDenom {})
    } else if funds[0].amount < state.minimum_amount {
        Err(ContractError::InvalidMinimumAmount {})
    } else {
        Ok(())
    }
}

/// Succeeds exactly when `sender` is an administrator.
pub fn check_admin(sender: &str, state: &State) -> (r: Result<(), ContractError>)
    ensures
        r is Ok <==> is_admin(*state, sender@),
        r is Err ==> r == Err::<(), ContractError>(ContractError::OnlyOwner {}),
{
    let mut i: usize = 0;
    while i < state.admin.len()
        invariant
            i <= state.admin@.len(),
            forall|j: int| 0 <= j < i ==> (#[trigger] state.admin@[j])@ != sender@,
        decreases state.admin@.len() - i,
    {
        if same_text(state.admin[i].as_str(), sender) {
            return Ok(());
        }
        i = i + 1;
    }
    Err(ContractError::OnlyOwner {})
}

/// Fails exactly when the market is locked.
pub fn check_lock(state: &State) -> (r: Result<(), ContractError>)
    ensures
        r == if state.lock {
            Err(ContractError::Lock {})
        } else {
            Ok::<(), ContractError>(())
        },
{
    if state.lock {
        Err(ContractError::Lock {})
    } else {
        Ok(())
    }
}

/// Checks that exactly one coin of the market's denomination, and at least
/// the minimum stake, was attached.
pub fn check_denom(funds: &Vec<Coin>, state: &State) -> (r: Result<(), ContractError>)
    ensures
        r == denom_check(funds@, *state),
{
    if funds.len() == 0 {
        return Err(ContractError::MustSendCoin {});
    }
    if funds.len() > 1 {
        return Err(ContractError::InvalidOneTypeCoin {});
    }
    let coin = &funds[0];
    if !(coin.denom == state.denom) {
        return Err(ContractError::InvalidDenom {});
    }
    if coin.amount < state.minimum_amount {
        return Err(ContractError::InvalidMinimumAmount {});
    }
    Ok(())
}

/// Accepts the allowed wager durations and refuses every other.
pub fn check_duration(duration: u64) -> (r: Result<(), ContractError>)
    ensures
        r == if duration_allowed(duration) {
            Ok::<(), ContractError>(())
        } else {
            Err(ContractError::InvalidDuration {})
        },
{
    match duration {
        30 | 50 => Ok(()),
        _ => Err(ContractError::InvalidDuration {}),
    }
}

} // verus!

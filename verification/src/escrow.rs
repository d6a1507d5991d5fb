//! The reward escrow: the balance arithmetic of the token collaborator.
//!
//! The handlers only emit [`TokenTransfer`](crate::processor::TokenTransfer)
//! effects; the host's token service performs them. This module states what
//! performing one does to the two balances involved, so that end-to-end
//! consequences (a reward received, a pledged pool returned) can be checked
//! against it.

use vstd::prelude::*;
use crate::processor::TokenTransfer;
use crate::error::{BountyBoardError, ProgError};

verus! {

/// Applies a transfer to the balances of its source and destination token
/// accounts. Fails with `InsufficientFunds` when the source balance cannot
/// cover the amount; a failed transfer moves nothing. The two balances
/// together are conserved.
pub fn apply_transfer(t: &TokenTransfer, source_balance: u64, destination_balance: u64) -> (r:
    Result<(u64, u64), ProgError>)
    requires
        destination_balance + t@.amount <= u64::MAX,
    ensures
        r is Ok <==> t@.amount <= source_balance,
        t@.amount > source_balance ==> r == Err::<(u64, u64), ProgError>(
            ProgError::Custom(BountyBoardError::InsufficientFunds),
        ),
        r matches Ok(p) ==> p.0 == source_balance - t@.amount && p.1 == destination_balance
            + t@.amount,
        r matches Ok(p) ==> p.0 + p.1 == source_balance + destination_balance,
{
    if t.amount > source_balance {
        return Err(ProgError::Custom(BountyBoardError::InsufficientFunds));
    }
    Ok((source_balance - t.amount, destination_balance + t.amount))
}

} // verus!

//! The accounts that each instruction of the escrow works on, and what the
//! instruction does with them.

use crate::account::Holding;
use crate::address::Address;
use crate::error::EscrowError;
use crate::table::Key;
use vstd::prelude::*;

pub mod cancel;
pub mod exchange;
pub mod initialize;

verus! {

/// Why `account` cannot stand for the custodial account of `owner` for the
/// asset `mint`, if it cannot.
pub open spec fn holding_refusal(account: Holding, owner: Address, mint: Address) -> Option<
    EscrowError,
> {
    if account.mint != mint {
        Some(EscrowError::MintMismatch)
    } else if account.owner != owner {
        Some(EscrowError::OwnerMismatch)
    } else {
        None
    }
}

/// The first of two refusals.
pub open spec fn either(first: Option<EscrowError>, second: Option<EscrowError>) -> Option<
    EscrowError,
> {
    if first is Some {
        first
    } else {
        second
    }
}

/// Checks that `account` is the custodial account of `owner` for the asset
/// `mint`.
pub fn check_holding(account: &Holding, owner: &Address, mint: &Address) -> (r: Result<
    (),
    EscrowError,
>)
    ensures
        match r {
            Ok(()) => holding_refusal(*account, *owner, *mint) is None,
            Err(e) => holding_refusal(*account, *owner, *mint) == Some(e),
        },
{
    if !account.mint.same(mint) {
        Err(EscrowError::MintMismatch)
    } else if !account.owner.same(owner) {
        Err(EscrowError::OwnerMismatch)
    } else {
        Ok(())
    }
}

} // verus!

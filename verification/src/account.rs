//! What the ledger holds: custodial accounts and stored records.

use crate::address::Address;
use crate::states::Escrow;
use crate::table::Key;
use vstd::prelude::*;

verus! {

/// The identity of a custodial account: the authority that controls it and
/// the asset it holds. The ledger keeps at most one account for each pair.
#[derive(Clone, Copy, Debug, PartialEq, Eq, Hash)]
pub struct Holding {
    /// The authority that may move the account's assets.
    pub owner: Address,
    /// The asset that the account holds.
    pub mint: Address,
}

impl Holding {
    /// The account of `owner` for the asset `mint`.
    pub fn new(owner: Address, mint: Address) -> (h: Holding)
        ensures
            h == (Holding { owner, mint }),
    {
        Holding { owner, mint }
    }
}

impl Key for Holding {
    fn same(&self, other: &Holding) -> (r: bool) {
        self.owner.same(&other.owner) && self.mint.same(&other.mint)
    }
}

/// The contents of a custodial account.
#[derive(Clone, Copy, Debug, PartialEq, Eq)]
pub struct TokenState {
    /// Units of the asset held.
    pub amount: u64,
    /// The storage allowance paid in when the account was created, paid out
    /// again when it is closed.
    pub allowance: u64,
}

/// A stored escrow record.
#[derive(Clone, Copy, Debug, PartialEq, Eq)]
pub struct RecordState {
    /// The terms of the offer.
    pub data: Escrow,
    /// The storage allowance paid in when the record was allocated.
    pub allowance: u64,
}

} // verus!

//! The escrow record: the terms of one swap offer.

use crate::address::Address;
use vstd::prelude::*;

verus! {

/// The terms of one offer. A record is written once, when the offer is made,
/// and never changed until it is destroyed.
#[derive(Clone, Copy, Debug, PartialEq, Eq)]
pub struct Escrow {
    /// The number, chosen by the initializer, from which the record's
    /// address is derived.
    pub seed: u64,
    /// The bump seed that was found together with the record's address.
    pub bump: u8,
    /// The initializer: the owner of the offer.
    pub initializer: Address,
    /// The asset that is locked in the vault.
    pub mint_a: Address,
    /// The asset that the initializer asks for.
    pub mint_b: Address,
    /// How much of asset A is locked in the vault.
    pub initializer_amount: u64,
    /// How much of asset B the taker has to deliver.
    pub taker_amount: u64,
}

} // verus!

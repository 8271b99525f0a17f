//! Why a call was refused.

use vstd::prelude::*;

verus! {

/// The four kinds of failure.
#[derive(Clone, Copy, Debug, PartialEq, Eq, Structural)]
pub enum ErrorKind {
    /// The caller may not do what it asked for.
    Authorization,
    /// A balance is too small, or would grow too large.
    Balance,
    /// An asset differs from the one stated.
    Type,
    /// What the call refers to is not in the state it needs.
    State,
}

/// The reason a call was refused. A refused call changes nothing.
#[derive(Clone, Copy, Debug, PartialEq, Eq, Structural)]
pub enum EscrowError {
    /// The authority presented does not control the account, or the caller
    /// is not the record's owner.
    Unauthorized,
    /// No bump seed derives an address for the seed.
    DerivationFailed,
    /// The record's address is not what its seed and bump seed derive.
    DerivationMismatch,
    /// An account named in the call belongs to another owner than the call
    /// requires.
    OwnerMismatch,
    /// The source account holds less than the amount to move.
    InsufficientFunds,
    /// The destination account's balance would exceed `u64::MAX`.
    BalanceOverflow,
    /// The payer cannot pay the storage allowance of a new account.
    InsufficientAllowance,
    /// The receiver's native balance would exceed `u64::MAX`.
    AllowanceOverflow,
    /// An account or a record is of another asset than the call states.
    MintMismatch,
    /// The scale stated for a transfer is not the asset's own.
    ScaleMismatch,
    /// The asset is not known to the ledger.
    UnknownMint,
    /// The asset is already registered.
    MintExists,
    /// No custodial account exists for that owner and asset.
    AccountNotFound,
    /// The custodial account still holds assets and cannot be closed.
    AccountNotEmpty,
    /// No record exists at that address.
    RecordNotFound,
    /// A record already exists at that address.
    RecordExists,
}

impl EscrowError {
    /// The kind of failure that each reason belongs to.
    pub open spec fn kind_spec(self) -> ErrorKind {
        match self {
            EscrowError::Unauthorized => ErrorKind::Authorization,
            EscrowError::DerivationFailed => ErrorKind::Authorization,
            EscrowError::DerivationMismatch => ErrorKind::Authorization,
            EscrowError::OwnerMismatch => ErrorKind::Authorization,
            EscrowError::InsufficientFunds => ErrorKind::Balance,
            EscrowError::BalanceOverflow => ErrorKind::Balance,
            EscrowError::InsufficientAllowance => ErrorKind::Balance,
            EscrowError::AllowanceOverflow => ErrorKind::Balance,
            EscrowError::MintMismatch => ErrorKind::Type,
            EscrowError::ScaleMismatch => ErrorKind::Type,
            EscrowError::UnknownMint => ErrorKind::Type,
            EscrowError::MintExists => ErrorKind::State,
            EscrowError::AccountNotFound => ErrorKind::State,
            EscrowError::AccountNotEmpty => ErrorKind::State,
            EscrowError::RecordNotFound => ErrorKind::State,
            EscrowError::RecordExists => ErrorKind::State,
        }
    }

    /// The kind of this failure.
    pub fn kind(&self) -> (k: ErrorKind)
        ensures
            k == self.kind_spec(),
    {
        match self {
            EscrowError::Unauthorized
            | EscrowError::DerivationFailed
            | EscrowError::DerivationMismatch
            | EscrowError::OwnerMismatch => ErrorKind::Authorization,
            EscrowError::InsufficientFunds
            | EscrowError::BalanceOverflow
            | EscrowError::InsufficientAllowance
            | EscrowError::AllowanceOverflow => ErrorKind::Balance,
            EscrowError::MintMismatch | EscrowError::ScaleMismatch | EscrowError::UnknownMint => {
                ErrorKind::Type
            },
            EscrowError::MintExists
            | EscrowError::AccountNotFound
            | EscrowError::AccountNotEmpty
            | EscrowError::RecordNotFound
            | EscrowError::RecordExists => ErrorKind::State,
        }
    }
}

} // verus!

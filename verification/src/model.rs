//! The ledger as a mathematical value, and what each instruction does to it.

use crate::account::{Holding, RecordState, TokenState};
use crate::address::Address;
use crate::derivation::derived_address;
use crate::error::EscrowError;
use crate::instruction::{AuthorityView, CloseAccountView, TransferCheckedView};
use crate::states::Escrow;
use vstd::prelude::*;

verus! {

/// The state of the ledger.
#[verifier::ext_equal]
pub struct LedgerState {
    /// The address of the escrow program: program-derived addresses are
    /// derived under it.
    pub program: Address,
    /// The storage allowance that every new account or record costs.
    pub rent: u64,
    /// The native balance of each address that has one. An address that is
    /// absent has none.
    pub wallets: Map<Address, u64>,
    /// The scale (number of decimals) of each registered asset.
    pub mints: Map<Address, u8>,
    /// The custodial accounts.
    pub tokens: Map<Holding, TokenState>,
    /// The escrow records, by address.
    pub records: Map<Address, RecordState>,
}

/// How a call relates the ledger before it to the ledger after it: where
/// `outcome` is a new state the call succeeds and leaves that state; where it
/// is an error the call returns that error and leaves the ledger as it was.
pub open spec fn commits(
    before: LedgerState,
    outcome: Result<LedgerState, EscrowError>,
    result: Result<(), EscrowError>,
    after: LedgerState,
) -> bool {
    match outcome {
        Ok(state) => result is Ok && after == state,
        Err(e) => result == Err::<(), EscrowError>(e) && after == before,
    }
}

impl LedgerState {
    /// The native balance of `address`.
    pub open spec fn native_balance(self, address: Address) -> u64 {
        if self.wallets.contains_key(address) {
            self.wallets[address]
        } else {
            0
        }
    }

    /// The units that `account` holds, where it exists.
    pub open spec fn balance(self, account: Holding) -> Option<u64> {
        if self.tokens.contains_key(account) {
            Some(self.tokens[account].amount)
        } else {
            None
        }
    }

    /// The units that `account` holds, none where it does not exist.
    pub open spec fn balance_or_zero(self, account: Holding) -> u64 {
        if self.tokens.contains_key(account) {
            self.tokens[account].amount
        } else {
            0
        }
    }

    /// Whether `authority` proves control of what `owner` owns: a signature
    /// of the owner itself, or seeds that derive the owner's address under
    /// the program.
    pub open spec fn authorizes(self, authority: AuthorityView, owner: Address) -> bool {
        match authority {
            AuthorityView::Signature { signer } => signer == owner,
            AuthorityView::Derivation { seeds } => derived_address(seeds, self.program@) == Some(
                owner@,
            ),
        }
    }

    /// Adds `amount` to the native balance of `wallet`.
    pub open spec fn fund(self, wallet: Address, amount: u64) -> Result<LedgerState, EscrowError> {
        if self.native_balance(wallet) + amount > u64::MAX {
            Err(EscrowError::AllowanceOverflow)
        } else {
            Ok(
                LedgerState {
                    wallets: self.wallets.insert(
                        wallet,
                        (self.native_balance(wallet) + amount) as u64,
                    ),
                    ..self
                },
            )
        }
    }

    /// Registers the asset `mint` with its scale.
    pub open spec fn register_mint(self, mint: Address, decimals: u8) -> Result<
        LedgerState,
        EscrowError,
    > {
        if self.mints.contains_key(mint) {
            Err(EscrowError::MintExists)
        } else {
            Ok(LedgerState { mints: self.mints.insert(mint, decimals), ..self })
        }
    }

    /// Issues `amount` new units into `account`.
    pub open spec fn mint_to(self, account: Holding, amount: u64) -> Result<
        LedgerState,
        EscrowError,
    > {
        if !self.tokens.contains_key(account) {
            Err(EscrowError::AccountNotFound)
        } else if self.tokens[account].amount + amount > u64::MAX {
            Err(EscrowError::BalanceOverflow)
        } else {
            Ok(
                LedgerState {
                    tokens: self.tokens.insert(
                        account,
                        TokenState {
                            amount: (self.tokens[account].amount + amount) as u64,
                            ..self.tokens[account]
                        },
                    ),
                    ..self
                },
            )
        }
    }

    /// Creates the custodial account `account`, empty, at the cost of one
    /// storage allowance to `payer`. Where the account exists already nothing
    /// happens.
    pub open spec fn create_token_account(self, payer: Address, account: Holding) -> Result<
        LedgerState,
        EscrowError,
    > {
        if self.tokens.contains_key(account) {
            Ok(self)
        } else if !self.mints.contains_key(account.mint) {
            Err(EscrowError::UnknownMint)
        } else if self.native_balance(payer) < self.rent {
            Err(EscrowError::InsufficientAllowance)
        } else {
            Ok(
                LedgerState {
                    wallets: self.wallets.insert(
                        payer,
                        (self.native_balance(payer) - self.rent) as u64,
                    ),
                    tokens: self.tokens.insert(
                        account,
                        TokenState { amount: 0, allowance: self.rent },
                    ),
                    ..self
                },
            )
        }
    }

    /// Moves `amount` units from `ix.from` to `ix.to`. The checks come in
    /// this order: both accounts exist; the source holds enough; both hold
    /// the same asset, the one stated; the scale stated is the asset's; the
    /// authority controls the source. A transfer from an account to itself
    /// passes the same checks and moves nothing.
    pub open spec fn transfer_checked(self, ix: TransferCheckedView, amount: u64, decimals: u8) -> Result<
        LedgerState,
        EscrowError,
    > {
        if !self.tokens.contains_key(ix.from) || !self.tokens.contains_key(ix.to) {
            Err(EscrowError::AccountNotFound)
        } else if self.tokens[ix.from].amount < amount {
            Err(EscrowError::InsufficientFunds)
        } else if ix.from.mint != ix.to.mint || ix.mint != ix.from.mint {
            Err(EscrowError::MintMismatch)
        } else if !self.mints.contains_key(ix.mint) {
            Err(EscrowError::UnknownMint)
        } else if self.mints[ix.mint] != decimals {
            Err(EscrowError::ScaleMismatch)
        } else if !self.authorizes(ix.authority, ix.from.owner) {
            Err(EscrowError::Unauthorized)
        } else if ix.from == ix.to {
            Ok(self)
        } else if self.tokens[ix.to].amount + amount > u64::MAX {
            Err(EscrowError::BalanceOverflow)
        } else {
            Ok(
                LedgerState {
                    tokens: self.tokens.insert(
                        ix.from,
                        TokenState {
                            amount: (self.tokens[ix.from].amount - amount) as u64,
                            ..self.tokens[ix.from]
                        },
                    ).insert(
                        ix.to,
                        TokenState {
                            amount: (self.tokens[ix.to].amount + amount) as u64,
                            ..self.tokens[ix.to]
                        },
                    ),
                    ..self
                },
            )
        }
    }

    /// Closes the custodial account `ix.account`, which must be empty, and
    /// pays its storage allowance to `ix.destination`.
    pub open spec fn close_account(self, ix: CloseAccountView) -> Result<LedgerState, EscrowError> {
        if !self.tokens.contains_key(ix.account) {
            Err(EscrowError::AccountNotFound)
        } else if self.tokens[ix.account].amount != 0 {
            Err(EscrowError::AccountNotEmpty)
        } else if !self.authorizes(ix.authority, ix.account.owner) {
            Err(EscrowError::Unauthorized)
        } else if self.native_balance(ix.destination) + self.tokens[ix.account].allowance
            > u64::MAX {
            Err(EscrowError::AllowanceOverflow)
        } else {
            Ok(
                LedgerState {
                    wallets: self.wallets.insert(
                        ix.destination,
                        (self.native_balance(ix.destination)
                            + self.tokens[ix.account].allowance) as u64,
                    ),
                    tokens: self.tokens.remove(ix.account),
                    ..self
                },
            )
        }
    }

    /// Stores `data` as a new record at `address`, at the cost of one storage
    /// allowance to `payer`.
    pub open spec fn allocate_record(self, address: Address, payer: Address, data: Escrow) -> Result<
        LedgerState,
        EscrowError,
    > {
        if self.records.contains_key(address) {
            Err(EscrowError::RecordExists)
        } else if self.native_balance(payer) < self.rent {
            Err(EscrowError::InsufficientAllowance)
        } else {
            Ok(
                LedgerState {
                    wallets: self.wallets.insert(
                        payer,
                        (self.native_balance(payer) - self.rent) as u64,
                    ),
                    records: self.records.insert(
                        address,
                        RecordState { data, allowance: self.rent },
                    ),
                    ..self
                },
            )
        }
    }

    /// Destroys the record at `address` and pays its storage allowance to
    /// `destination`.
    pub open spec fn destroy_record(self, address: Address, destination: Address) -> Result<
        LedgerState,
        EscrowError,
    > {
        if !self.records.contains_key(address) {
            Err(EscrowError::RecordNotFound)
        } else if self.native_balance(destination) + self.records[address].allowance > u64::MAX {
            Err(EscrowError::AllowanceOverflow)
        } else {
            Ok(
                LedgerState {
                    wallets: self.wallets.insert(
                        destination,
                        (self.native_balance(destination)
                            + self.records[address].allowance) as u64,
                    ),
                    records: self.records.remove(address),
                    ..self
                },
            )
        }
    }
}

} // verus!

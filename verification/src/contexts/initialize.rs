//! Initialize: the initializer makes an offer and locks asset A in the vault.

use crate::account::Holding;
use crate::address::Address;
use crate::contexts::{check_holding, either, holding_refusal};
use crate::derivation::{find_record_address, is_record_address, record_address_spec};
use crate::error::EscrowError;
use crate::instruction::{Authority, AuthorityView, TransferChecked, TransferCheckedView};
use crate::ledger::Ledger;
use crate::model::{commits, LedgerState};
use crate::states::Escrow;
use crate::table::Key;
use vstd::prelude::*;

verus! {

/// The accounts of an initialization.
#[derive(Clone, Copy, Debug, PartialEq, Eq)]
pub struct Initialize {
    /// The initializer, who has signed the call and pays for what is
    /// created.
    pub initializer: Address,
    /// The asset that the initializer offers.
    pub mint_a: Address,
    /// The asset that the initializer asks for.
    pub mint_b: Address,
    /// The initializer's account for asset A.
    pub initializer_ata_a: Holding,
    /// The address of the escrow record to create.
    pub escrow: Address,
    /// The vault: the record's account for asset A.
    pub vault: Holding,
}

/// The bump seeds found while the accounts were checked.
#[derive(Clone, Copy, Debug, PartialEq, Eq)]
pub struct InitializeBumps {
    /// The bump seed of the escrow record's address.
    pub escrow: u8,
}

impl Initialize {
    /// The first precondition of the initialization that `s` fails, if any.
    /// In order: `seed` derives an address; it is the address given for the
    /// record; both assets are registered; the two custodial accounts are
    /// those of the initializer and of the record for asset A; the
    /// initializer's account exists and holds at least the offered amount.
    pub open spec fn refusal(self, s: LedgerState, seed: u64, initializer_amount: u64) -> Option<
        EscrowError,
    > {
        match record_address_spec(s.program, seed) {
            None => Some(EscrowError::DerivationFailed),
            Some((address, bump)) => {
                let accounts = either(
                    holding_refusal(self.initializer_ata_a, self.initializer, self.mint_a),
                    holding_refusal(self.vault, self.escrow, self.mint_a),
                );
                if address != self.escrow@ {
                    Some(EscrowError::DerivationMismatch)
                } else if !s.mints.contains_key(self.mint_a) || !s.mints.contains_key(
                    self.mint_b,
                ) {
                    Some(EscrowError::UnknownMint)
                } else if accounts is Some {
                    accounts
                } else if !s.tokens.contains_key(self.initializer_ata_a) {
                    Some(EscrowError::AccountNotFound)
                } else if s.tokens[self.initializer_ata_a].amount < initializer_amount {
                    Some(EscrowError::InsufficientFunds)
                } else {
                    None
                }
            },
        }
    }

    /// The bump seed that goes with the address of the record that `seed`
    /// names.
    pub open spec fn bumps(s: LedgerState, seed: u64) -> InitializeBumps
        recommends
            record_address_spec(s.program, seed) is Some,
    {
        InitializeBumps { escrow: record_address_spec(s.program, seed)->Some_0.1 }
    }

    /// The record of the offer.
    pub open spec fn record(self, seed: u64, bump: u8, initializer_amount: u64, taker_amount: u64) -> Escrow {
        Escrow {
            seed,
            bump,
            initializer: self.initializer,
            mint_a: self.mint_a,
            mint_b: self.mint_b,
            initializer_amount,
            taker_amount,
        }
    }

    /// The initializer's deposit: asset A from the initializer to the vault,
    /// under the initializer's signature.
    pub open spec fn deposit_instruction(self) -> TransferCheckedView {
        TransferCheckedView {
            from: self.initializer_ata_a,
            mint: self.mint_a,
            to: self.vault,
            authority: AuthorityView::Signature { signer: self.initializer },
        }
    }

    /// What [`Initialize::initialize_escrow`] does to `s`: it allocates the
    /// record, with all its fields, at the initializer's cost.
    pub open spec fn initialize_escrow_outcome(
        self,
        s: LedgerState,
        seed: u64,
        bumps: InitializeBumps,
        initializer_amount: u64,
        taker_amount: u64,
    ) -> Result<LedgerState, EscrowError> {
        s.allocate_record(
            self.escrow,
            self.initializer,
            self.record(seed, bumps.escrow, initializer_amount, taker_amount),
        )
    }

    /// What [`Initialize::deposit`] does to `s`: it moves `initializer_amount`
    /// of asset A, at that asset's scale, into the vault.
    pub open spec fn deposit_outcome(self, s: LedgerState, initializer_amount: u64) -> Result<
        LedgerState,
        EscrowError,
    > {
        if !s.mints.contains_key(self.mint_a) {
            Err(EscrowError::UnknownMint)
        } else {
            s.transfer_checked(self.deposit_instruction(), initializer_amount, s.mints[self.mint_a])
        }
    }

    /// What the whole initialization does to `s`. Where a precondition fails,
    /// that failure. Else, in this order: the record is allocated; the vault
    /// is created where absent; the offered amount is moved into the vault.
    /// The first step that fails is the outcome.
    pub open spec fn outcome(
        self,
        s: LedgerState,
        seed: u64,
        initializer_amount: u64,
        taker_amount: u64,
    ) -> Result<LedgerState, EscrowError> {
        match self.refusal(s, seed, initializer_amount) {
            Some(e) => Err(e),
            None => match self.initialize_escrow_outcome(
                s,
                seed,
                Self::bumps(s, seed),
                initializer_amount,
                taker_amount,
            ) {
                Err(e) => Err(e),
                Ok(s1) => match s1.create_token_account(self.initializer, self.vault) {
                    Err(e) => Err(e),
                    Ok(s2) => self.deposit_outcome(s2, initializer_amount),
                },
            },
        }
    }

    /// The initializer holds less of asset A than `initializer_amount`, or
    /// has no account for it.
    pub open spec fn underfunded(self, s: LedgerState, initializer_amount: u64) -> bool {
        s.balance_or_zero(Holding { owner: self.initializer, mint: self.mint_a })
            < initializer_amount
    }

    /// What a successful initialization has done, seen from outside: the
    /// vault holds exactly the offered amount, the initializer's asset-A
    /// account holds that much less than before, and the record holds the
    /// terms of the offer at the address that its seed and bump seed derive.
    pub open spec fn locked(
        self,
        before: LedgerState,
        after: LedgerState,
        seed: u64,
        initializer_amount: u64,
        taker_amount: u64,
    ) -> bool {
        let source = Holding { owner: self.initializer, mint: self.mint_a };
        let vault = Holding { owner: self.escrow, mint: self.mint_a };
        let bump = Self::bumps(before, seed).escrow;
        &&& self.initializer_ata_a == source
        &&& self.vault == vault
        &&& after.balance(vault) == Some(initializer_amount)
        &&& before.tokens.contains_key(source)
        &&& before.tokens[source].amount >= initializer_amount
        &&& after.balance(source) == Some(
            (before.tokens[source].amount - initializer_amount) as u64,
        )
        &&& after.records.contains_key(self.escrow)
        &&& after.records[self.escrow].data == self.record(
            seed,
            bump,
            initializer_amount,
            taker_amount,
        )
        &&& is_record_address(after.program, seed, bump, self.escrow)
    }

    /// Checks the preconditions of the initialization and derives the
    /// record's bump seed.
    pub fn check(&self, ledger: &Ledger, seed: u64, initializer_amount: u64) -> (r: Result<
        InitializeBumps,
        EscrowError,
    >)
        ensures
            match r {
                Ok(bumps) => self.refusal(ledger@, seed, initializer_amount) is None && bumps
                    == Self::bumps(ledger@, seed),
                Err(e) => self.refusal(ledger@, seed, initializer_amount) == Some(e),
            },
    {
        let (address, bump) = match find_record_address(&ledger.program(), seed) {
            Some(found) => found,
            None => {
                return Err(EscrowError::DerivationFailed);
            },
        };
        proof {
            Address::lemma_view_injective(address, self.escrow);
        }
        if !address.same(&self.escrow) {
            return Err(EscrowError::DerivationMismatch);
        }
        if ledger.decimals(&self.mint_a).is_none() || ledger.decimals(&self.mint_b).is_none() {
            return Err(EscrowError::UnknownMint);
        }
        match check_holding(&self.initializer_ata_a, &self.initializer, &self.mint_a) {
            Err(e) => {
                return Err(e);
            },
            Ok(()) => {},
        }
        match check_holding(&self.vault, &self.escrow, &self.mint_a) {
            Err(e) => {
                return Err(e);
            },
            Ok(()) => {},
        }
        match ledger.balance(&self.initializer_ata_a) {
            None => {
                return Err(EscrowError::AccountNotFound);
            },
            Some(balance) => {
                if balance < initializer_amount {
                    return Err(EscrowError::InsufficientFunds);
                }
            },
        }
        Ok(InitializeBumps { escrow: bump })
    }

    /// Allocates the escrow record and writes the terms of the offer into
    /// it.
    pub fn initialize_escrow(
        &self,
        ledger: &mut Ledger,
        seed: u64,
        bumps: &InitializeBumps,
        initializer_amount: u64,
        taker_amount: u64,
    ) -> (r: Result<(), EscrowError>)
        ensures
            commits(
                old(ledger)@,
                self.initialize_escrow_outcome(
                    old(ledger)@,
                    seed,
                    *bumps,
                    initializer_amount,
                    taker_amount,
                ),
                r,
                final(ledger)@,
            ),
    {
        ledger.allocate_record(
            self.escrow,
            &self.initializer,
            Escrow {
                seed,
                bump: bumps.escrow,
                initializer: self.initializer,
                mint_a: self.mint_a,
                mint_b: self.mint_b,
                initializer_amount,
                taker_amount,
            },
        )
    }

    /// Moves `initializer_amount` of asset A from the initializer into the
    /// vault.
    pub fn deposit(&self, ledger: &mut Ledger, initializer_amount: u64) -> (r: Result<
        (),
        EscrowError,
    >)
        ensures
            commits(
                old(ledger)@,
                self.deposit_outcome(old(ledger)@, initializer_amount),
                r,
                final(ledger)@,
            ),
    {
        let decimals = match ledger.decimals(&self.mint_a) {
            Some(decimals) => decimals,
            None => {
                return Err(EscrowError::UnknownMint);
            },
        };
        ledger.transfer_checked(&self.into_deposit_context(), initializer_amount, decimals)
    }

    /// The instruction of the initializer's deposit.
    fn into_deposit_context(&self) -> (ix: TransferChecked)
        ensures
            ix@ == self.deposit_instruction(),
    {
        TransferChecked {
            from: self.initializer_ata_a,
            mint: self.mint_a,
            to: self.vault,
            authority: Authority::Signature { signer: self.initializer },
        }
    }
}

} // verus!

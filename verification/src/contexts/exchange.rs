//! Exchange: the taker delivers asset B and receives the vault's asset A.

use crate::account::Holding;
use crate::address::Address;
use crate::contexts::{check_holding, either, holding_refusal};
use crate::derivation::{is_record_address, signer_seeds, signer_seeds_spec, verify_record_address};
use crate::error::EscrowError;
use crate::instruction::{
    Authority, AuthorityView, CloseAccount, CloseAccountView, TransferChecked, TransferCheckedView,
};
use crate::ledger::Ledger;
use crate::model::{commits, LedgerState};
use crate::states::Escrow;
use crate::table::Key;
use vstd::prelude::*;

verus! {

/// The accounts of an exchange.
#[derive(Clone, Copy, Debug, PartialEq, Eq)]
pub struct Exchange {
    /// The taker, who has signed the call and pays for accounts created on
    /// demand.
    pub taker: Address,
    /// The initializer of the offer.
    pub initializer: Address,
    /// The asset locked in the vault.
    pub mint_a: Address,
    /// The asset that the taker delivers.
    pub mint_b: Address,
    /// The taker's account for asset A, created on demand.
    pub taker_ata_a: Holding,
    /// The taker's account for asset B.
    pub taker_ata_b: Holding,
    /// The initializer's account for asset B, created on demand.
    pub initializer_ata_b: Holding,
    /// The address of the escrow record.
    pub escrow: Address,
    /// The vault: the record's account for asset A.
    pub vault: Holding,
}

impl Exchange {
    /// The first precondition of the exchange that `s` fails, if any. In
    /// order: the record exists; its address is what its seed and bump seed
    /// derive; it names this initializer and these two assets; the four
    /// custodial accounts are those of the taker, the initializer and the
    /// record for these assets; both assets are registered; the taker's
    /// asset-B account exists and holds at least the requested amount; the
    /// vault exists.
    pub open spec fn refusal(self, s: LedgerState) -> Option<EscrowError> {
        if !s.records.contains_key(self.escrow) {
            Some(EscrowError::RecordNotFound)
        } else {
            let record = s.records[self.escrow].data;
            let accounts = either(
                holding_refusal(self.taker_ata_a, self.taker, self.mint_a),
                either(
                    holding_refusal(self.taker_ata_b, self.taker, self.mint_b),
                    either(
                        holding_refusal(self.initializer_ata_b, self.initializer, self.mint_b),
                        holding_refusal(self.vault, self.escrow, self.mint_a),
                    ),
                ),
            );
            if !is_record_address(s.program, record.seed, record.bump, self.escrow) {
                Some(EscrowError::DerivationMismatch)
            } else if record.initializer != self.initializer {
                Some(EscrowError::OwnerMismatch)
            } else if record.mint_a != self.mint_a || record.mint_b != self.mint_b {
                Some(EscrowError::MintMismatch)
            } else if accounts is Some {
                accounts
            } else if !s.mints.contains_key(self.mint_a) || !s.mints.contains_key(self.mint_b) {
                Some(EscrowError::UnknownMint)
            } else if !s.tokens.contains_key(self.taker_ata_b) {
                Some(EscrowError::AccountNotFound)
            } else if s.tokens[self.taker_ata_b].amount < record.taker_amount {
                Some(EscrowError::InsufficientFunds)
            } else if !s.tokens.contains_key(self.vault) {
                Some(EscrowError::AccountNotFound)
            } else {
                None
            }
        }
    }

    /// The taker's payment: asset B from the taker to the initializer, under
    /// the taker's signature.
    pub open spec fn deposit_instruction(self) -> TransferCheckedView {
        TransferCheckedView {
            from: self.taker_ata_b,
            mint: self.mint_b,
            to: self.initializer_ata_b,
            authority: AuthorityView::Signature { signer: self.taker },
        }
    }

    /// The withdrawal: asset A from the vault to the taker, under the
    /// record's derived authority.
    pub open spec fn withdraw_instruction(self, record: Escrow) -> TransferCheckedView {
        TransferCheckedView {
            from: self.vault,
            mint: self.mint_a,
            to: self.taker_ata_a,
            authority: AuthorityView::Derivation {
                seeds: signer_seeds_spec(record.seed, record.bump),
            },
        }
    }

    /// The closing of the vault, whose storage allowance goes to the
    /// initializer, under the record's derived authority.
    pub open spec fn close_instruction(self, record: Escrow) -> CloseAccountView {
        CloseAccountView {
            account: self.vault,
            destination: self.initializer,
            authority: AuthorityView::Derivation {
                seeds: signer_seeds_spec(record.seed, record.bump),
            },
        }
    }

    /// What [`Exchange::deposit`] does to `s`: it moves the record's
    /// requested amount of asset B, at that asset's scale.
    pub open spec fn deposit_outcome(self, s: LedgerState) -> Result<LedgerState, EscrowError> {
        if !s.records.contains_key(self.escrow) {
            Err(EscrowError::RecordNotFound)
        } else if !s.mints.contains_key(self.mint_b) {
            Err(EscrowError::UnknownMint)
        } else {
            s.transfer_checked(
                self.deposit_instruction(),
                s.records[self.escrow].data.taker_amount,
                s.mints[self.mint_b],
            )
        }
    }

    /// What [`Exchange::withdraw_and_close_vault`] does to `s`: it moves the
    /// record's offered amount of asset A out of the vault, then closes the
    /// vault.
    pub open spec fn withdraw_and_close_vault_outcome(self, s: LedgerState) -> Result<
        LedgerState,
        EscrowError,
    > {
        if !s.records.contains_key(self.escrow) {
            Err(EscrowError::RecordNotFound)
        } else if !s.mints.contains_key(self.mint_a) {
            Err(EscrowError::UnknownMint)
        } else {
            let record = s.records[self.escrow].data;
            match s.transfer_checked(
                self.withdraw_instruction(record),
                record.initializer_amount,
                s.mints[self.mint_a],
            ) {
                Err(e) => Err(e),
                Ok(moved) => moved.close_account(self.close_instruction(record)),
            }
        }
    }

    /// What the whole exchange does to `s`. Where a precondition fails, that
    /// failure. Else, in this order: the taker's asset-A account and the
    /// initializer's asset-B account are created where absent, at the taker's
    /// cost; the taker pays; the vault is emptied to the taker and closed;
    /// the record is destroyed, its storage allowance going to the
    /// initializer. The first step that fails is the outcome.
    pub open spec fn outcome(self, s: LedgerState) -> Result<LedgerState, EscrowError> {
        match self.refusal(s) {
            Some(e) => Err(e),
            None => match s.create_token_account(self.taker, self.taker_ata_a) {
                Err(e) => Err(e),
                Ok(s1) => match s1.create_token_account(self.taker, self.initializer_ata_b) {
                    Err(e) => Err(e),
                    Ok(s2) => match self.deposit_outcome(s2) {
                        Err(e) => Err(e),
                        Ok(s3) => match self.withdraw_and_close_vault_outcome(s3) {
                            Err(e) => Err(e),
                            Ok(s4) => s4.destroy_record(self.escrow, self.initializer),
                        },
                    },
                },
            },
        }
    }

    /// The taker is neither the initializer nor the record, and the two
    /// assets differ: no account plays two parts in the exchange.
    pub open spec fn distinct(self) -> bool {
        &&& self.taker != self.initializer
        &&& self.taker != self.escrow
        &&& self.mint_a != self.mint_b
    }

    /// The record exists and the taker holds less of its asset B than it
    /// asks for, or has no account for it.
    pub open spec fn underfunded(self, s: LedgerState) -> bool {
        &&& s.records.contains_key(self.escrow)
        &&& s.balance_or_zero(
            Holding { owner: self.taker, mint: s.records[self.escrow].data.mint_b },
        ) < s.records[self.escrow].data.taker_amount
    }

    /// What a successful exchange has done, seen from outside: the
    /// initializer's asset-B account holds the requested amount more than
    /// before and the taker's asset-A account the offered amount more (an
    /// account that was absent counting as empty), the taker's asset-B
    /// account holds the requested amount less, and neither the vault nor
    /// the record exists any longer.
    pub open spec fn settled(self, before: LedgerState, after: LedgerState) -> bool {
        let record = before.records[self.escrow].data;
        let taker_a = Holding { owner: self.taker, mint: self.mint_a };
        let taker_b = Holding { owner: self.taker, mint: self.mint_b };
        let initializer_b = Holding { owner: self.initializer, mint: self.mint_b };
        let vault = Holding { owner: self.escrow, mint: self.mint_a };
        &&& before.records.contains_key(self.escrow)
        &&& record.initializer == self.initializer
        &&& record.mint_a == self.mint_a
        &&& record.mint_b == self.mint_b
        &&& before.balance_or_zero(initializer_b) + record.taker_amount <= u64::MAX
        &&& after.balance(initializer_b) == Some(
            (before.balance_or_zero(initializer_b) + record.taker_amount) as u64,
        )
        &&& before.balance_or_zero(taker_a) + record.initializer_amount <= u64::MAX
        &&& after.balance(taker_a) == Some(
            (before.balance_or_zero(taker_a) + record.initializer_amount) as u64,
        )
        &&& before.balance_or_zero(taker_b) >= record.taker_amount
        &&& after.balance(taker_b) == Some(
            (before.balance_or_zero(taker_b) - record.taker_amount) as u64,
        )
        &&& !after.tokens.contains_key(vault)
        &&& !after.records.contains_key(self.escrow)
    }

    /// Where the storage allowances have gone after a successful exchange:
    /// those of the vault and of the record to the initializer, none to the
    /// taker.
    pub open spec fn allowances_returned(self, before: LedgerState, after: LedgerState) -> bool {
        &&& before.tokens.contains_key(self.vault)
        &&& before.records.contains_key(self.escrow)
        &&& after.native_balance(self.initializer) == before.native_balance(self.initializer)
            + before.tokens[self.vault].allowance + before.records[self.escrow].allowance
        &&& after.native_balance(self.taker) <= before.native_balance(self.taker)
    }

    /// Checks the preconditions of the exchange and reads the record.
    pub fn check(&self, ledger: &Ledger) -> (r: Result<Escrow, EscrowError>)
        ensures
            match r {
                Ok(record) => self.refusal(ledger@) is None && record
                    == ledger@.records[self.escrow].data,
                Err(e) => self.refusal(ledger@) == Some(e),
            },
    {
        let record = match ledger.record(&self.escrow) {
            Some(record) => record,
            None => {
                return Err(EscrowError::RecordNotFound);
            },
        };
        if !verify_record_address(&ledger.program(), record.seed, record.bump, &self.escrow) {
            return Err(EscrowError::DerivationMismatch);
        }
        if !record.initializer.same(&self.initializer) {
            return Err(EscrowError::OwnerMismatch);
        }
        if !record.mint_a.same(&self.mint_a) || !record.mint_b.same(&self.mint_b) {
            return Err(EscrowError::MintMismatch);
        }
        match check_holding(&self.taker_ata_a, &self.taker, &self.mint_a) {
            Err(e) => {
                return Err(e);
            },
            Ok(()) => {},
        }
        match check_holding(&self.taker_ata_b, &self.taker, &self.mint_b) {
            Err(e) => {
                return Err(e);
            },
            Ok(()) => {},
        }
        match check_holding(&self.initializer_ata_b, &self.initializer, &self.mint_b) {
            Err(e) => {
                return Err(e);
            },
            Ok(()) => {},
        }
        match check_holding(&self.vault, &self.escrow, &self.mint_a) {
            Err(e) => {
                return Err(e);
            },
            Ok(()) => {},
        }
        if ledger.decimals(&self.mint_a).is_none() || ledger.decimals(&self.mint_b).is_none() {
            return Err(EscrowError::UnknownMint);
        }
        match ledger.balance(&self.taker_ata_b) {
            None => {
                return Err(EscrowError::AccountNotFound);
            },
            Some(balance) => {
                if balance < record.taker_amount {
                    return Err(EscrowError::InsufficientFunds);
                }
            },
        }
        if ledger.balance(&self.vault).is_none() {
            return Err(EscrowError::AccountNotFound);
        }
        Ok(record)
    }

    /// Moves the requested amount of asset B from the taker to the
    /// initializer.
    pub fn deposit(&self, ledger: &mut Ledger) -> (r: Result<(), EscrowError>)
        ensures
            commits(old(ledger)@, self.deposit_outcome(old(ledger)@), r, final(ledger)@),
    {
        let record = match ledger.record(&self.escrow) {
            Some(record) => record,
            None => {
                return Err(EscrowError::RecordNotFound);
            },
        };
        let decimals = match ledger.decimals(&self.mint_b) {
            Some(decimals) => decimals,
            None => {
                return Err(EscrowError::UnknownMint);
            },
        };
        ledger.transfer_checked(&self.into_deposit_context(), record.taker_amount, decimals)
    }

    /// Moves the offered amount of asset A from the vault to the taker and
    /// closes the vault, both under the record's derived authority. Where
    /// either step fails nothing is changed.
    pub fn withdraw_and_close_vault(&self, ledger: &mut Ledger) -> (r: Result<(), EscrowError>)
        ensures
            commits(
                old(ledger)@,
                self.withdraw_and_close_vault_outcome(old(ledger)@),
                r,
                final(ledger)@,
            ),
    {
        let record = match ledger.record(&self.escrow) {
            Some(record) => record,
            None => {
                return Err(EscrowError::RecordNotFound);
            },
        };
        let decimals = match ledger.decimals(&self.mint_a) {
            Some(decimals) => decimals,
            None => {
                return Err(EscrowError::UnknownMint);
            },
        };
        let mut work = ledger.snapshot();
        match work.transfer_checked(
            &self.into_withdraw_context(&record),
            record.initializer_amount,
            decimals,
        ) {
            Err(e) => {
                return Err(e);
            },
            Ok(()) => {},
        }
        match work.close_account(&self.into_close_context(&record)) {
            Err(e) => {
                return Err(e);
            },
            Ok(()) => {},
        }
        *ledger = work;
        Ok(())
    }

    /// The instruction of the taker's payment.
    fn into_deposit_context(&self) -> (ix: TransferChecked)
        ensures
            ix@ == self.deposit_instruction(),
    {
        TransferChecked {
            from: self.taker_ata_b,
            mint: self.mint_b,
            to: self.initializer_ata_b,
            authority: Authority::Signature { signer: self.taker },
        }
    }

    /// The instruction of the withdrawal from the vault.
    fn into_withdraw_context(&self, record: &Escrow) -> (ix: TransferChecked)
        ensures
            ix@ == self.withdraw_instruction(*record),
    {
        TransferChecked {
            from: self.vault,
            mint: self.mint_a,
            to: self.taker_ata_a,
            authority: Authority::Derivation { seeds: signer_seeds(record.seed, record.bump) },
        }
    }

    /// The instruction that closes the vault.
    fn into_close_context(&self, record: &Escrow) -> (ix: CloseAccount)
        ensures
            ix@ == self.close_instruction(*record),
    {
        CloseAccount {
            account: self.vault,
            destination: self.initializer,
            authority: Authority::Derivation { seeds: signer_seeds(record.seed, record.bump) },
        }
    }
}

} // verus!
